use srt_whep::errors::MyError;
use srt_whep::registry::AppState;
use srt_whep::sdp::SessionDescription;

fn sdp(s: &str) -> SessionDescription {
    SessionDescription::parse(s.to_string()).unwrap()
}

#[test]
fn added_connections_are_found_and_removed_ones_are_not() {
    let mut app = AppState::new();
    assert!(app.add_connection("abc123".to_string()).is_ok());
    assert!(app.has_connection("abc123".to_string()));
    assert!(app.remove_connection("abc123".to_string()).is_ok());
    assert!(!app.has_connection("abc123".to_string()));
}

#[test]
fn adding_an_id_twice_is_refused() {
    let mut app = AppState::new();
    app.add_connection("abc".to_string()).unwrap();
    let err = app.add_connection("abc".to_string()).unwrap_err();
    assert!(matches!(err, MyError::RepeatedConnection(id) if id == "abc"));
}

#[test]
fn removing_an_unknown_id_is_refused() {
    let mut app = AppState::new();
    let err = app.remove_connection("nope".to_string()).unwrap_err();
    assert!(matches!(err, MyError::ConnectionNotFound(id) if id == "nope"));
}

#[test]
fn the_offer_wait_returns_the_most_recent_save_rewritten_to_active() {
    let mut app = AppState::new();
    app.add_connection("c".to_string()).unwrap();
    app.save_whip_offer("c".to_string(), sdp("v=0 a=setup:actpass a=sendonly one"))
        .unwrap();
    app.save_whip_offer("c".to_string(), sdp("v=0 a=setup:actpass a=sendonly two"))
        .unwrap();
    let got = app.wait_on_whip_offer("c".to_string()).unwrap();
    assert_eq!(got.as_str(), "v=0 a=setup:active a=sendonly two");
}

#[test]
fn the_answer_wait_returns_the_save_rewritten_to_passive() {
    let mut app = AppState::new();
    app.add_connection("c".to_string()).unwrap();
    app.save_whep_answer("c".to_string(), sdp("v=0 a=setup:actpass a=recvonly"))
        .unwrap();
    let got = app.wait_on_whep_answer("c".to_string()).unwrap();
    assert_eq!(got.as_str(), "v=0 a=setup:passive a=recvonly");
}

#[test]
fn waits_without_a_matching_save_report_the_miss() {
    let mut app = AppState::new();
    app.add_connection("c".to_string()).unwrap();
    let offer = app.wait_on_whip_offer("c".to_string());
    assert!(matches!(offer, Err(MyError::OfferMissing)));
    let answer = app.wait_on_whep_answer("c".to_string());
    assert!(matches!(answer, Err(MyError::AnswerMissing)));
}

#[test]
fn waits_on_an_unknown_id_report_it() {
    let app = AppState::new();
    let offer = app.wait_on_whip_offer("ghost".to_string());
    assert!(matches!(offer, Err(MyError::ConnectionNotFound(id)) if id == "ghost"));
}

#[test]
fn saving_for_an_unknown_id_is_refused() {
    let mut app = AppState::new();
    let r = app.save_whip_offer("ghost".to_string(), sdp("v=0 a=sendonly"));
    assert!(matches!(r, Err(MyError::ConnectionNotFound(id)) if id == "ghost"));
}

#[test]
fn saving_the_offer_leaves_the_answer_slot_alone() {
    let mut app = AppState::new();
    app.add_connection("c".to_string()).unwrap();
    app.save_whep_answer("c".to_string(), sdp("v=0 a=recvonly")).unwrap();
    app.save_whip_offer("c".to_string(), sdp("v=0 a=sendonly")).unwrap();
    assert_eq!(app.wait_on_whep_answer("c".to_string()).unwrap().as_str(), "v=0 a=recvonly");
    assert_eq!(app.wait_on_whip_offer("c".to_string()).unwrap().as_str(), "v=0 a=sendonly");
}

#[test]
fn listing_snapshots_every_id_once() {
    let mut app = AppState::new();
    app.add_connection("a".to_string()).unwrap();
    app.add_connection("b".to_string()).unwrap();
    let mut ids = app.list_connections();
    ids.sort();
    assert_eq!(ids, vec!["a".to_string(), "b".to_string()]);
}

#[test]
fn reset_drops_every_connection() {
    let mut app = AppState::new();
    app.add_connection("a".to_string()).unwrap();
    app.add_connection("b".to_string()).unwrap();
    app.reset();
    assert!(!app.has_connection("a".to_string()));
    assert!(!app.has_connection("b".to_string()));
    assert!(app.list_connections().is_empty());
}

#[test]
fn get_connection_hands_out_the_stored_slots() {
    let mut app = AppState::new();
    app.add_connection("c".to_string()).unwrap();
    app.save_whip_offer("c".to_string(), sdp("v=0 a=sendonly")).unwrap();
    let conn = app.get_connection("c".to_string()).unwrap();
    assert_eq!(conn.id().as_str(), "c");
    assert_eq!(conn.whip_offer().as_ref().unwrap().as_str(), "v=0 a=sendonly");
    assert!(conn.whep_answer().is_none());
}
