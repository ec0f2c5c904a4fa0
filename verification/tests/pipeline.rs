use srt_whep::config::{Args, SRTMode};
use srt_whep::errors::MyError;
use srt_whep::pipeline::{
    branch_elements, classify_branch, classify_pad, input_uri, output_uri, run_step, u32_dec,
    whip_endpoint, BranchKind, BusMessage, PadMedia, PipelineModel,
};

fn args() -> Args {
    Args {
        input_address: "127.0.0.1:1234".to_string(),
        srt_mode: SRTMode::Caller,
        run_discoverer: true,
        discoverer_timeout_sec: 10,
        output_address: "127.0.0.1:8888".to_string(),
        port: 8000,
    }
}

#[test]
fn decimal_rendering_is_exact() {
    assert_eq!(u32_dec(0), "0");
    assert_eq!(u32_dec(7), "7");
    assert_eq!(u32_dec(10), "10");
    assert_eq!(u32_dec(8000), "8000");
    assert_eq!(u32_dec(100005), "100005");
    assert_eq!(u32_dec(u32::MAX), "4294967295");
}

#[test]
fn srt_uris_carry_the_address_and_the_role() {
    let a = args();
    assert_eq!(input_uri(&a), "srt://127.0.0.1:1234?mode=caller");
    assert_eq!(output_uri(&a), "srt://127.0.0.1:8888?mode=listener");

    let mut b = args();
    b.srt_mode = SRTMode::Listener;
    assert_eq!(input_uri(&b), "srt://127.0.0.1:1234?mode=listener");
    assert_eq!(output_uri(&b), "srt://127.0.0.1:8888?mode=caller");
}

#[test]
fn the_srt_role_reverses() {
    assert_eq!(SRTMode::Caller.reverse(), SRTMode::Listener);
    assert_eq!(SRTMode::Listener.reverse(), SRTMode::Caller);
    assert_eq!(SRTMode::Caller.to_str(), "caller");
    assert_eq!(SRTMode::Listener.to_str(), "listener");
}

#[test]
fn the_whip_endpoint_points_at_the_local_server() {
    assert_eq!(
        whip_endpoint(8000, &"abc123".to_string()),
        "http://localhost:8000/whip_sink/abc123"
    );
}

#[test]
fn pads_are_classified_by_their_prefix() {
    assert_eq!(classify_pad("audio/mpeg"), PadMedia::Audio);
    assert_eq!(classify_pad("video/x-h264"), PadMedia::Video);
    assert_eq!(classify_pad("application/x-teletext"), PadMedia::Other);
    assert_eq!(classify_pad(""), PadMedia::Other);
}

#[test]
fn branches_are_picked_by_media_kind() {
    assert_eq!(classify_branch("video/x-h264"), BranchKind::VideoH264);
    assert_eq!(classify_branch("video/x-h265"), BranchKind::VideoH265);
    assert_eq!(classify_branch("audio/mpeg"), BranchKind::Audio);
    assert_eq!(classify_branch("video/x-vp9"), BranchKind::Unsupported);
}

#[test]
fn branch_elements_name_the_exact_chains() {
    assert_eq!(
        branch_elements("video/x-h264").unwrap(),
        vec!["h264parse", "output_tee_video", "fakesink"]
    );
    assert_eq!(
        branch_elements("video/x-h265").unwrap(),
        vec!["h265parse", "output_tee_video", "fakesink"]
    );
    assert_eq!(
        branch_elements("audio/mpeg").unwrap(),
        vec![
            "aacparse",
            "avdec_aac",
            "audioconvert",
            "audioresample",
            "opusenc",
            "output_tee_audio",
            "fakesink"
        ]
    );
    assert!(matches!(
        branch_elements("text/plain"),
        Err(MyError::FailedOperation(_))
    ));
}

#[test]
fn the_run_returns_on_eos_and_error_only() {
    assert!(run_step(&BusMessage::Eos));
    assert!(run_step(&BusMessage::Error));
    assert!(!run_step(&BusMessage::Other));
}

#[test]
fn init_decides_uris_and_the_discoverer_run() {
    let a = args();
    let mut pl = PipelineModel::new(&a);
    let plan = pl.init(&a);
    assert_eq!(plan.input_uri, "srt://127.0.0.1:1234?mode=caller");
    assert_eq!(plan.output_uri, "srt://127.0.0.1:8888?mode=listener");
    assert!(plan.run_discoverer);
    assert_eq!(plan.discoverer_timeout_sec, 10);

    let mut b = args();
    b.srt_mode = SRTMode::Listener;
    let plan2 = pl.init(&b);
    assert!(!plan2.run_discoverer);
}

#[test]
fn viewers_attach_only_once_a_pad_was_announced() {
    let a = args();
    let mut pl = PipelineModel::new(&a);
    pl.init(&a);
    assert!(!pl.ready());
    let refused = pl.add_connection("abc".to_string());
    assert!(matches!(refused, Err(MyError::FailedOperation(_))));

    assert_eq!(pl.pad_added("video/x-h264"), PadMedia::Video);
    assert!(pl.ready());
    let plan = pl.add_connection("abc".to_string()).unwrap();
    assert_eq!(plan.whip_sink_name, "whip-sink-abc");
    assert_eq!(plan.endpoint, "http://localhost:8000/whip_sink/abc");
    assert_eq!(plan.video_queue_name.as_deref(), Some("video-queue-abc"));
    assert_eq!(plan.audio_queue_name, None);
    assert_eq!(pl.viewer_count(), 1);
}

#[test]
fn an_audio_pad_adds_the_audio_queue_to_viewer_plans() {
    let a = args();
    let mut pl = PipelineModel::new(&a);
    pl.init(&a);
    pl.pad_added("video/x-h264");
    pl.pad_added("audio/mpeg");
    let plan = pl.add_connection("abc".to_string()).unwrap();
    assert_eq!(plan.audio_queue_name.as_deref(), Some("audio-queue-abc"));
}

#[test]
fn a_second_branch_for_one_viewer_is_refused() {
    let a = args();
    let mut pl = PipelineModel::new(&a);
    pl.init(&a);
    pl.pad_added("video/x-h264");
    pl.add_connection("abc".to_string()).unwrap();
    let again = pl.add_connection("abc".to_string());
    assert!(matches!(again, Err(MyError::RepeatedConnection(id)) if id == "abc"));
}

#[test]
fn removing_a_viewer_names_its_elements_and_forgets_the_id() {
    let a = args();
    let mut pl = PipelineModel::new(&a);
    pl.init(&a);
    pl.pad_added("video/x-h264");
    pl.add_connection("abc".to_string()).unwrap();
    let plan = pl.remove_connection("abc".to_string());
    assert_eq!(plan.video_queue_name, "video-queue-abc");
    assert_eq!(plan.audio_queue_name, "audio-queue-abc");
    assert_eq!(plan.whip_sink_name, "whip-sink-abc");
    assert_eq!(pl.viewer_count(), 0);
    assert!(pl.add_connection("abc".to_string()).is_ok());
}

#[test]
fn the_graph_is_fully_restartable() {
    let a = args();
    let mut pl = PipelineModel::new(&a);
    pl.init(&a);
    pl.pad_added("video/x-h264");
    pl.add_connection("abc".to_string()).unwrap();
    pl.end();
    pl.clean_up();
    assert!(!pl.ready());
    let plan = pl.init(&a);
    assert_eq!(plan.input_uri, "srt://127.0.0.1:1234?mode=caller");
    assert!(!pl.ready());
    assert_eq!(pl.viewer_count(), 0);
    pl.pad_added("audio/mpeg");
    assert!(pl.ready());
    assert!(pl.add_connection("abc".to_string()).is_ok());
}
