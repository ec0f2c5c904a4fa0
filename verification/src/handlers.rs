//! The HTTP handler decisions: what each WHEP/WHIP route validates, how it
//! drives the registry and the controller, and exactly which response it
//! owes for every input.
//!
//! The handlers that wait on the rendezvous are split at the suspension
//! point: a first function decides everything up to the wait, a second one
//! resolves the wait's outcome into the response. The caller runs the wait
//! (a notification with a deadline) between the two.

use vstd::prelude::*;
use vstd::string::*;

use crate::errors::MyError;
use crate::errors::SubscribeError;
use crate::pipeline::AddPlan;
use crate::pipeline::PipelineModel;
use crate::pipeline::PipelineView;
use crate::pipeline::spec_has_viewer;
use crate::pipeline::spec_pipeline_ready;
use crate::registry::AppState;
use crate::registry::ConnectionView;
use crate::registry::empty_connection;
use crate::registry::spec_save_whip_offer;
use crate::sdp::SessionDescription;
use crate::sdp::spec_valid_sdp;

verus! {

/// One response header.
#[derive(Debug)]
pub struct Header {
    pub name: String,
    pub value: String,
}

/// What a handler answers: the status, the headers the routes use, and
/// the body.
#[derive(Debug)]
pub struct Response {
    pub status: u16,
    pub location: Option<String>,
    pub content_type: Option<String>,
    pub headers: Vec<Header>,
    pub body: String,
}

/// The resource path of viewer `id`'s channel.
pub open spec fn spec_channel_location(id: Seq<char>) -> Seq<char> {
    "/channel/"@ + id
}

/// The resource path a WHIP response points at.
pub open spec fn spec_whip_location(id: Seq<char>, resource: Seq<char>) -> Seq<char> {
    "/whip_sink/"@ + id + "/"@ + resource
}

/// The JSON array holding the given strings in order.
pub uninterp spec fn json_of_ids(ids: Seq<Seq<char>>) -> Seq<char>;

/// Relies on uuid::Uuid::new_v4 and its display form: a fresh random
/// version-4 UUID rendered hyphenated, which is always 36 ASCII
/// characters. Nothing more is assumed of the random value.
#[verifier::external_body]
fn fresh_id() -> (r: String)
    ensures
        r@.len() == 36,
{
    uuid::Uuid::new_v4().to_string()
}

/// Relies on serde_json::to_string, which renders a vector of strings as
/// a JSON array and cannot fail on strings.
#[verifier::external_body]
fn json_list(ids: &Vec<String>) -> (r: String)
    ensures
        r@ == json_of_ids(ids.deep_view()),
{
    serde_json::to_string(ids).unwrap()
}

fn channel_location(id: &String) -> (r: String)
    ensures
        r@ == spec_channel_location(id@),
{
    let mut s = String::from_str("/channel/");
    s.append(id.as_str());
    s
}

fn whip_location(id: &String, resource: &String) -> (r: String)
    ensures
        r@ == spec_whip_location(id@, resource@),
{
    let mut s = String::from_str("/whip_sink/");
    s.append(id.as_str());
    s.append("/");
    s.append(resource.as_str());
    proof {
        assert(s@ =~= spec_whip_location(id@, resource@));
    }
    s
}

fn sdp_content_type() -> (r: String)
    ensures
        r@ == "application/sdp"@,
{
    String::from_str("application/sdp")
}

/// The WHEP ingress, up to the rendezvous: an empty body and a ready
/// graph admit a fresh viewer, registered with the controller and the
/// registry; the caller then waits for the WHIP offer and resolves with
/// [`whep_handler_after_wait`]. On success the fresh id and the viewer
/// branch to build come back; the one failure past validation is a random
/// id that collides with an existing one.
pub fn whep_handler(form: String, app: &mut AppState, pipeline: &mut PipelineModel) -> (r: Result<
    (String, AddPlan),
    SubscribeError,
>)
    requires
        old(app).wf(),
        old(pipeline).wf(),
    ensures
        final(app).wf(),
        final(pipeline).wf(),
        form@.len() > 0 ==> (r matches Err(SubscribeError::ValidationError(MyError::InvalidSDP(m)))
            && m@ == "Empty body expected. Client initialization not supported."@ && final(app)@
            == old(app)@ && final(pipeline)@ == old(pipeline)@),
        form@.len() == 0 && !spec_pipeline_ready(old(pipeline)@) ==> (r matches Err(
            SubscribeError::MissingInputStream,
        ) && final(app)@ == old(app)@ && final(pipeline)@ == old(pipeline)@),
        form@.len() == 0 && spec_pipeline_ready(old(pipeline)@) ==> (r matches Ok(p) ==> (
        p.0@.len() == 36 && !spec_has_viewer(old(pipeline)@.viewers, p.0@) && !old(
            app,
        )@.contains_key(p.0@) && final(pipeline)@ == (PipelineView {
            viewers: old(pipeline)@.viewers.push(p.0@),
            ..old(pipeline)@
        }) && final(app)@ == old(app)@.insert(p.0@, empty_connection()) && p.1.whip_sink_name@
            == crate::pipeline::spec_whip_sink_name(p.0@) && p.1.endpoint@
            == crate::pipeline::spec_whip_endpoint(old(pipeline)@.port, p.0@) && (old(
            pipeline,
        )@.has_video ==> (p.1.video_queue_name matches Some(q) && q@
            == crate::pipeline::spec_video_queue_name(p.0@))) && (old(pipeline)@.has_audio ==> (
        p.1.audio_queue_name matches Some(q) && q@ == crate::pipeline::spec_audio_queue_name(
            p.0@,
        ))))),
        form@.len() == 0 && spec_pipeline_ready(old(pipeline)@) ==> (r matches Err(e) ==> (
        e matches SubscribeError::UnexpectedError(MyError::RepeatedConnection(c)) && c@.len() == 36
            && (spec_has_viewer(old(pipeline)@.viewers, c@) || old(app)@.contains_key(c@)))),
{
    if !form.as_str().is_empty() {
        return Err(
            SubscribeError::ValidationError(
                MyError::InvalidSDP(
                    String::from_str("Empty body expected. Client initialization not supported."),
                ),
            ),
        );
    }
    if !pipeline.ready() {
        return Err(SubscribeError::MissingInputStream);
    }
    let id = fresh_id();
    let plan = match pipeline.add_connection(id.clone()) {
        Ok(plan) => plan,
        Err(e) => {
            return Err(SubscribeError::UnexpectedError(e));
        },
    };
    match app.add_connection(id.clone()) {
        Ok(()) => (),
        Err(e) => {
            return Err(SubscribeError::UnexpectedError(e));
        },
    }
    Ok((id, plan))
}

/// The WHEP ingress, after the rendezvous: a saved offer is answered with
/// 201, the channel's location, and the offer itself (its setup role was
/// rewritten to `active` when it was saved). A missed rendezvous takes the
/// half-built viewer out of both the controller and the registry and
/// surfaces the missing offer.
pub fn whep_handler_after_wait(id: String, app: &mut AppState, pipeline: &mut PipelineModel) -> (r:
    Result<Response, SubscribeError>)
    requires
        old(app).wf(),
        old(pipeline).wf(),
        old(pipeline)@.initialized,
    ensures
        final(app).wf(),
        final(pipeline).wf(),
        old(app)@.contains_key(id@) && old(app)@[id@].whip_offer is Some ==> (r matches Ok(resp)
            && resp.status == 201 && (resp.location matches Some(l) && l@ == spec_channel_location(
            id@,
        )) && (resp.content_type matches Some(c) && c@ == "application/sdp"@) && Some(resp.body@)
            == old(app)@[id@].whip_offer && final(app)@ == old(app)@ && final(pipeline)@ == old(
            pipeline,
        )@),
        !(old(app)@.contains_key(id@) && old(app)@[id@].whip_offer is Some) ==> (r matches Err(
            SubscribeError::ValidationError(MyError::OfferMissing),
        ) && final(app)@ == old(app)@.remove(id@) && (forall|k: Seq<char>|
            spec_has_viewer(final(pipeline)@.viewers, k) <==> (spec_has_viewer(
                old(pipeline)@.viewers,
                k,
            ) && k != id@))),
{
    let got = app.wait_on_whip_offer(id.clone());
    match got {
        Ok(offer) => {
            let location = channel_location(&id);
            Ok(
                Response {
                    status: 201,
                    location: Some(location),
                    content_type: Some(sdp_content_type()),
                    headers: Vec::new(),
                    body: offer.into_string(),
                },
            )
        },
        Err(_) => {
            let ghost idv = id@;
            let _ = pipeline.remove_connection(id.clone());
            let _ = app.remove_connection(id);
            proof {
                if !old(app)@.contains_key(idv) {
                    assert(app@ =~= old(app)@.remove(idv));
                }
            }
            Err(SubscribeError::ValidationError(MyError::OfferMissing))
        },
    }
}

/// The WHEP answer: a non-empty id and a valid answer that is not
/// send-only are stored for the WHIP side (setup role rewritten to
/// `passive` on the way) and acknowledged with 204.
pub fn whep_patch_handler(form: String, id: String, app: &mut AppState) -> (r: Result<
    Response,
    SubscribeError,
>)
    requires
        old(app).wf(),
    ensures
        final(app).wf(),
        id@.len() == 0 ==> (r matches Err(SubscribeError::ValidationError(MyError::EmptyConnection))
            && final(app)@ == old(app)@),
        id@.len() > 0 && !spec_valid_sdp(form@) ==> (r matches Err(
            SubscribeError::ValidationError(MyError::InvalidSDP(m)),
        ) && m@ == "invalid SDP: "@ + form@ && final(app)@ == old(app)@),
        id@.len() > 0 && spec_valid_sdp(form@) && crate::sdp::contains_token(
            form@,
            "a=sendonly"@,
        ) ==> (r matches Err(SubscribeError::ValidationError(MyError::InvalidSDP(m))) && m@
            == "Received a send-only SDP from client, ignoring it."@ && final(app)@ == old(app)@),
        id@.len() > 0 && spec_valid_sdp(form@) && !crate::sdp::contains_token(
            form@,
            "a=sendonly"@,
        ) && !old(app)@.contains_key(id@) ==> (r matches Err(
            SubscribeError::UnexpectedError(MyError::ConnectionNotFound(e)),
        ) && e@ == id@ && final(app)@ == old(app)@),
        id@.len() > 0 && spec_valid_sdp(form@) && !crate::sdp::contains_token(
            form@,
            "a=sendonly"@,
        ) && old(app)@.contains_key(id@) ==> (r matches Ok(resp) && resp.status == 204
            && resp.body@.len() == 0 && final(app)@ == crate::registry::spec_save_whep_answer(
            old(app)@,
            id@,
            form@,
        )),
{
    if id.as_str().is_empty() {
        return Err(SubscribeError::ValidationError(MyError::EmptyConnection));
    }
    let answer = match SessionDescription::parse(form) {
        Ok(sd) => sd,
        Err(m) => {
            return Err(SubscribeError::ValidationError(MyError::InvalidSDP(m)));
        },
    };
    if answer.is_sendonly() {
        return Err(
            SubscribeError::ValidationError(
                MyError::InvalidSDP(
                    String::from_str("Received a send-only SDP from client, ignoring it."),
                ),
            ),
        );
    }
    match app.save_whep_answer(id, answer) {
        Ok(()) => Ok(
            Response {
                status: 204,
                location: None,
                content_type: None,
                headers: Vec::new(),
                body: String::new(),
            },
        ),
        Err(e) => Err(SubscribeError::UnexpectedError(e)),
    }
}

/// The WHIP ingress, up to the rendezvous: a non-empty id and a valid
/// send-only offer are stored for the WHEP side (setup role rewritten to
/// `active` on the way), and a fresh resource id is minted for the
/// response's location. The caller then waits for the WHEP answer and
/// resolves with [`whip_handler_after_wait`].
pub fn whip_handler(form: String, id: String, app: &mut AppState) -> (r: Result<
    String,
    SubscribeError,
>)
    requires
        old(app).wf(),
    ensures
        final(app).wf(),
        id@.len() == 0 ==> (r matches Err(SubscribeError::ValidationError(MyError::EmptyConnection))
            && final(app)@ == old(app)@),
        id@.len() > 0 && !spec_valid_sdp(form@) ==> (r matches Err(
            SubscribeError::ValidationError(MyError::InvalidSDP(m)),
        ) && m@ == "invalid SDP: "@ + form@ && final(app)@ == old(app)@),
        id@.len() > 0 && spec_valid_sdp(form@) && !crate::sdp::contains_token(
            form@,
            "a=sendonly"@,
        ) ==> (r matches Err(SubscribeError::ValidationError(MyError::InvalidSDP(m))) && m@
            == "Received a recv-only SDP from whipsink, ignoring it."@ && final(app)@ == old(
            app,
        )@),
        id@.len() > 0 && spec_valid_sdp(form@) && crate::sdp::contains_token(form@, "a=sendonly"@)
            && !old(app)@.contains_key(id@) ==> (r matches Err(
            SubscribeError::UnexpectedError(MyError::ConnectionNotFound(e)),
        ) && e@ == id@ && final(app)@ == old(app)@),
        id@.len() > 0 && spec_valid_sdp(form@) && crate::sdp::contains_token(form@, "a=sendonly"@)
            && old(app)@.contains_key(id@) ==> (r matches Ok(resource) && resource@.len() == 36
            && final(app)@ == spec_save_whip_offer(old(app)@, id@, form@)),
{
    if id.as_str().is_empty() {
        return Err(SubscribeError::ValidationError(MyError::EmptyConnection));
    }
    let offer = match SessionDescription::parse(form) {
        Ok(sd) => sd,
        Err(m) => {
            return Err(SubscribeError::ValidationError(MyError::InvalidSDP(m)));
        },
    };
    if !offer.is_sendonly() {
        return Err(
            SubscribeError::ValidationError(
                MyError::InvalidSDP(
                    String::from_str("Received a recv-only SDP from whipsink, ignoring it."),
                ),
            ),
        );
    }
    let resource_id = fresh_id();
    match app.save_whip_offer(id, offer) {
        Ok(()) => Ok(resource_id),
        Err(e) => Err(SubscribeError::UnexpectedError(e)),
    }
}

/// The WHIP ingress, after the rendezvous: a saved answer is handed to
/// the sink with 201 and the resource's location (its setup role was
/// rewritten to `passive` when it was saved). A missed rendezvous asks
/// for a full restart: the run is told to return, the registry is
/// dropped, and the missing answer is surfaced.
pub fn whip_handler_after_wait(
    id: String,
    resource_id: String,
    app: &mut AppState,
    pipeline: &mut PipelineModel,
) -> (r: Result<Response, SubscribeError>)
    requires
        old(app).wf(),
        old(pipeline).wf(),
    ensures
        final(app).wf(),
        final(pipeline).wf(),
        old(app)@.contains_key(id@) && old(app)@[id@].whep_answer is Some ==> (r matches Ok(resp)
            && resp.status == 201 && (resp.location matches Some(l) && l@ == spec_whip_location(
            id@,
            resource_id@,
        )) && (resp.content_type matches Some(c) && c@ == "application/sdp"@) && Some(resp.body@)
            == old(app)@[id@].whep_answer && final(app)@ == old(app)@ && final(pipeline)@ == old(
            pipeline,
        )@),
        !(old(app)@.contains_key(id@) && old(app)@[id@].whep_answer is Some) ==> (r matches Err(
            SubscribeError::ValidationError(MyError::AnswerMissing),
        ) && final(app)@ == Map::<Seq<char>, ConnectionView>::empty() && (old(
            pipeline,
        )@.initialized ==> final(pipeline)@ == (PipelineView {
            quit_requested: true,
            ..old(pipeline)@
        })) && (!old(pipeline)@.initialized ==> final(pipeline)@ == old(pipeline)@)),
{
    let got = app.wait_on_whep_answer(id.clone());
    match got {
        Ok(answer) => {
            let location = whip_location(&id, &resource_id);
            Ok(
                Response {
                    status: 201,
                    location: Some(location),
                    content_type: Some(sdp_content_type()),
                    headers: Vec::new(),
                    body: answer.into_string(),
                },
            )
        },
        Err(_) => {
            pipeline.quit();
            app.reset();
            Err(SubscribeError::ValidationError(MyError::AnswerMissing))
        },
    }
}

/// The explicit delete: a registered viewer is taken out of the
/// controller and the registry and acknowledged with 200; an unknown id
/// is refused.
pub fn remove_connection(id: String, app: &mut AppState, pipeline: &mut PipelineModel) -> (r:
    Result<Response, SubscribeError>)
    requires
        old(app).wf(),
        old(pipeline).wf(),
        old(pipeline)@.initialized,
    ensures
        final(app).wf(),
        final(pipeline).wf(),
        !old(app)@.contains_key(id@) ==> (r matches Err(
            SubscribeError::ValidationError(MyError::ConnectionNotFound(e)),
        ) && e@ == id@ && final(app)@ == old(app)@ && final(pipeline)@ == old(pipeline)@),
        old(app)@.contains_key(id@) ==> (r matches Ok(resp) && resp.status == 200
            && resp.body@.len() == 0 && final(app)@ == old(app)@.remove(id@) && (forall|
            k: Seq<char>,
        |
            spec_has_viewer(final(pipeline)@.viewers, k) <==> (spec_has_viewer(
                old(pipeline)@.viewers,
                k,
            ) && k != id@))),
{
    if !app.has_connection(id.clone()) {
        return Err(SubscribeError::ValidationError(MyError::ConnectionNotFound(id)));
    }
    let _ = pipeline.remove_connection(id.clone());
    match app.remove_connection(id) {
        Ok(()) => Ok(
            Response {
                status: 200,
                location: None,
                content_type: None,
                headers: Vec::new(),
                body: String::new(),
            },
        ),
        Err(e) => Err(SubscribeError::UnexpectedError(e)),
    }
}

/// The ids of `m`, each exactly once, in some order.
pub open spec fn spec_id_snapshot(
    m: Map<Seq<char>, ConnectionView>,
    ids: Seq<Seq<char>>,
) -> bool {
    &&& forall|k: Seq<char>| #[trigger] m.contains_key(k) <==> exists|i: int|
        0 <= i < ids.len() && ids[i] == k
    &&& forall|i: int, j: int| 0 <= i < j < ids.len() ==> ids[i] != ids[j]
}

/// The listing: a snapshot of the registered ids as a JSON array.
pub fn list(app: &AppState) -> (r: Response)
    requires
        app.wf(),
    ensures
        r.status == 200,
        exists|ids: Seq<Seq<char>>|
            r.body@ == #[trigger] json_of_ids(ids) && spec_id_snapshot(app@, ids),
{
    let ids = app.list_connections();
    let body = json_list(&ids);
    proof {
        assert forall|k: Seq<char>| #[trigger] app@.contains_key(k) implies exists|i: int|
            0 <= i < ids.deep_view().len() && ids.deep_view()[i] == k by {
            let i = choose|i: int| 0 <= i < ids@.len() && ids@[i]@ == k;
            assert(ids.deep_view()[i] == k);
        }
        assert forall|k: Seq<char>|
            (exists|i: int|
                0 <= i < ids.deep_view().len() && ids.deep_view()[i]
                    == k) implies #[trigger] app@.contains_key(k) by {
            let i = choose|i: int| 0 <= i < ids.deep_view().len() && ids.deep_view()[i] == k;
            assert(ids@[i]@ == k);
        }
        assert forall|i: int, j: int|
            0 <= i < j < ids.deep_view().len() implies ids.deep_view()[i]
                != ids.deep_view()[j] by {
            assert(ids@[i]@ != ids@[j]@);
        }
        assert(spec_id_snapshot(app@, ids.deep_view()));
        assert(body@ == json_of_ids(ids.deep_view()) && spec_id_snapshot(app@, ids.deep_view()));
    }
    Response {
        status: 200,
        location: None,
        content_type: None,
        headers: Vec::new(),
        body,
    }
}

fn header(name: &'static str, value: &'static str) -> (r: Header)
    ensures
        r.name@ == name@,
        r.value@ == value@,
{
    Header { name: String::from_str(name), value: String::from_str(value) }
}

/// The CORS preflight for the channel route: 204 with the advertised
/// header set.
pub fn options() -> (r: Response)
    ensures
        r.status == 204,
        r.body@.len() == 0,
        r.headers@.len() == 5,
        r.headers@[0].name@ == "Vary"@ && r.headers@[0].value@
            == "Origin, Access-Control-Request-Headers"@,
        r.headers@[1].name@ == "Access-Control-Allow-Origin"@ && r.headers@[1].value@ == "*"@,
        r.headers@[2].name@ == "Access-Control-Expose-Headers"@ && r.headers@[2].value@
            == "Location, Accept, Allow, Accept-POST"@,
        r.headers@[3].name@ == "Access-Control-Allow-Methods"@ && r.headers@[3].value@
            == "POST, GET, OPTIONS, PATCH, PUT"@,
        r.headers@[4].name@ == "Accept-Post"@ && r.headers@[4].value@ == "application/sdp"@,
{
    let mut headers: Vec<Header> = Vec::new();
    headers.push(header("Vary", "Origin, Access-Control-Request-Headers"));
    headers.push(header("Access-Control-Allow-Origin", "*"));
    headers.push(header("Access-Control-Expose-Headers", "Location, Accept, Allow, Accept-POST"));
    headers.push(header("Access-Control-Allow-Methods", "POST, GET, OPTIONS, PATCH, PUT"));
    headers.push(header("Accept-Post", "application/sdp"));
    Response {
        status: 204,
        location: None,
        content_type: None,
        headers,
        body: String::new(),
    }
}

} // verus!
