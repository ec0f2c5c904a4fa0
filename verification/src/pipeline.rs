//! The media-graph controller, modelled as a state machine.
//!
//! The graph itself lives outside the library; what is verified here is
//! everything the controller decides: which SRT URIs the graph is built
//! with, how demux pads are classified and which parse/encode branch each
//! media kind gets, which elements a viewer branch consists of and under
//! which names, when a viewer may attach, and how the per-viewer region
//! and the whole graph are torn down. The caller carries the returned
//! plans out on the running graph and feeds bus messages back in.

use vstd::prelude::*;
use vstd::string::*;

use crate::config::Args;
use crate::config::spec_mode_str;
use crate::config::spec_reverse;
use crate::errors::MyError;

verus! {

/// The decimal digit `d` as a character.
pub open spec fn spec_digit(d: int) -> char {
    if d == 0 {
        '0'
    } else if d == 1 {
        '1'
    } else if d == 2 {
        '2'
    } else if d == 3 {
        '3'
    } else if d == 4 {
        '4'
    } else if d == 5 {
        '5'
    } else if d == 6 {
        '6'
    } else if d == 7 {
        '7'
    } else if d == 8 {
        '8'
    } else {
        '9'
    }
}

/// The decimal rendering of `n`, without a sign and without leading
/// zeroes (a lone zero for 0).
pub open spec fn spec_dec(n: int) -> Seq<char>
    decreases n,
{
    if n < 10 {
        seq![spec_digit(n)]
    } else {
        spec_dec(n / 10).push(spec_digit(n % 10))
    }
}

/// Writes the decimal rendering of `n` onto the end of `out`.
fn push_dec(n: u32, out: &mut String)
    ensures
        final(out)@ == old(out)@ + spec_dec(n as int),
    decreases n,
{
    if n >= 10 {
        push_dec(n / 10, out);
    }
    proof {
        reveal_strlit("0");
        reveal_strlit("1");
        reveal_strlit("2");
        reveal_strlit("3");
        reveal_strlit("4");
        reveal_strlit("5");
        reveal_strlit("6");
        reveal_strlit("7");
        reveal_strlit("8");
        reveal_strlit("9");
    }
    let d = n % 10;
    let ds: &'static str = if d == 0 {
        "0"
    } else if d == 1 {
        "1"
    } else if d == 2 {
        "2"
    } else if d == 3 {
        "3"
    } else if d == 4 {
        "4"
    } else if d == 5 {
        "5"
    } else if d == 6 {
        "6"
    } else if d == 7 {
        "7"
    } else if d == 8 {
        "8"
    } else {
        "9"
    };
    assert(ds@ =~= seq![spec_digit(d as int)]);
    out.append(ds);
    proof {
        assert(out@ =~= old(out)@ + spec_dec(n as int));
    }
}

/// The decimal rendering of `n`.
pub fn u32_dec(n: u32) -> (r: String)
    ensures
        r@ == spec_dec(n as int),
{
    let mut s = String::new();
    push_dec(n, &mut s);
    proof {
        assert(s@ =~= spec_dec(n as int));
    }
    s
}

/// The SRT URI for `addr` in role `mode`.
pub open spec fn spec_srt_uri(addr: Seq<char>, mode: crate::config::SRTMode) -> Seq<char> {
    "srt://"@ + addr + "?mode="@ + spec_mode_str(mode)
}

/// The name of the queue feeding viewer `id` with video.
pub open spec fn spec_video_queue_name(id: Seq<char>) -> Seq<char> {
    "video-queue-"@ + id
}

/// The name of the queue feeding viewer `id` with audio.
pub open spec fn spec_audio_queue_name(id: Seq<char>) -> Seq<char> {
    "audio-queue-"@ + id
}

/// The name of viewer `id`'s WHIP sink element.
pub open spec fn spec_whip_sink_name(id: Seq<char>) -> Seq<char> {
    "whip-sink-"@ + id
}

/// The WHIP endpoint viewer `id`'s sink posts its offer to: the local
/// HTTP server, under the connection's own path.
pub open spec fn spec_whip_endpoint(port: int, id: Seq<char>) -> Seq<char> {
    "http://localhost:"@ + spec_dec(port) + "/whip_sink/"@ + id
}

fn prefixed(prefix: &'static str, id: &String) -> (r: String)
    ensures
        r@ == prefix@ + id@,
{
    let mut s = String::from_str(prefix);
    s.append(id.as_str());
    s
}

/// The name of the queue feeding viewer `id` with video.
pub fn video_queue_name(id: &String) -> (r: String)
    ensures
        r@ == spec_video_queue_name(id@),
{
    prefixed("video-queue-", id)
}

/// The name of the queue feeding viewer `id` with audio.
pub fn audio_queue_name(id: &String) -> (r: String)
    ensures
        r@ == spec_audio_queue_name(id@),
{
    prefixed("audio-queue-", id)
}

/// The name of viewer `id`'s WHIP sink element.
pub fn whip_sink_name(id: &String) -> (r: String)
    ensures
        r@ == spec_whip_sink_name(id@),
{
    prefixed("whip-sink-", id)
}

/// The WHIP endpoint for viewer `id` on the server at `port`.
pub fn whip_endpoint(port: u32, id: &String) -> (r: String)
    ensures
        r@ == spec_whip_endpoint(port as int, id@),
{
    let mut s = String::from_str("http://localhost:");
    push_dec(port, &mut s);
    s.append("/whip_sink/");
    s.append(id.as_str());
    proof {
        assert(s@ =~= spec_whip_endpoint(port as int, id@));
    }
    s
}

/// The SRT URI the graph's source reads from.
pub fn input_uri(args: &Args) -> (r: String)
    ensures
        r@ == spec_srt_uri(args.input_address@, args.srt_mode),
{
    let mut s = String::from_str("srt://");
    s.append(args.input_address.as_str());
    s.append("?mode=");
    s.append(args.srt_mode.to_str());
    proof {
        assert(s@ =~= spec_srt_uri(args.input_address@, args.srt_mode));
    }
    s
}

/// The SRT URI the re-broadcast sink writes to, in the reversed role.
pub fn output_uri(args: &Args) -> (r: String)
    ensures
        r@ == spec_srt_uri(args.output_address@, spec_reverse(args.srt_mode)),
{
    let mut s = String::from_str("srt://");
    s.append(args.output_address.as_str());
    s.append("?mode=");
    s.append(args.srt_mode.reverse().to_str());
    proof {
        assert(s@ =~= spec_srt_uri(args.output_address@, spec_reverse(args.srt_mode)));
    }
    s
}

/// What a freshly announced demux pad carries.
#[derive(Clone, Copy, PartialEq, Eq, Structural, Debug)]
pub enum PadMedia {
    Audio,
    Video,
    Other,
}

/// How a pad's media type is classified when it is announced: by its
/// `audio/` or `video/` prefix; anything else is ignored.
pub open spec fn spec_pad_media(s: Seq<char>) -> PadMedia {
    if crate::sdp::starts_with(s, "audio/"@) {
        PadMedia::Audio
    } else if crate::sdp::starts_with(s, "video/"@) {
        PadMedia::Video
    } else {
        PadMedia::Other
    }
}

/// The parse/encode branch a media type gets once the demux has announced
/// all pads.
#[derive(Clone, Copy, PartialEq, Eq, Structural, Debug)]
pub enum BranchKind {
    VideoH264,
    VideoH265,
    Audio,
    Unsupported,
}

/// How a pad's media type picks its parse/encode branch: H.264 and H.265
/// video get a parser, anything `audio` is re-encoded to Opus, and any
/// other media type is unsupported.
pub open spec fn spec_branch_kind(s: Seq<char>) -> BranchKind {
    if crate::sdp::starts_with(s, "video/x-h264"@) {
        BranchKind::VideoH264
    } else if crate::sdp::starts_with(s, "video/x-h265"@) {
        BranchKind::VideoH265
    } else if crate::sdp::starts_with(s, "audio"@) {
        BranchKind::Audio
    } else {
        BranchKind::Unsupported
    }
}

/// What a queue in the graph serves: the rendezvous queues must never
/// drop data, while the re-broadcast queue may, so a slow outside
/// consumer cannot back-pressure the ingress.
#[derive(Clone, Copy, PartialEq, Eq, Structural, Debug)]
pub enum QueuePurpose {
    Rendezvous,
    ReBroadcast,
}

/// The leakiness policy a queue is built with.
pub open spec fn spec_leak_policy(p: QueuePurpose) -> Seq<char> {
    match p {
        QueuePurpose::Rendezvous => "no"@,
        QueuePurpose::ReBroadcast => "downstream"@,
    }
}

/// The leakiness policy a queue is built with; every queue of the core
/// also runs unbounded in buffers and time.
pub fn leak_policy(p: &QueuePurpose) -> (r: &'static str)
    ensures
        r@ == spec_leak_policy(*p),
{
    match p {
        QueuePurpose::Rendezvous => "no",
        QueuePurpose::ReBroadcast => "downstream",
    }
}

/// A bus message of the running graph, as far as the supervisor cares.
#[derive(Clone, Copy, PartialEq, Eq, Structural, Debug)]
pub enum BusMessage {
    Eos,
    Error,
    Other,
}

/// Whether a bus message ends the run: the run returns on end-of-stream
/// and on error, and keeps going on everything else.
pub fn run_step(msg: &BusMessage) -> (stop: bool)
    ensures
        stop == (msg is Eos || msg is Error),
{
    match msg {
        BusMessage::Eos => true,
        BusMessage::Error => true,
        BusMessage::Other => false,
    }
}

/// Everything the controller decides at `init` time: the two SRT URIs and
/// whether (and how long) the discoverer probes first.
#[derive(Debug)]
pub struct InitPlan {
    pub input_uri: String,
    pub output_uri: String,
    pub run_discoverer: bool,
    pub discoverer_timeout_sec: u64,
}

/// What has to be built and linked for one new viewer: the WHIP sink with
/// its endpoint, and one queue per media kind the graph carries.
#[derive(Debug)]
pub struct AddPlan {
    pub whip_sink_name: String,
    pub endpoint: String,
    pub video_queue_name: Option<String>,
    pub audio_queue_name: Option<String>,
}

/// Which elements to look up and tear down for one leaving viewer. A name
/// that the graph no longer holds is skipped there.
#[derive(Debug)]
pub struct RemovePlan {
    pub video_queue_name: String,
    pub audio_queue_name: String,
    pub whip_sink_name: String,
}

/// The abstract state of the controller.
#[verifier::ext_equal]
pub ghost struct PipelineView {
    /// A graph exists (between `init` and `clean_up`).
    pub initialized: bool,
    /// The demux announced a video pad.
    pub has_video: bool,
    /// The demux announced an audio pad.
    pub has_audio: bool,
    /// The ids whose viewer branches hang off the fan-out tees.
    pub viewers: Seq<Seq<char>>,
    /// End-of-stream was posted onto the bus.
    pub eos_requested: bool,
    /// The run was told to return without waiting for end-of-stream.
    pub quit_requested: bool,
    /// The HTTP port baked into each viewer's WHIP endpoint.
    pub port: int,
}

/// The state right after `init`: a graph with no announced pads, no
/// viewers and no shutdown request.
pub open spec fn spec_fresh_graph(port: int) -> PipelineView {
    PipelineView {
        initialized: true,
        has_video: false,
        has_audio: false,
        viewers: Seq::empty(),
        eos_requested: false,
        quit_requested: false,
        port,
    }
}

/// The state right after `clean_up`: no graph at all.
pub open spec fn spec_cleaned(v: PipelineView) -> PipelineView {
    PipelineView {
        initialized: false,
        has_video: false,
        has_audio: false,
        viewers: Seq::empty(),
        eos_requested: false,
        quit_requested: false,
        port: v.port,
    }
}

/// A viewer may attach only once the demux announced a media pad.
pub open spec fn spec_pipeline_ready(v: PipelineView) -> bool {
    v.initialized && (v.has_video || v.has_audio)
}

/// Some entry of `vs` is the id `k`.
pub open spec fn spec_has_viewer(vs: Seq<Seq<char>>, k: Seq<char>) -> bool {
    exists|i: int| 0 <= i < vs.len() && vs[i] == k
}

spec fn distinct_viewers(vs: Seq<String>) -> bool {
    forall|i: int, j: int| 0 <= i < j < vs.len() ==> vs[i]@ != vs[j]@
}

struct MediaGraph {
    has_video: bool,
    has_audio: bool,
    viewers: Vec<String>,
    eos_requested: bool,
    quit_requested: bool,
}

/// The media-graph controller.
pub struct PipelineModel {
    graph: Option<MediaGraph>,
    port: u32,
}

impl View for PipelineModel {
    type V = PipelineView;

    closed spec fn view(&self) -> PipelineView {
        match self.graph {
            Some(g) => PipelineView {
                initialized: true,
                has_video: g.has_video,
                has_audio: g.has_audio,
                viewers: g.viewers.deep_view(),
                eos_requested: g.eos_requested,
                quit_requested: g.quit_requested,
                port: self.port as int,
            },
            None => PipelineView {
                initialized: false,
                has_video: false,
                has_audio: false,
                viewers: Seq::empty(),
                eos_requested: false,
                quit_requested: false,
                port: self.port as int,
            },
        }
    }
}

impl PipelineModel {
    /// No two viewer branches share an id.
    pub closed spec fn wf(&self) -> bool {
        match self.graph {
            Some(g) => distinct_viewers(g.viewers@),
            None => true,
        }
    }

    /// A controller without a graph yet.
    pub fn new(args: &Args) -> (r: PipelineModel)
        ensures
            r.wf(),
            r@ == spec_cleaned(spec_fresh_graph(args.port as int)),
    {
        PipelineModel { graph: None, port: args.port }
    }

    /// Builds the graph: decides the SRT URIs and the discoverer run, and
    /// leaves a fresh graph in place of whatever was there.
    pub fn init(&mut self, args: &Args) -> (plan: InitPlan)
        ensures
            final(self).wf(),
            final(self)@ == spec_fresh_graph(args.port as int),
            plan.input_uri@ == spec_srt_uri(args.input_address@, args.srt_mode),
            plan.output_uri@ == spec_srt_uri(args.output_address@, spec_reverse(args.srt_mode)),
            plan.run_discoverer == (args.srt_mode is Caller && args.run_discoverer),
            plan.discoverer_timeout_sec == args.discoverer_timeout_sec,
    {
        self.port = args.port;
        self.graph = Some(
            MediaGraph {
                has_video: false,
                has_audio: false,
                viewers: Vec::new(),
                eos_requested: false,
                quit_requested: false,
            },
        );
        let run_disc = match args.srt_mode {
            crate::config::SRTMode::Caller => args.run_discoverer,
            crate::config::SRTMode::Listener => false,
        };
        proof {
            assert(self@ =~= spec_fresh_graph(args.port as int));
        }
        InitPlan {
            input_uri: input_uri(args),
            output_uri: output_uri(args),
            run_discoverer: run_disc,
            discoverer_timeout_sec: args.discoverer_timeout_sec,
        }
    }

    /// Whether the SRT input stream is available: the demux announced at
    /// least one audio or video pad.
    pub fn ready(&self) -> (r: bool)
        ensures
            r == spec_pipeline_ready(self@),
    {
        match &self.graph {
            Some(g) => g.has_video || g.has_audio,
            None => false,
        }
    }

    /// Classifies a freshly announced demux pad and records the media kind
    /// it brings; an unknown kind is ignored, and so is a pad announced
    /// while no graph exists.
    pub fn pad_added(&mut self, media_type: &str) -> (r: PadMedia)
        ensures
            r == spec_pad_media(media_type@),
            old(self).wf() ==> final(self).wf(),
            old(self)@.initialized ==> final(self)@ == (PipelineView {
                has_video: old(self)@.has_video || spec_pad_media(media_type@) is Video,
                has_audio: old(self)@.has_audio || spec_pad_media(media_type@) is Audio,
                ..old(self)@
            }),
            !old(self)@.initialized ==> final(self)@ == old(self)@,
    {
        proof {
            reveal_strlit("audio/");
            reveal_strlit("video/");
        }
        let kind: PadMedia = if media_type.unicode_len() >= 6 && matches_prefix(
            media_type,
            "audio/",
        ) {
            PadMedia::Audio
        } else if media_type.unicode_len() >= 6 && matches_prefix(media_type, "video/") {
            PadMedia::Video
        } else {
            PadMedia::Other
        };
        if let Some(g) = &mut self.graph {
            match kind {
                PadMedia::Audio => g.has_audio = true,
                PadMedia::Video => g.has_video = true,
                PadMedia::Other => (),
            }
        }
        kind
    }

    /// Attaches a viewer branch: refused until the graph is ready, and for
    /// an id whose branch already exists; otherwise the viewer is recorded
    /// and the plan names the WHIP sink, its endpoint, and one queue per
    /// media kind the graph carries.
    pub fn add_connection(&mut self, id: String) -> (r: Result<AddPlan, MyError>)
        requires
            old(self).wf(),
        ensures
            final(self).wf(),
            !spec_pipeline_ready(old(self)@) ==> (r matches Err(MyError::FailedOperation(m))
                && m@ == "Pipeline not ready for connection"@ && final(self)@ == old(self)@),
            spec_pipeline_ready(old(self)@) && spec_has_viewer(old(self)@.viewers, id@) ==> (
            r matches Err(MyError::RepeatedConnection(e)) && e@ == id@ && final(self)@ == old(
                self,
            )@),
            spec_pipeline_ready(old(self)@) && !spec_has_viewer(old(self)@.viewers, id@) ==> (
            r matches Ok(p) && final(self)@ == (PipelineView {
                viewers: old(self)@.viewers.push(id@),
                ..old(self)@
            }) && p.whip_sink_name@ == spec_whip_sink_name(id@) && p.endpoint@
                == spec_whip_endpoint(old(self)@.port, id@) && (old(self)@.has_video ==> (
            p.video_queue_name matches Some(q) && q@ == spec_video_queue_name(id@))) && (!old(
                self,
            )@.has_video ==> p.video_queue_name is None) && (old(self)@.has_audio ==> (
            p.audio_queue_name matches Some(q) && q@ == spec_audio_queue_name(id@))) && (!old(
                self,
            )@.has_audio ==> p.audio_queue_name is None)),
    {
        if !self.ready() {
            return Err(
                MyError::FailedOperation(String::from_str("Pipeline not ready for connection")),
            );
        }
        if self.has_viewer(&id) {
            return Err(MyError::RepeatedConnection(id));
        }
        let (has_video, has_audio) = match &self.graph {
            Some(g) => (g.has_video, g.has_audio),
            None => {
                proof {
                    assert(false);
                }
                (false, false)
            },
        };
        let plan = AddPlan {
            whip_sink_name: prefixed("whip-sink-", &id),
            endpoint: whip_endpoint(self.port, &id),
            video_queue_name: if has_video {
                Some(prefixed("video-queue-", &id))
            } else {
                None
            },
            audio_queue_name: if has_audio {
                Some(prefixed("audio-queue-", &id))
            } else {
                None
            },
        };
        let ghost idv = id@;
        match &mut self.graph {
            Some(g) => {
                g.viewers.push(id);
            },
            None => {
                proof {
                    assert(false);
                }
            },
        }
        proof {
            let ov = old(self)@.viewers;
            let nv = self@.viewers;
            assert(nv =~= ov.push(idv));
            assert(self@ =~= (PipelineView { viewers: ov.push(idv), ..old(self)@ }));
            assert forall|a: int, b: int| 0 <= a < b < nv.len() implies nv[a] != nv[b] by {
                if b == nv.len() - 1 {
                    assert(!spec_has_viewer(ov, idv));
                    assert(ov[a] != idv);
                }
            }
            lemma_distinct_by_view(self);
        }
        Ok(plan)
    }

    /// Whether a viewer branch for `id` hangs off the graph.
    fn has_viewer(&self, id: &String) -> (r: bool)
        ensures
            r == spec_has_viewer(self@.viewers, id@),
    {
        match &self.graph {
            Some(g) => {
                proof {
                    assert(self.graph is Some);
                    assert(self@.viewers =~= g.viewers.deep_view());
                }
                let n = g.viewers.len();
                let mut i: usize = 0;
                while i < n
                    invariant
                        n == g.viewers@.len(),
                        0 <= i <= n,
                        self@.viewers =~= g.viewers.deep_view(),
                        forall|k: int| 0 <= k < i ==> g.viewers@[k]@ != id@,
                    decreases n - i,
                {
                    if g.viewers[i].eq(id) {
                        proof {
                            assert(self@.viewers[i as int] == g.viewers@[i as int]@);
                        }
                        return true;
                    }
                    i += 1;
                }
                proof {
                    assert forall|k: int|
                        0 <= k < self@.viewers.len() implies self@.viewers[k] != id@ by {
                        assert(self@.viewers[k] == g.viewers@[k]@);
                    }
                }
                false
            },
            None => false,
        }
    }

    /// Detaches a viewer branch: the id is forgotten and the plan names
    /// the two queues and the WHIP sink to tear down. An id without a
    /// branch leaves the graph as it is; tearing down then finds none of
    /// the named elements and skips them.
    pub fn remove_connection(&mut self, id: String) -> (r: RemovePlan)
        requires
            old(self).wf(),
            old(self)@.initialized,
        ensures
            final(self).wf(),
            r.video_queue_name@ == spec_video_queue_name(id@),
            r.audio_queue_name@ == spec_audio_queue_name(id@),
            r.whip_sink_name@ == spec_whip_sink_name(id@),
            final(self)@.initialized == old(self)@.initialized,
            final(self)@.has_video == old(self)@.has_video,
            final(self)@.has_audio == old(self)@.has_audio,
            final(self)@.eos_requested == old(self)@.eos_requested,
            final(self)@.quit_requested == old(self)@.quit_requested,
            final(self)@.port == old(self)@.port,
            forall|k: Seq<char>|
                spec_has_viewer(final(self)@.viewers, k) <==> (spec_has_viewer(
                    old(self)@.viewers,
                    k,
                ) && k != id@),
            !spec_has_viewer(old(self)@.viewers, id@) ==> final(self)@ == old(self)@,
    {
        let found = self.viewer_index(&id);
        match found {
            Some(f) => {
                let ghost idv = id@;
                match &mut self.graph {
                    Some(g) => {
                        proof {
                            lemma_distinct_viewers_remove(g.viewers@, f as int);
                        }
                        g.viewers.remove(f);
                    },
                    None => {
                        proof {
                            assert(false);
                        }
                    },
                }
                proof {
                    lemma_distinct_by_view(self);
                    let ov = old(self)@.viewers;
                    let nv = self@.viewers;
                    assert(nv =~= ov.remove(f as int));
                    assert forall|k: Seq<char>|
                        spec_has_viewer(nv, k) implies (spec_has_viewer(ov, k) && k != idv) by {
                        let j = choose|j: int| 0 <= j < nv.len() && nv[j] == k;
                        let j0: int = if j < f {
                            j
                        } else {
                            j + 1
                        };
                        assert(ov[j0] == k);
                        if k == idv {
                            assert(ov[j0] == ov[f as int]);
                        }
                    }
                    assert forall|k: Seq<char>|
                        (spec_has_viewer(ov, k) && k != idv) implies spec_has_viewer(nv, k) by {
                        let j = choose|j: int| 0 <= j < ov.len() && ov[j] == k;
                        if j < f {
                            assert(nv[j] == k);
                        } else {
                            assert(j != f);
                            assert(nv[j - 1] == k);
                        }
                    }
                }
            },
            None => {
                proof {
                    assert(!spec_has_viewer(old(self)@.viewers, id@));
                }
            },
        }
        RemovePlan {
            video_queue_name: prefixed("video-queue-", &id),
            audio_queue_name: prefixed("audio-queue-", &id),
            whip_sink_name: prefixed("whip-sink-", &id),
        }
    }

    /// The position of viewer `id`'s branch record.
    fn viewer_index(&self, id: &String) -> (r: Option<usize>)
        requires
            self.wf(),
        ensures
            r matches Some(f) ==> f < self@.viewers.len() && self@.viewers[f as int] == id@,
            r is None ==> !spec_has_viewer(self@.viewers, id@),
    {
        match &self.graph {
            Some(g) => {
                proof {
                    assert(self.graph is Some);
                    assert(self@.viewers =~= g.viewers.deep_view());
                }
                let n = g.viewers.len();
                let mut i: usize = 0;
                while i < n
                    invariant
                        n == g.viewers@.len(),
                        0 <= i <= n,
                        self@.viewers =~= g.viewers.deep_view(),
                        forall|k: int| 0 <= k < i ==> g.viewers@[k]@ != id@,
                    decreases n - i,
                {
                    if g.viewers[i].eq(id) {
                        proof {
                            assert(self@.viewers[i as int] == g.viewers@[i as int]@);
                        }
                        return Some(i);
                    }
                    i += 1;
                }
                proof {
                    assert forall|k: int|
                        0 <= k < self@.viewers.len() implies self@.viewers[k] != id@ by {
                        assert(self@.viewers[k] == g.viewers@[k]@);
                    }
                }
                None
            },
            None => None,
        }
    }

    /// Posts end-of-stream: the graph drains and the run returns once the
    /// marker has travelled through. Without a graph nothing happens.
    pub fn end(&mut self)
        ensures
            old(self).wf() ==> final(self).wf(),
            old(self)@.initialized ==> final(self)@ == (PipelineView {
                eos_requested: true,
                ..old(self)@
            }),
            !old(self)@.initialized ==> final(self)@ == old(self)@,
    {
        if let Some(g) = &mut self.graph {
            g.eos_requested = true;
        }
    }

    /// Tells the run to return without waiting for end-of-stream, so the
    /// supervisor can rebuild the graph. Without a graph nothing happens.
    pub fn quit(&mut self)
        ensures
            old(self).wf() ==> final(self).wf(),
            old(self)@.initialized ==> final(self)@ == (PipelineView {
                quit_requested: true,
                ..old(self)@
            }),
            !old(self)@.initialized ==> final(self)@ == old(self)@,
    {
        if let Some(g) = &mut self.graph {
            g.quit_requested = true;
        }
    }

    /// Drops the graph altogether; the next `init` starts from nothing.
    pub fn clean_up(&mut self)
        ensures
            final(self).wf(),
            final(self)@ == spec_cleaned(old(self)@),
    {
        self.graph = None;
        proof {
            assert(self@ =~= spec_cleaned(old(self)@));
        }
    }

    /// The HTTP port baked into each viewer's WHIP endpoint.
    pub fn port(&self) -> (r: u32)
        ensures
            r as int == self@.port,
    {
        self.port
    }

    /// Whether a graph exists (between `init` and `clean_up`).
    pub fn initialized(&self) -> (r: bool)
        ensures
            r == self@.initialized,
    {
        match &self.graph {
            Some(_) => true,
            None => false,
        }
    }

    /// How many viewer branches hang off the graph.
    pub fn viewer_count(&self) -> (r: usize)
        ensures
            r == self@.viewers.len(),
    {
        match &self.graph {
            Some(g) => g.viewers.len(),
            None => 0,
        }
    }
}

/// Distinctness of the ids at view level gives distinctness of the
/// backing strings.
proof fn lemma_distinct_by_view(p: &PipelineModel)
    requires
        forall|a: int, b: int|
            0 <= a < b < p@.viewers.len() ==> p@.viewers[a] != p@.viewers[b],
    ensures
        p.wf(),
{
    match p.graph {
        Some(g) => {
            assert forall|a: int, b: int|
                0 <= a < b < g.viewers@.len() implies g.viewers@[a]@ != g.viewers@[b]@ by {
                assert(p@.viewers[a] == g.viewers@[a]@);
                assert(p@.viewers[b] == g.viewers@[b]@);
            }
        },
        None => (),
    }
}

proof fn lemma_distinct_viewers_remove(vs: Seq<String>, i: int)
    requires
        distinct_viewers(vs),
        0 <= i < vs.len(),
    ensures
        distinct_viewers(vs.remove(i)),
{
    assert forall|j: int, k: int|
        0 <= j < k < vs.remove(i).len() implies vs.remove(i)[j]@ != vs.remove(i)[k]@ by {
        let j0: int = if j < i {
            j
        } else {
            j + 1
        };
        let k0: int = if k < i {
            k
        } else {
            k + 1
        };
        assert(vs.remove(i)[j] == vs[j0]);
        assert(vs.remove(i)[k] == vs[k0]);
    }
}

/// The needle `pat` stands at the very start of `s`.
fn matches_prefix(s: &str, pat: &str) -> (r: bool)
    requires
        pat@.len() <= s@.len(),
    ensures
        r == crate::sdp::starts_with(s@, pat@),
{
    let n = pat.unicode_len();
    let mut j: usize = 0;
    while j < n
        invariant
            n == pat@.len(),
            0 <= j <= n,
            n <= s@.len(),
            forall|k: int| 0 <= k < j ==> s@[k] == pat@[k],
        decreases n - j,
    {
        if s.get_char(j) != pat.get_char(j) {
            return false;
        }
        j += 1;
    }
    assert(s@.subrange(0, n as int) =~= pat@);
    true
}

/// The media kind a demux pad announces, by its caps name.
pub fn classify_pad(media_type: &str) -> (r: PadMedia)
    ensures
        r == spec_pad_media(media_type@),
{
    proof {
        reveal_strlit("audio/");
        reveal_strlit("video/");
    }
    if media_type.unicode_len() >= 6 && matches_prefix(media_type, "audio/") {
        PadMedia::Audio
    } else if media_type.unicode_len() >= 6 && matches_prefix(media_type, "video/") {
        PadMedia::Video
    } else {
        PadMedia::Other
    }
}

/// The parse/encode branch a media type gets.
pub fn classify_branch(media_type: &str) -> (r: BranchKind)
    ensures
        r == spec_branch_kind(media_type@),
{
    proof {
        reveal_strlit("video/x-h264");
        reveal_strlit("video/x-h265");
        reveal_strlit("audio");
    }
    if media_type.unicode_len() >= 12 && matches_prefix(media_type, "video/x-h264") {
        BranchKind::VideoH264
    } else if media_type.unicode_len() >= 12 && matches_prefix(media_type, "video/x-h265") {
        BranchKind::VideoH265
    } else if media_type.unicode_len() >= 5 && matches_prefix(media_type, "audio") {
        BranchKind::Audio
    } else {
        BranchKind::Unsupported
    }
}

/// The chain of elements to build behind the static queue of a media
/// kind, ending in the fan-out tee and its keep-alive sink; an
/// unsupported kind is refused as the graph cannot link it.
pub fn branch_elements(media_type: &str) -> (r: Result<Vec<String>, MyError>)
    ensures
        spec_branch_kind(media_type@) is VideoH264 ==> (r matches Ok(v) && v.deep_view()
            =~= seq!["h264parse"@, "output_tee_video"@, "fakesink"@]),
        spec_branch_kind(media_type@) is VideoH265 ==> (r matches Ok(v) && v.deep_view()
            =~= seq!["h265parse"@, "output_tee_video"@, "fakesink"@]),
        spec_branch_kind(media_type@) is Audio ==> (r matches Ok(v) && v.deep_view()
            =~= seq![
            "aacparse"@,
            "avdec_aac"@,
            "audioconvert"@,
            "audioresample"@,
            "opusenc"@,
            "output_tee_audio"@,
            "fakesink"@,
        ]),
        spec_branch_kind(media_type@) is Unsupported ==> r is Err,
{
    match classify_branch(media_type) {
        BranchKind::VideoH264 => Ok(
            vec![
                String::from_str("h264parse"),
                String::from_str("output_tee_video"),
                String::from_str("fakesink"),
            ],
        ),
        BranchKind::VideoH265 => Ok(
            vec![
                String::from_str("h265parse"),
                String::from_str("output_tee_video"),
                String::from_str("fakesink"),
            ],
        ),
        BranchKind::Audio => Ok(
            vec![
                String::from_str("aacparse"),
                String::from_str("avdec_aac"),
                String::from_str("audioconvert"),
                String::from_str("audioresample"),
                String::from_str("opusenc"),
                String::from_str("output_tee_audio"),
                String::from_str("fakesink"),
            ],
        ),
        BranchKind::Unsupported => Err(
            MyError::FailedOperation(String::from_str("Unknown media type")),
        ),
    }
}

/// Law: a cleaned controller accepts `init` unconditionally (`init` has no
/// precondition), and the graph it leaves is fresh: initialised, with no
/// announced pad, no viewer and no shutdown request, so one cycle of the
/// supervisor always restarts from the same state.
pub proof fn lemma_restartable(v: PipelineView, port: int)
    ensures
        !spec_cleaned(v).initialized,
        spec_fresh_graph(port).initialized,
        !spec_pipeline_ready(spec_fresh_graph(port)),
        spec_fresh_graph(port).viewers.len() == 0,
        !spec_fresh_graph(port).eos_requested,
        !spec_fresh_graph(port).quit_requested,
{
}

} // verus!
