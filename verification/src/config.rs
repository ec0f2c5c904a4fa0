//! Configuration: the SRT role, the command-line arguments the bridge is
//! started with, and the stream-discoverer settings.

use vstd::prelude::*;

verus! {

/// The role of one end of an SRT link.
#[derive(Clone, Copy, PartialEq, Eq, Structural, Debug)]
pub enum SRTMode {
    Caller,
    Listener,
}

/// The opposite role: the re-broadcast output always uses the reverse of
/// the input role.
pub open spec fn spec_reverse(m: SRTMode) -> SRTMode {
    match m {
        SRTMode::Caller => SRTMode::Listener,
        SRTMode::Listener => SRTMode::Caller,
    }
}

/// The word naming the role inside an SRT URI.
pub open spec fn spec_mode_str(m: SRTMode) -> Seq<char> {
    match m {
        SRTMode::Caller => "caller"@,
        SRTMode::Listener => "listener"@,
    }
}

impl SRTMode {
    /// The word naming the role inside an SRT URI.
    pub fn to_str(&self) -> (r: &'static str)
        ensures
            r@ == spec_mode_str(*self),
    {
        match self {
            SRTMode::Caller => "caller",
            SRTMode::Listener => "listener",
        }
    }

    /// The opposite role.
    pub fn reverse(&self) -> (r: Self)
        ensures
            r == spec_reverse(*self),
    {
        match self {
            SRTMode::Caller => SRTMode::Listener,
            SRTMode::Listener => SRTMode::Caller,
        }
    }
}

/// The command-line arguments of the bridge.
pub struct Args {
    /// SRT source stream address (`ip:port`).
    pub input_address: String,
    /// The role this end takes towards the SRT source.
    pub srt_mode: SRTMode,
    /// Whether to probe the stream with the discoverer before connecting.
    pub run_discoverer: bool,
    /// How long the discoverer may probe, in seconds.
    pub discoverer_timeout_sec: u64,
    /// SRT re-broadcast output address (`ip:port`).
    pub output_address: String,
    /// The HTTP port the WHEP server listens on.
    pub port: u32,
}

impl Clone for Args {
    fn clone(&self) -> (r: Self)
        ensures
            r.input_address@ == self.input_address@,
            r.srt_mode == self.srt_mode,
            r.run_discoverer == self.run_discoverer,
            r.discoverer_timeout_sec == self.discoverer_timeout_sec,
            r.output_address@ == self.output_address@,
            r.port == self.port,
    {
        Args {
            input_address: self.input_address.clone(),
            srt_mode: self.srt_mode,
            run_discoverer: self.run_discoverer,
            discoverer_timeout_sec: self.discoverer_timeout_sec,
            output_address: self.output_address.clone(),
            port: self.port,
        }
    }
}

/// The stream-discoverer settings, as read from a configuration file.
#[derive(Clone, Copy, PartialEq, Eq, Structural, Debug)]
pub struct DiscoverConfig {
    /// Whether the discoverer runs before the graph connects.
    pub enable_discoverer: bool,
    /// How long it may probe, in seconds.
    pub discoverer_timeout_sec: u64,
}

} // verus!
