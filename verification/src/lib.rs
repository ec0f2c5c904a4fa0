//! An SRT-to-WebRTC bridge: the session-brokerage and pipeline-lifecycle
//! core that matches WHEP viewers with the media graph's internal WHIP
//! sinks, validates and rewrites the SDP payloads they exchange, and keeps
//! the media graph restartable across stream resets.

pub mod config;
pub mod errors;
pub mod handlers;
pub mod pipeline;
pub mod registry;
pub mod sdp;
