//! Core logic of a desktop shell that drives a long-lived worker process over
//! its standard input/output streams.
//!
//! The centrepiece is the subprocess RPC bridge: a wire codec that frames
//! outbound requests and classifies inbound lines, a correlator that matches
//! responses to pending requests by id, a demultiplexer that routes every
//! inbound line to exactly one of four destinations, and a dispatcher that
//! races outbound traffic against shutdown.  Around it sit the permission
//! manager, the licensing rules and the scoped file-context reader.
//!
//! All I/O — process spawning, channels, the file system, the windowing
//! shell — lives outside this crate; the functions here are pure decisions
//! over plain values, with the few unavoidable outside calls (JSON parsing
//! and rendering, fresh identifiers, the clock, case folding) behind small
//! trusted wrappers.

pub mod bridge;
pub mod codec;
pub mod context;
pub mod correlator;
pub mod demux;
pub mod dispatch;
pub mod json;
pub mod licensing;
pub mod ollama;
pub mod permissions;
pub mod text;
pub mod windows;
