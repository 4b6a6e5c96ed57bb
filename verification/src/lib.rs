//! Decoder for packet captures carrying the IEX market-data feed.
//!
//! The input is a pcapng capture container; each enhanced-frame block holds
//! one network frame whose payload, after a fixed link/network/transport
//! envelope, is an IEX transport segment: a 40-byte header followed by a
//! bounded stream of length-prefixed market-data messages.  Decoded trade
//! and quote messages are demultiplexed into per-symbol byte sinks.

use vstd::prelude::*;

pub mod wire;
pub mod catalog;
pub mod structs;
pub mod pcap_parser;
pub mod iex;
pub mod demux;
pub mod capture;

verus! {

/// A fatal decoding error: the input bytes contradict the format's own
/// declared lengths or invariants.
#[derive(Clone, Copy, Debug, PartialEq, Eq, Structural)]
pub enum FeedError {
    /// Malformed container framing, a frame shorter than the fixed envelope,
    /// a truncated transport header, or a known message tag whose declared
    /// length disagrees with its fixed size.
    FormatViolation,
}

} // verus!
