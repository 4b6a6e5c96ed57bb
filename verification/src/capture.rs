//! Capture-level accounting: how many messages one pass over a whole
//! container decodes.
//!
//! The per-layer step functions ([`spec_pcap_next`] for blocks,
//! `spec_msg_next` for records) say what each single pull returns.  This
//! module sums them up: [`spec_capture_yield`] is the total number of typed
//! messages a full walk of the container decodes, frame by frame, and the
//! lemmas tie that total to the step functions the exec decoders are proved
//! to follow, and bound it by the sum of the transport headers' declared
//! message counts.

use vstd::prelude::*;
use crate::wire::{le16_at, le32_at};
use crate::pcap_parser::{spec_pcap_next, lemma_pcap_step_bounds, PcapData, PcapParser, PcapStep};
use crate::iex::{
    spec_stream_count, spec_stream_clean, lemma_stream_count_bounded, lemma_stream_count_bytes,
    lemma_stream_clean_step, lemma_stream_count_step, lemma_stream_bounded, IexGenerator,
};
use crate::FeedError;

verus! {

/// The frame bytes of the enhanced-frame block that starts at `at` of `s`:
/// the `captured_packet_length` bytes behind the block's two headers.
pub open spec fn spec_frame_bytes(s: Seq<u8>, at: int) -> Seq<u8> {
    s.subrange(at + 28, at + 28 + le32_at(s, at + 20) as int)
}

/// How many messages one frame's payload yields: none if the frame cannot
/// hold the fixed envelope and transport header, else the yield count of
/// its message stream, bounded by the header's declared count.
pub open spec fn spec_frame_yield(frame: Seq<u8>) -> int {
    if frame.len() < 82 {
        0
    } else {
        spec_stream_count(frame, 82, le16_at(frame, 56) as int)
    }
}

/// The message count one frame's transport header declares; none if the
/// frame cannot hold the fixed envelope and transport header.
pub open spec fn spec_frame_declared(frame: Seq<u8>) -> int {
    if frame.len() < 82 {
        0
    } else {
        le16_at(frame, 56) as int
    }
}

/// How many messages a full walk of the container from `off` decodes: the
/// sum, over the enhanced-frame blocks the walk reaches, of each frame's
/// yield count.  A walk that ends, cleanly or on a violation, adds nothing
/// further.
pub open spec fn spec_capture_yield(s: Seq<u8>, off: int) -> int
    decreases s.len() - off,
{
    if off + 8 > s.len() {
        0
    } else {
        let block_type = le32_at(s, off);
        let total = le32_at(s, off + 4) as int;
        if block_type == 0x00000006 {
            if off + 28 > s.len() {
                0
            } else {
                let cap = le32_at(s, off + 20) as int;
                let orig = le32_at(s, off + 24) as int;
                if cap != orig {
                    0
                } else if off + 28 + cap > s.len() {
                    0
                } else if total < 32 + cap {
                    0
                } else if off + total > s.len() {
                    0
                } else {
                    spec_frame_yield(spec_frame_bytes(s, off)) + spec_capture_yield(s, off + total)
                }
            }
        } else {
            if total < 8 {
                0
            } else if off + total > s.len() {
                0
            } else {
                spec_capture_yield(s, off + total)
            }
        }
    }
}

/// The sum of the declared message counts over the enhanced-frame blocks
/// that a full walk of the container from `off` reaches.
pub open spec fn spec_capture_declared(s: Seq<u8>, off: int) -> int
    decreases s.len() - off,
{
    if off + 8 > s.len() {
        0
    } else {
        let block_type = le32_at(s, off);
        let total = le32_at(s, off + 4) as int;
        if block_type == 0x00000006 {
            if off + 28 > s.len() {
                0
            } else {
                let cap = le32_at(s, off + 20) as int;
                let orig = le32_at(s, off + 24) as int;
                if cap != orig {
                    0
                } else if off + 28 + cap > s.len() {
                    0
                } else if total < 32 + cap {
                    0
                } else if off + total > s.len() {
                    0
                } else {
                    spec_frame_declared(spec_frame_bytes(s, off)) + spec_capture_declared(
                        s,
                        off + total,
                    )
                }
            }
        } else {
            if total < 8 {
                0
            } else if off + total > s.len() {
                0
            } else {
                spec_capture_declared(s, off + total)
            }
        }
    }
}

/// How many enhanced-frame blocks a full walk of the container from `off`
/// reaches.
pub open spec fn spec_capture_frames(s: Seq<u8>, off: int) -> int
    decreases s.len() - off,
{
    if off + 8 > s.len() {
        0
    } else {
        let block_type = le32_at(s, off);
        let total = le32_at(s, off + 4) as int;
        if block_type == 0x00000006 {
            if off + 28 > s.len() {
                0
            } else {
                let cap = le32_at(s, off + 20) as int;
                let orig = le32_at(s, off + 24) as int;
                if cap != orig {
                    0
                } else if off + 28 + cap > s.len() {
                    0
                } else if total < 32 + cap {
                    0
                } else if off + total > s.len() {
                    0
                } else {
                    1 + spec_capture_frames(s, off + total)
                }
            }
        } else {
            if total < 8 {
                0
            } else if off + total > s.len() {
                0
            } else {
                spec_capture_frames(s, off + total)
            }
        }
    }
}

/// Whether a full walk of the container from `off` runs to its end without
/// a fatal condition: no block violates the framing, every frame can hold
/// the fixed envelope and transport header, and no message stream hits a
/// length-mismatch violation.
pub open spec fn spec_capture_clean(s: Seq<u8>, off: int) -> bool
    decreases s.len() - off,
{
    if off + 8 > s.len() {
        true
    } else {
        let block_type = le32_at(s, off);
        let total = le32_at(s, off + 4) as int;
        if block_type == 0x00000006 {
            if off + 28 > s.len() {
                true
            } else {
                let cap = le32_at(s, off + 20) as int;
                let orig = le32_at(s, off + 24) as int;
                if cap != orig {
                    false
                } else if off + 28 + cap > s.len() {
                    true
                } else if total < 32 + cap {
                    false
                } else if off + total > s.len() {
                    true
                } else {
                    let frame = spec_frame_bytes(s, off);
                    &&& frame.len() >= 82
                    &&& spec_stream_clean(frame, 82, le16_at(frame, 56) as int)
                    &&& spec_capture_clean(s, off + total)
                }
            }
        } else {
            if total < 8 {
                false
            } else if off + total > s.len() {
                true
            } else {
                spec_capture_clean(s, off + total)
            }
        }
    }
}

/// The capture walk and the total agree: pulling one enhanced-frame block
/// leaves a container of exactly that frame's yield fewer messages, and a
/// walk that ends, cleanly or on a violation, decodes nothing further.  With
/// the step contracts of the two decoders, a driver that pulls every block
/// and every message therefore decodes exactly `spec_capture_yield` messages
/// in all.
pub proof fn lemma_capture_yield_step(s: Seq<u8>, off: int)
    ensures
        match spec_pcap_next(s, off) {
            PcapStep::End => spec_capture_yield(s, off) == 0,
            PcapStep::Violation => spec_capture_yield(s, off) == 0,
            PcapStep::Frame { at, next } => spec_capture_yield(s, off) == spec_frame_yield(
                spec_frame_bytes(s, at),
            ) + spec_capture_yield(s, next),
        },
    decreases s.len() - off,
{
    if off + 8 > s.len() {
    } else {
        let total = le32_at(s, off + 4) as int;
        if le32_at(s, off) != 0x00000006 && total >= 8 && off + total <= s.len() {
            lemma_capture_yield_step(s, off + total);
        }
    }
}

/// The total decoded message count never exceeds the sum of the declared
/// counts: each slot of the difference is a record lost to a zero-length
/// sentinel, a truncation, or an unknown-tag skip.
pub proof fn lemma_capture_yield_bounded(s: Seq<u8>, off: int)
    ensures
        0 <= spec_capture_yield(s, off) <= spec_capture_declared(s, off),
    decreases s.len() - off,
{
    if off + 8 > s.len() {
    } else {
        let block_type = le32_at(s, off);
        let total = le32_at(s, off + 4) as int;
        if block_type == 0x00000006 {
            if off + 28 <= s.len() {
                let cap = le32_at(s, off + 20) as int;
                let orig = le32_at(s, off + 24) as int;
                if cap == orig && off + 28 + cap <= s.len() && total >= 32 + cap && off + total
                    <= s.len() {
                    let frame = spec_frame_bytes(s, off);
                    if frame.len() >= 82 {
                        lemma_stream_count_bounded(frame, 82, le16_at(frame, 56) as int);
                    }
                    lemma_capture_yield_bounded(s, off + total);
                }
            }
        } else {
            if total >= 8 && off + total <= s.len() {
                lemma_capture_yield_bounded(s, off + total);
            }
        }
    }
}

/// The capture walk and the frame total agree: pulling one enhanced-frame
/// block leaves a container of exactly one frame fewer, and a walk that
/// ends or fails reaches no further frame.
pub proof fn lemma_capture_frames_step(s: Seq<u8>, off: int)
    ensures
        match spec_pcap_next(s, off) {
            PcapStep::End => spec_capture_frames(s, off) == 0,
            PcapStep::Violation => spec_capture_frames(s, off) == 0,
            PcapStep::Frame { at, next } => spec_capture_frames(s, off) == 1
                + spec_capture_frames(s, next),
        },
    decreases s.len() - off,
{
    if off + 8 > s.len() {
    } else {
        let total = le32_at(s, off + 4) as int;
        if le32_at(s, off) != 0x00000006 && total >= 8 && off + total <= s.len() {
            lemma_capture_frames_step(s, off + total);
        }
    }
}

/// The capture walk and cleanness agree: a walk that ends is clean so far,
/// a framing violation makes it unclean, and pulling one enhanced-frame
/// block leaves cleanness to that frame's envelope and message stream and
/// to the rest of the container.
pub proof fn lemma_capture_clean_step(s: Seq<u8>, off: int)
    ensures
        match spec_pcap_next(s, off) {
            PcapStep::End => spec_capture_clean(s, off),
            PcapStep::Violation => !spec_capture_clean(s, off),
            PcapStep::Frame { at, next } => {
                let frame = spec_frame_bytes(s, at);
                spec_capture_clean(s, off) == (frame.len() >= 82 && spec_stream_clean(
                    frame,
                    82,
                    le16_at(frame, 56) as int,
                ) && spec_capture_clean(s, next))
            },
        },
    decreases s.len() - off,
{
    if off + 8 > s.len() {
    } else {
        let total = le32_at(s, off + 4) as int;
        if le32_at(s, off) != 0x00000006 && total >= 8 && off + total <= s.len() {
            lemma_capture_clean_step(s, off + total);
        }
    }
}

/// Every enhanced-frame block spans at least its two headers and trailing
/// length echo, so the frame total is bounded by the container's bytes.
pub proof fn lemma_capture_frames_bytes(s: Seq<u8>, off: int)
    requires
        0 <= off,
    ensures
        0 <= spec_capture_frames(s, off),
        off <= s.len() ==> 32 * spec_capture_frames(s, off) <= s.len() - off,
        off > s.len() ==> spec_capture_frames(s, off) == 0,
    decreases s.len() - off,
{
    if off + 8 > s.len() {
    } else {
        let total = le32_at(s, off + 4) as int;
        if total >= 8 && off + total <= s.len() {
            lemma_capture_frames_bytes(s, off + total);
        }
    }
}

/// Every decoded message consumes at least twelve distinct bytes of its
/// frame, and frames occupy disjoint blocks of the container, so the
/// message total is bounded by the container's bytes.
pub proof fn lemma_capture_yield_bytes(s: Seq<u8>, off: int)
    requires
        0 <= off,
    ensures
        0 <= spec_capture_yield(s, off),
        off <= s.len() ==> 12 * spec_capture_yield(s, off) <= s.len() - off,
        off > s.len() ==> spec_capture_yield(s, off) == 0,
    decreases s.len() - off,
{
    lemma_capture_yield_bounded(s, off);
    if off + 8 > s.len() {
    } else {
        let block_type = le32_at(s, off);
        let total = le32_at(s, off + 4) as int;
        if block_type == 0x00000006 {
            if off + 28 <= s.len() {
                let cap = le32_at(s, off + 20) as int;
                let orig = le32_at(s, off + 24) as int;
                if cap == orig && off + 28 + cap <= s.len() && total >= 32 + cap && off + total
                    <= s.len() {
                    let frame = spec_frame_bytes(s, off);
                    if frame.len() >= 82 {
                        lemma_stream_count_bytes(frame, 82, le16_at(frame, 56) as int);
                    }
                    lemma_capture_yield_bytes(s, off + total);
                }
            }
        } else {
            if total >= 8 && off + total <= s.len() {
                lemma_capture_yield_bytes(s, off + total);
            }
        }
    }
}

/// The counting pass over a whole container: walk every block, decode
/// every message of every enhanced frame, and return how many frames and
/// messages the capture holds.  Succeeds exactly on a clean container —
/// one with no framing violation, no frame too short for its envelope, and
/// no length-mismatch record — and then the totals are exactly
/// [`spec_capture_frames`] and [`spec_capture_yield`].
pub fn tally_capture(buffer: &[u8]) -> (r: Result<(u64, u64), FeedError>)
    ensures
        r is Ok <==> spec_capture_clean(buffer@, 0),
        r matches Ok(t) ==> t.0 == spec_capture_frames(buffer@, 0) && t.1 == spec_capture_yield(
            buffer@,
            0,
        ),
        r matches Err(e) ==> e == FeedError::FormatViolation,
{
    let ghost s = buffer@;
    let n: usize = buffer.len();
    proof {
        lemma_capture_frames_bytes(s, 0);
        lemma_capture_yield_bytes(s, 0);
    }
    let mut parser = PcapParser::new(buffer);
    let mut frames: u64 = 0;
    let mut messages: u64 = 0;
    loop
        invariant
            parser.wf(),
            parser.spec_buffer() == s,
            s == buffer@,
            n == s.len(),
            frames + spec_capture_frames(s, parser.spec_offset()) == spec_capture_frames(s, 0),
            messages + spec_capture_yield(s, parser.spec_offset()) == spec_capture_yield(s, 0),
            spec_capture_clean(s, 0) == spec_capture_clean(s, parser.spec_offset()),
            32 * spec_capture_frames(s, 0) <= s.len(),
            12 * spec_capture_yield(s, 0) <= s.len(),
        decreases s.len() - parser.spec_offset(),
    {
        let ghost cur = parser.spec_offset();
        proof {
            lemma_pcap_step_bounds(s, cur);
            lemma_capture_frames_step(s, cur);
            lemma_capture_yield_step(s, cur);
            lemma_capture_clean_step(s, cur);
        }
        match parser.next() {
            Ok(None) => {
                return Ok((frames, messages));
            },
            Err(e) => {
                return Err(e);
            },
            Ok(Some(PcapData::EnhancedPacketBlock(_, _, packet, _))) => {
                let ghost nxt = parser.spec_offset();
                let ghost frame = packet@;
                proof {
                    match spec_pcap_next(s, cur) {
                        PcapStep::Frame { at, next } => {
                            assert(frame == spec_frame_bytes(s, at));
                            assert(next == nxt);
                            assert(spec_capture_yield(s, cur) == spec_frame_yield(frame)
                                + spec_capture_yield(s, nxt));
                            assert(spec_capture_frames(s, cur) == 1 + spec_capture_frames(
                                s,
                                nxt,
                            ));
                            assert(spec_capture_clean(s, cur) == (frame.len() >= 82
                                && spec_stream_clean(frame, 82, le16_at(frame, 56) as int)
                                && spec_capture_clean(s, nxt)));
                        },
                        _ => {
                            assert(false);
                        },
                    }
                    lemma_capture_frames_bytes(s, nxt);
                    lemma_capture_yield_bytes(s, nxt);
                }
                frames = frames + 1;
                let mut gen = match IexGenerator::new(packet.as_slice()) {
                    Ok(g) => g,
                    Err(e) => {
                        return Err(e);
                    },
                };
                let ghost count = gen.spec_message_count();
                loop
                    invariant
                        s == buffer@,
                        gen.wf(),
                        gen.spec_buffer() == frame,
                        gen.spec_message_count() == count,
                        messages + spec_stream_count(
                            frame,
                            gen.spec_offset(),
                            count - gen.spec_message_idx(),
                        ) + spec_capture_yield(s, nxt) == spec_capture_yield(s, 0),
                        spec_capture_clean(s, 0) == (spec_stream_clean(
                            frame,
                            gen.spec_offset(),
                            count - gen.spec_message_idx(),
                        ) && spec_capture_clean(s, nxt)),
                        12 * spec_capture_yield(s, 0) <= s.len(),
                        s.len() <= usize::MAX,
                        spec_capture_yield(s, nxt) >= 0,
                    ensures
                        messages + spec_capture_yield(s, nxt) == spec_capture_yield(s, 0),
                        spec_capture_clean(s, 0) == spec_capture_clean(s, nxt),
                    decreases count - gen.spec_message_idx(),
                {
                    let ghost ioff = gen.spec_offset();
                    let ghost irem = count - gen.spec_message_idx();
                    proof {
                        lemma_stream_bounded(frame, ioff, irem);
                        lemma_stream_count_step(frame, ioff, irem);
                        lemma_stream_clean_step(frame, ioff, irem);
                    }
                    match gen.next() {
                        Ok(None) => {
                            proof {
                                lemma_stream_count_step(
                                    frame,
                                    gen.spec_offset(),
                                    count - gen.spec_message_idx(),
                                );
                                lemma_stream_clean_step(
                                    frame,
                                    gen.spec_offset(),
                                    count - gen.spec_message_idx(),
                                );
                            }
                            break;
                        },
                        Err(e) => {
                            return Err(e);
                        },
                        Ok(Some(_)) => {
                            proof {
                                lemma_stream_count_bounded(
                                    frame,
                                    gen.spec_offset(),
                                    count - gen.spec_message_idx(),
                                );
                            }
                            messages = messages + 1;
                        },
                    }
                }
            },
        }
    }
}

} // verus!
