//! The capture block reader: a read cursor over the capture container.
//!
//! The container is a sequence of typed blocks, each opened by an 8-byte
//! header holding a type tag and a declared total length.  Only
//! enhanced-frame blocks (type `0x00000006`) are materialized; every other
//! block is skipped opaquely.  Running out of bytes at any step ends the
//! sequence cleanly; a declared length that contradicts the framing, or an
//! enhanced-frame block whose captured length disagrees with its original
//! length, is a `FormatViolation`.
//!
//! The spec function [`spec_pcap_next`] is the reader's ground truth: it
//! says, for any container bytes and cursor position, whether the walk ends,
//! fails, or finds the next enhanced-frame block, and where that block lies.
//! [`PcapParser::next`] is proved to follow it exactly.

use vstd::prelude::*;
use vstd::slice::slice_subrange;
use crate::wire::{le32_at, read_u32_at, copy_range};
use crate::structs::{PcapngHeader, PcapngEnhancedPacketBlock};
use crate::FeedError;

verus! {

/// One materialized capture block: the block header, the enhanced-frame
/// sub-header, the captured frame bytes, and the trailing option bytes.
pub enum PcapData {
    EnhancedPacketBlock(PcapngHeader, PcapngEnhancedPacketBlock, Vec<u8>, Vec<u8>),
}

/// What one pull of the capture-block walk finds at cursor `off` of the
/// container bytes, after skipping any non-frame blocks.
pub enum PcapStep {
    /// Fewer bytes remain than a declared length requires: the sequence ends
    /// cleanly.
    End,
    /// The framing is malformed: a declared block length shorter than its own
    /// header, or an enhanced-frame block whose captured length disagrees
    /// with its original length.
    Violation,
    /// The next enhanced-frame block starts at `at`; the block after it
    /// starts at `next`.
    Frame { at: int, next: int },
}

/// The capture-block walk, one enhanced-frame block per step: reads the
/// 8-byte block header at `off`, skips non-frame blocks, and locates the
/// next enhanced-frame block.
pub open spec fn spec_pcap_next(s: Seq<u8>, off: int) -> PcapStep
    decreases s.len() - off,
{
    if off + 8 > s.len() {
        PcapStep::End
    } else {
        let block_type = le32_at(s, off);
        let total = le32_at(s, off + 4) as int;
        if block_type == 0x00000006 {
            if off + 28 > s.len() {
                PcapStep::End
            } else {
                let cap = le32_at(s, off + 20) as int;
                let orig = le32_at(s, off + 24) as int;
                if cap != orig {
                    PcapStep::Violation
                } else if off + 28 + cap > s.len() {
                    PcapStep::End
                } else if total < 32 + cap {
                    PcapStep::Violation
                } else if off + total > s.len() {
                    PcapStep::End
                } else {
                    PcapStep::Frame { at: off, next: off + total }
                }
            }
        } else {
            if total < 8 {
                PcapStep::Violation
            } else if off + total > s.len() {
                PcapStep::End
            } else {
                spec_pcap_next(s, off + total)
            }
        }
    }
}

/// The capture walk only moves forward: a located enhanced-frame block
/// starts at or after the cursor, spans at least its two headers and the
/// trailing length echo, and ends within the container.
pub proof fn lemma_pcap_step_bounds(s: Seq<u8>, off: int)
    requires
        0 <= off,
    ensures
        spec_pcap_next(s, off) matches PcapStep::Frame { at, next } ==> off <= at && at + 32
            <= next && next <= s.len(),
    decreases s.len() - off,
{
    if off + 8 > s.len() {
    } else {
        let total = le32_at(s, off + 4) as int;
        if le32_at(s, off) != 0x00000006 && total >= 8 && off + total <= s.len() {
            lemma_pcap_step_bounds(s, off + total);
        }
    }
}

/// The pieces of a materialized enhanced-frame block are exactly the byte
/// ranges that the block starting at `at` of `s` declares: the 8-byte
/// header, the 20-byte sub-header, `captured_packet_length` frame bytes, and
/// the option bytes up to the 4-byte trailing length echo.
pub open spec fn spec_frame_wf(d: PcapData, s: Seq<u8>, at: int) -> bool {
    match d {
        PcapData::EnhancedPacketBlock(header, sub, packet, options) => {
            let total = le32_at(s, at + 4) as int;
            let cap = le32_at(s, at + 20) as int;
            &&& header@ == s.subrange(at, at + 8)
            &&& sub@ == s.subrange(at + 8, at + 28)
            &&& packet@ == s.subrange(at + 28, at + 28 + cap)
            &&& options@ == s.subrange(at + 28 + cap, at + total - 4)
        },
    }
}

/// A read cursor over the capture container's bytes.  Purely a reader: it
/// never copies a block it does not materialize.
pub struct PcapParser<'a> {
    buffer: &'a [u8],
    offset: usize,
}

impl<'a> PcapParser<'a> {
    /// The container bytes the cursor walks over.
    pub closed spec fn spec_buffer(self) -> Seq<u8> {
        self.buffer@
    }

    /// The cursor's current byte position.
    pub closed spec fn spec_offset(self) -> int {
        self.offset as int
    }

    pub open spec fn wf(self) -> bool {
        0 <= self.spec_offset() <= self.spec_buffer().len()
    }

    /// A fresh cursor at the start of `buffer`.
    pub fn new(buffer: &'a [u8]) -> (r: PcapParser<'a>)
        ensures
            r.wf(),
            r.spec_buffer() == buffer@,
            r.spec_offset() == 0,
    {
        PcapParser { buffer, offset: 0 }
    }

    /// Read `size` bytes at the cursor and advance past them; `None`, with
    /// the cursor unmoved, if fewer than `size` bytes remain.
    pub fn parse(&mut self, size: usize) -> (r: Option<Vec<u8>>)
        requires
            old(self).wf(),
        ensures
            final(self).wf(),
            final(self).spec_buffer() == old(self).spec_buffer(),
            old(self).spec_offset() + size <= old(self).spec_buffer().len() ==> {
                &&& r matches Some(v) && v@ == old(self).spec_buffer().subrange(
                    old(self).spec_offset(),
                    old(self).spec_offset() + size,
                )
                &&& final(self).spec_offset() == old(self).spec_offset() + size
            },
            old(self).spec_offset() + size > old(self).spec_buffer().len() ==> r is None
                && *final(self) == *old(self),
    {
        let n: usize = self.buffer.len();
        if n - self.offset < size {
            None
        } else {
            let v = copy_range(self.buffer, self.offset, size);
            self.offset = self.offset + size;
            Some(v)
        }
    }

    /// Borrow `size` bytes at the cursor and advance past them; `None`, with
    /// the cursor unmoved, if fewer than `size` bytes remain.
    pub fn take_buffer(&mut self, size: usize) -> (r: Option<&'a [u8]>)
        requires
            old(self).wf(),
        ensures
            final(self).wf(),
            final(self).spec_buffer() == old(self).spec_buffer(),
            old(self).spec_offset() + size <= old(self).spec_buffer().len() ==> {
                &&& r matches Some(v) && v@ == old(self).spec_buffer().subrange(
                    old(self).spec_offset(),
                    old(self).spec_offset() + size,
                )
                &&& final(self).spec_offset() == old(self).spec_offset() + size
            },
            old(self).spec_offset() + size > old(self).spec_buffer().len() ==> r is None
                && *final(self) == *old(self),
    {
        let n: usize = self.buffer.len();
        if n - self.offset < size {
            None
        } else {
            let v = slice_subrange(self.buffer, self.offset, self.offset + size);
            self.offset = self.offset + size;
            Some(v)
        }
    }

    /// Pull the next enhanced-frame block, skipping every other block type.
    ///
    /// Follows [`spec_pcap_next`] exactly: `Ok(None)` when the container is
    /// exhausted, `Err(FormatViolation)` when the framing is malformed, and
    /// otherwise the materialized block, with the cursor advanced to the
    /// following block.
    pub fn next(&mut self) -> (r: Result<Option<PcapData>, FeedError>)
        requires
            old(self).wf(),
        ensures
            final(self).wf(),
            final(self).spec_buffer() == old(self).spec_buffer(),
            match spec_pcap_next(old(self).spec_buffer(), old(self).spec_offset()) {
                PcapStep::End => r matches Ok(None) && *final(self) == *old(self),
                PcapStep::Violation => r matches Err(e) && e == FeedError::FormatViolation
                    && *final(self) == *old(self),
                PcapStep::Frame { at, next } => r matches Ok(Some(d)) && spec_frame_wf(
                    d,
                    old(self).spec_buffer(),
                    at,
                ) && final(self).spec_offset() == next,
            },
    {
        let n: usize = self.buffer.len();
        let mut cur: usize = self.offset;
        loop
            invariant
                self == old(self),
                self.wf(),
                n == self.spec_buffer().len(),
                self.spec_offset() <= cur <= n,
                spec_pcap_next(self.spec_buffer(), cur as int) == spec_pcap_next(
                    old(self).spec_buffer(),
                    old(self).spec_offset(),
                ),
            decreases n - cur,
        {
            if n - cur < 8 {
                return Ok(None);
            }
            let block_type = read_u32_at(self.buffer, cur);
            let total: usize = read_u32_at(self.buffer, cur + 4) as usize;
            if block_type == 0x00000006 {
                if n - cur < 28 {
                    return Ok(None);
                }
                let cap: usize = read_u32_at(self.buffer, cur + 20) as usize;
                let orig: usize = read_u32_at(self.buffer, cur + 24) as usize;
                if cap != orig {
                    return Err(FeedError::FormatViolation);
                }
                if n - cur - 28 < cap {
                    return Ok(None);
                }
                if total < 32 || total - 32 < cap {
                    return Err(FeedError::FormatViolation);
                }
                if n - cur < total {
                    return Ok(None);
                }
                let header = match PcapngHeader::parse(slice_subrange(self.buffer, cur, cur + 8)) {
                    Some(h) => h,
                    None => {
                        proof {
                            assert(false);
                        }
                        return Err(FeedError::FormatViolation);
                    },
                };
                let sub = match PcapngEnhancedPacketBlock::parse(
                    slice_subrange(self.buffer, cur + 8, cur + 28),
                ) {
                    Some(h) => h,
                    None => {
                        proof {
                            assert(false);
                        }
                        return Err(FeedError::FormatViolation);
                    },
                };
                let packet = copy_range(self.buffer, cur + 28, cap);
                let options = copy_range(self.buffer, cur + 28 + cap, total - 32 - cap);
                proof {
                    assert(header@ =~= self.spec_buffer().subrange(cur as int, cur + 8));
                    assert(sub@ =~= self.spec_buffer().subrange(cur + 8, cur + 28));
                }
                self.offset = cur + total;
                return Ok(Some(PcapData::EnhancedPacketBlock(header, sub, packet, options)));
            } else {
                if total < 8 {
                    return Err(FeedError::FormatViolation);
                }
                if n - cur < total {
                    return Ok(None);
                }
                cur = cur + total;
            }
        }
    }
}

} // verus!
