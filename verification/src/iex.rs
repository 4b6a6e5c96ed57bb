//! The message stream decoder: the bounded walk over one frame's payload.
//!
//! A frame's payload begins with a fixed 42-byte link/network/transport
//! envelope, then the vendor transport protocol's 40-byte header, whose
//! message count bounds the stream of length-prefixed message records that
//! fills the rest of the frame.  Each record is dispatched on its tag byte:
//! a known tag whose declared length matches the catalog yields a typed
//! message view; an unknown tag is skipped and counted; a known tag whose
//! declared length disagrees with the catalog is a `FormatViolation`.
//!
//! The spec function [`spec_msg_next`] is the decoder's ground truth: it
//! says, for any payload bytes, cursor and remaining message budget, whether
//! the stream ends, fails, or yields the record at a given range.
//! [`IexGenerator::next`] is proved to follow it exactly.

use vstd::prelude::*;
use vstd::slice::{slice_index_get, slice_subrange};
use crate::wire::{le16_at, read_u16_at, copy_range};
use crate::catalog::{spec_known_tag, spec_record_size, record_size};
use crate::structs::{
    EthernetIIHeader, Ipv4Header, UdpHeader, TransportProtocolHeader, SystemEventMessage,
    SecurityDirectoryMessage, TradingStatusMessage, RetailLiquidityIndicatorMessage,
    OperationalHaltStatusMessage, ShortSalePriceTestStatusMessage, QuoteUpdateMessage,
    TradeReportMessage, OfficialPriceMessage, TradeBreakMessage, AuctionInformationMessage,
};
use crate::FeedError;

verus! {

/// The administrative message kinds.
pub enum AdmninMessage {
    SystemEventMessage(SystemEventMessage),
    SecurityDirectoryMessage(SecurityDirectoryMessage),
    TradingStatusMessage(TradingStatusMessage),
    RetailLiquidityIndicatorMessage(RetailLiquidityIndicatorMessage),
    OperationalHaltStatusMessage(OperationalHaltStatusMessage),
    ShortSalePriceTestStatusMessage(ShortSalePriceTestStatusMessage),
}

/// The trading message kinds: the two persisted kinds and the two that are
/// decoded but not persisted.
pub enum TradingMessage {
    QuoteUpdateMessage(QuoteUpdateMessage),
    TradeReportMessage(TradeReportMessage),
    OfficialPriceMessage(OfficialPriceMessage),
    TradeBreakMessage(TradeBreakMessage),
}

/// The auction message kinds.
pub enum AuctionMessage {
    AuctionInformationMessage(AuctionInformationMessage),
}

/// One decoded market-data message: a typed view over one record's bytes.
pub enum IexMessage {
    AdminMessage(AdmninMessage),
    TradingMessage(TradingMessage),
    AuctionMessage(AuctionMessage),
}

impl AdmninMessage {
    pub open spec fn wf(self) -> bool {
        match self {
            AdmninMessage::SystemEventMessage(m) => m.wf(),
            AdmninMessage::SecurityDirectoryMessage(m) => m.wf(),
            AdmninMessage::TradingStatusMessage(m) => m.wf(),
            AdmninMessage::RetailLiquidityIndicatorMessage(m) => m.wf(),
            AdmninMessage::OperationalHaltStatusMessage(m) => m.wf(),
            AdmninMessage::ShortSalePriceTestStatusMessage(m) => m.wf(),
        }
    }

    /// The tag byte of the kind this variant represents.
    pub open spec fn spec_tag(self) -> u8 {
        match self {
            AdmninMessage::SystemEventMessage(_) => 83,
            AdmninMessage::SecurityDirectoryMessage(_) => 68,
            AdmninMessage::TradingStatusMessage(_) => 72,
            AdmninMessage::RetailLiquidityIndicatorMessage(_) => 73,
            AdmninMessage::OperationalHaltStatusMessage(_) => 79,
            AdmninMessage::ShortSalePriceTestStatusMessage(_) => 80,
        }
    }

    /// The record bytes backing this message view.
    pub open spec fn spec_bytes(self) -> Seq<u8> {
        match self {
            AdmninMessage::SystemEventMessage(m) => m@,
            AdmninMessage::SecurityDirectoryMessage(m) => m@,
            AdmninMessage::TradingStatusMessage(m) => m@,
            AdmninMessage::RetailLiquidityIndicatorMessage(m) => m@,
            AdmninMessage::OperationalHaltStatusMessage(m) => m@,
            AdmninMessage::ShortSalePriceTestStatusMessage(m) => m@,
        }
    }
}

impl TradingMessage {
    pub open spec fn wf(self) -> bool {
        match self {
            TradingMessage::QuoteUpdateMessage(m) => m.wf(),
            TradingMessage::TradeReportMessage(m) => m.wf(),
            TradingMessage::OfficialPriceMessage(m) => m.wf(),
            TradingMessage::TradeBreakMessage(m) => m.wf(),
        }
    }

    /// The tag byte of the kind this variant represents.
    pub open spec fn spec_tag(self) -> u8 {
        match self {
            TradingMessage::QuoteUpdateMessage(_) => 81,
            TradingMessage::TradeReportMessage(_) => 84,
            TradingMessage::OfficialPriceMessage(_) => 88,
            TradingMessage::TradeBreakMessage(_) => 66,
        }
    }

    /// The record bytes backing this message view.
    pub open spec fn spec_bytes(self) -> Seq<u8> {
        match self {
            TradingMessage::QuoteUpdateMessage(m) => m@,
            TradingMessage::TradeReportMessage(m) => m@,
            TradingMessage::OfficialPriceMessage(m) => m@,
            TradingMessage::TradeBreakMessage(m) => m@,
        }
    }
}

impl AuctionMessage {
    pub open spec fn wf(self) -> bool {
        match self {
            AuctionMessage::AuctionInformationMessage(m) => m.wf(),
        }
    }

    /// The tag byte of the kind this variant represents.
    pub open spec fn spec_tag(self) -> u8 {
        match self {
            AuctionMessage::AuctionInformationMessage(_) => 65,
        }
    }

    /// The record bytes backing this message view.
    pub open spec fn spec_bytes(self) -> Seq<u8> {
        match self {
            AuctionMessage::AuctionInformationMessage(m) => m@,
        }
    }
}

impl IexMessage {
    pub open spec fn wf(self) -> bool {
        match self {
            IexMessage::AdminMessage(m) => m.wf(),
            IexMessage::TradingMessage(m) => m.wf(),
            IexMessage::AuctionMessage(m) => m.wf(),
        }
    }

    /// The tag byte of the kind this variant represents: the variant of a
    /// decoded message is determined by its record's tag byte.
    pub open spec fn spec_tag(self) -> u8 {
        match self {
            IexMessage::AdminMessage(m) => m.spec_tag(),
            IexMessage::TradingMessage(m) => m.spec_tag(),
            IexMessage::AuctionMessage(m) => m.spec_tag(),
        }
    }

    /// The record bytes backing this message view.
    pub open spec fn spec_bytes(self) -> Seq<u8> {
        match self {
            IexMessage::AdminMessage(m) => m.spec_bytes(),
            IexMessage::TradingMessage(m) => m.spec_bytes(),
            IexMessage::AuctionMessage(m) => m.spec_bytes(),
        }
    }
}

/// What one pull of the message stream finds in the payload bytes `s` with
/// the cursor at `off` and `remaining` message slots left of the transport
/// header's declared count.
pub enum MsgStep {
    /// The declared count is used up, the length prefix or the record does
    /// not fit in the remaining bytes, or a zero-length sentinel record was
    /// reached: the stream ends cleanly.
    End,
    /// A known tag whose declared length disagrees with the catalog's fixed
    /// size for that kind.
    Violation,
    /// The record at `at .. at + len` is yielded; the cursor moves to `next`
    /// and `rem` message slots remain.
    Msg { at: int, len: int, next: int, rem: int },
}

/// The message stream walk: reads the 2-byte length prefix at `off`,
/// dispatches on the record's tag byte, skips records with unknown tags, and
/// yields the first record with a known tag.
pub open spec fn spec_msg_next(s: Seq<u8>, off: int, remaining: int) -> MsgStep
    decreases remaining,
{
    if remaining <= 0 {
        MsgStep::End
    } else if off + 2 > s.len() {
        MsgStep::End
    } else {
        let l = le16_at(s, off) as int;
        if l == 0 {
            MsgStep::End
        } else if off + 3 > s.len() {
            MsgStep::End
        } else {
            let tag = s[off + 2];
            if spec_known_tag(tag) {
                if l != spec_record_size(tag) as int {
                    MsgStep::Violation
                } else if off + 2 + l > s.len() {
                    MsgStep::End
                } else {
                    MsgStep::Msg { at: off + 2, len: l, next: off + 2 + l, rem: remaining - 1 }
                }
            } else {
                if off + 2 + l > s.len() {
                    MsgStep::End
                } else {
                    spec_msg_next(s, off + 2 + l, remaining - 1)
                }
            }
        }
    }
}

/// How many messages the stream walk starting at `off` with `remaining`
/// message slots yields in all, skipped records not counted.
pub open spec fn spec_stream_count(s: Seq<u8>, off: int, remaining: int) -> int
    decreases remaining,
{
    if remaining <= 0 {
        0
    } else if off + 2 > s.len() {
        0
    } else {
        let l = le16_at(s, off) as int;
        if l == 0 {
            0
        } else if off + 3 > s.len() {
            0
        } else {
            let tag = s[off + 2];
            if spec_known_tag(tag) {
                if l != spec_record_size(tag) as int {
                    0
                } else if off + 2 + l > s.len() {
                    0
                } else {
                    1 + spec_stream_count(s, off + 2 + l, remaining - 1)
                }
            } else {
                if off + 2 + l > s.len() {
                    0
                } else {
                    spec_stream_count(s, off + 2 + l, remaining - 1)
                }
            }
        }
    }
}

/// The stream yields at most its declared message budget, whatever bytes
/// trail behind the records.
pub proof fn lemma_stream_count_bounded(s: Seq<u8>, off: int, remaining: int)
    ensures
        0 <= spec_stream_count(s, off, remaining),
        remaining >= 0 ==> spec_stream_count(s, off, remaining) <= remaining,
    decreases remaining,
{
    if remaining <= 0 {
    } else if off + 2 > s.len() {
    } else {
        let l = le16_at(s, off) as int;
        if l != 0 && off + 3 <= s.len() && off + 2 + l <= s.len() {
            lemma_stream_count_bounded(s, off + 2 + l, remaining - 1);
        }
    }
}

/// The step function and the total count agree: a step that yields a
/// message leaves a stream of exactly one message fewer, and a step that
/// ends or fails the stream leaves nothing.
pub proof fn lemma_stream_count_step(s: Seq<u8>, off: int, remaining: int)
    ensures
        match spec_msg_next(s, off, remaining) {
            MsgStep::End => spec_stream_count(s, off, remaining) == 0,
            MsgStep::Violation => spec_stream_count(s, off, remaining) == 0,
            MsgStep::Msg { next, rem, .. } => spec_stream_count(s, off, remaining) == 1
                + spec_stream_count(s, next, rem),
        },
    decreases remaining,
{
    if remaining <= 0 {
    } else if off + 2 > s.len() {
    } else {
        let l = le16_at(s, off) as int;
        if l != 0 && off + 3 <= s.len() && !spec_known_tag(s[off + 2]) && off + 2 + l
            <= s.len() {
            lemma_stream_count_step(s, off + 2 + l, remaining - 1);
        }
    }
}

/// Whether the stream walk starting at `off` with `remaining` message slots
/// runs to its end without a length-mismatch violation.
pub open spec fn spec_stream_clean(s: Seq<u8>, off: int, remaining: int) -> bool
    decreases remaining,
{
    if remaining <= 0 {
        true
    } else if off + 2 > s.len() {
        true
    } else {
        let l = le16_at(s, off) as int;
        if l == 0 {
            true
        } else if off + 3 > s.len() {
            true
        } else {
            let tag = s[off + 2];
            if spec_known_tag(tag) {
                if l != spec_record_size(tag) as int {
                    false
                } else if off + 2 + l > s.len() {
                    true
                } else {
                    spec_stream_clean(s, off + 2 + l, remaining - 1)
                }
            } else {
                if off + 2 + l > s.len() {
                    true
                } else {
                    spec_stream_clean(s, off + 2 + l, remaining - 1)
                }
            }
        }
    }
}

/// The step function and cleanness agree: a step that ends the stream
/// leaves it clean, a violation leaves it unclean, and a yielded message
/// leaves cleanness to the rest of the stream.
pub proof fn lemma_stream_clean_step(s: Seq<u8>, off: int, remaining: int)
    ensures
        match spec_msg_next(s, off, remaining) {
            MsgStep::End => spec_stream_clean(s, off, remaining),
            MsgStep::Violation => !spec_stream_clean(s, off, remaining),
            MsgStep::Msg { next, rem, .. } => spec_stream_clean(s, off, remaining)
                == spec_stream_clean(s, next, rem),
        },
    decreases remaining,
{
    if remaining <= 0 {
    } else if off + 2 > s.len() {
    } else {
        let l = le16_at(s, off) as int;
        if l != 0 && off + 3 <= s.len() && !spec_known_tag(s[off + 2]) && off + 2 + l
            <= s.len() {
            lemma_stream_clean_step(s, off + 2 + l, remaining - 1);
        }
    }
}

/// Every yielded message consumes at least twelve bytes of the payload —
/// its two-byte length prefix and a record of at least the smallest kind's
/// size — so the yield count is bounded by the bytes behind the cursor.
pub proof fn lemma_stream_count_bytes(s: Seq<u8>, off: int, remaining: int)
    requires
        0 <= off,
    ensures
        off <= s.len() ==> 12 * spec_stream_count(s, off, remaining) <= s.len() - off,
        off > s.len() ==> spec_stream_count(s, off, remaining) == 0,
    decreases remaining,
{
    lemma_stream_count_bounded(s, off, remaining);
    if remaining <= 0 {
    } else if off + 2 > s.len() {
    } else {
        let l = le16_at(s, off) as int;
        if l != 0 && off + 3 <= s.len() && off + 2 + l <= s.len() {
            lemma_stream_count_bytes(s, off + 2 + l, remaining - 1);
        }
    }
}

/// The network envelope skipper: the byte offset within one frame at which
/// the vendor transport segment begins.  The envelope is the fixed 42-byte
/// prefix — 14-byte link header, 20-byte network header without options,
/// 8-byte transport header — and a frame too short for it is a
/// `FormatViolation`.
pub fn envelope_offset(frame: &[u8]) -> (r: Result<usize, FeedError>)
    ensures
        frame@.len() >= 42 ==> (r matches Ok(off) && off == 42),
        frame@.len() < 42 ==> (r matches Err(e) && e == FeedError::FormatViolation),
{
    if frame.len() < 42 {
        Err(FeedError::FormatViolation)
    } else {
        Ok(42)
    }
}

/// The message stream is bounded by the declared count: every yielded
/// message strictly consumes the remaining budget, so a stream that starts
/// with `remaining` slots can never yield more than `remaining` messages,
/// whatever bytes trail behind the records.
pub proof fn lemma_stream_bounded(s: Seq<u8>, off: int, remaining: int)
    ensures
        spec_msg_next(s, off, remaining) matches MsgStep::Msg { rem, .. } ==> 0 <= rem
            < remaining,
    decreases remaining,
{
    if remaining <= 0 {
    } else if off + 2 > s.len() {
    } else {
        let l = le16_at(s, off) as int;
        if l != 0 && off + 3 <= s.len() && !spec_known_tag(s[off + 2]) && off + 2 + l
            <= s.len() {
            lemma_stream_bounded(s, off + 2 + l, remaining - 1);
        }
    }
}

/// Build the typed message view for the known tag `tag` over the record
/// bytes `rec`.
fn build_message(tag: u8, rec: &[u8]) -> (m: IexMessage)
    requires
        spec_known_tag(tag),
        rec@.len() == spec_record_size(tag) as int,
        rec@[0] == tag,
    ensures
        m.wf(),
        m.spec_bytes() == rec@,
        m.spec_tag() == tag,
{
    proof {
        assert(rec@.subrange(0, spec_record_size(tag) as int) =~= rec@);
    }
    if tag == 83 {
        IexMessage::AdminMessage(AdmninMessage::SystemEventMessage(
            SystemEventMessage::parse(rec).unwrap(),
        ))
    } else if tag == 68 {
        IexMessage::AdminMessage(AdmninMessage::SecurityDirectoryMessage(
            SecurityDirectoryMessage::parse(rec).unwrap(),
        ))
    } else if tag == 72 {
        IexMessage::AdminMessage(AdmninMessage::TradingStatusMessage(
            TradingStatusMessage::parse(rec).unwrap(),
        ))
    } else if tag == 73 {
        IexMessage::AdminMessage(AdmninMessage::RetailLiquidityIndicatorMessage(
            RetailLiquidityIndicatorMessage::parse(rec).unwrap(),
        ))
    } else if tag == 79 {
        IexMessage::AdminMessage(AdmninMessage::OperationalHaltStatusMessage(
            OperationalHaltStatusMessage::parse(rec).unwrap(),
        ))
    } else if tag == 80 {
        IexMessage::AdminMessage(AdmninMessage::ShortSalePriceTestStatusMessage(
            ShortSalePriceTestStatusMessage::parse(rec).unwrap(),
        ))
    } else if tag == 81 {
        IexMessage::TradingMessage(TradingMessage::QuoteUpdateMessage(
            QuoteUpdateMessage::parse(rec).unwrap(),
        ))
    } else if tag == 84 {
        IexMessage::TradingMessage(TradingMessage::TradeReportMessage(
            TradeReportMessage::parse(rec).unwrap(),
        ))
    } else if tag == 88 {
        IexMessage::TradingMessage(TradingMessage::OfficialPriceMessage(
            OfficialPriceMessage::parse(rec).unwrap(),
        ))
    } else if tag == 66 {
        IexMessage::TradingMessage(TradingMessage::TradeBreakMessage(
            TradeBreakMessage::parse(rec).unwrap(),
        ))
    } else {
        IexMessage::AuctionMessage(AuctionMessage::AuctionInformationMessage(
            AuctionInformationMessage::parse(rec).unwrap(),
        ))
    }
}

/// The bounded message stream of one frame: the envelope and transport
/// header views, and a cursor over the message records that follow them.
pub struct IexGenerator<'a> {
    buffer: &'a [u8],
    offset: usize,
    message_idx: usize,
    skipped: usize,
    ethernet_header: EthernetIIHeader,
    ipv4_header: Ipv4Header,
    udp_header: UdpHeader,
    tp_header: TransportProtocolHeader,
}

impl<'a> IexGenerator<'a> {
    /// The frame bytes the stream decodes from.
    pub closed spec fn spec_buffer(self) -> Seq<u8> {
        self.buffer@
    }

    /// The cursor's current byte position within the frame.
    pub closed spec fn spec_offset(self) -> int {
        self.offset as int
    }

    /// How many message slots of the declared count are consumed, yielded
    /// and skipped records together.
    pub closed spec fn spec_message_idx(self) -> int {
        self.message_idx as int
    }

    /// How many records with unknown tags were skipped.
    pub closed spec fn spec_skipped(self) -> int {
        self.skipped as int
    }

    /// The transport header's declared message count: the exact upper bound
    /// on message slots in this frame.
    pub open spec fn spec_message_count(self) -> int {
        le16_at(self.spec_buffer(), 56) as int
    }

    pub closed spec fn spec_headers_wf(self) -> bool {
        &&& self.ethernet_header@ == self.spec_buffer().subrange(0, 14)
        &&& self.ipv4_header@ == self.spec_buffer().subrange(14, 34)
        &&& self.udp_header@ == self.spec_buffer().subrange(34, 42)
        &&& self.tp_header@ == self.spec_buffer().subrange(42, 82)
    }

    pub open spec fn wf(self) -> bool {
        &&& self.spec_buffer().len() >= 82
        &&& 82 <= self.spec_offset() <= self.spec_buffer().len()
        &&& self.spec_headers_wf()
        &&& 0 <= self.spec_skipped() <= self.spec_message_idx() <= self.spec_message_count()
    }

    /// Decode one frame's fixed envelope: the 14-byte link header, the
    /// 20-byte network header, the 8-byte transport header, and the vendor
    /// transport protocol's 40-byte header.  A frame too short for these 82
    /// bytes is a `FormatViolation`.
    pub fn new(buffer: &'a [u8]) -> (r: Result<IexGenerator<'a>, FeedError>)
        ensures
            buffer@.len() < 82 ==> (r matches Err(e) && e == FeedError::FormatViolation),
            buffer@.len() >= 82 ==> (r matches Ok(g) && {
                &&& g.wf()
                &&& g.spec_buffer() == buffer@
                &&& g.spec_offset() == 82
                &&& g.spec_message_idx() == 0
                &&& g.spec_skipped() == 0
            }),
    {
        let payload_offset: usize = match envelope_offset(buffer) {
            Ok(off) => off,
            Err(e) => {
                return Err(e);
            },
        };
        if buffer.len() < payload_offset + 40 {
            return Err(FeedError::FormatViolation);
        }
        let ethernet_header = EthernetIIHeader::parse(slice_subrange(buffer, 0, 14)).unwrap();
        let ipv4_header = Ipv4Header::parse(slice_subrange(buffer, 14, 34)).unwrap();
        let udp_header = UdpHeader::parse(slice_subrange(buffer, 34, 42)).unwrap();
        let tp_header = TransportProtocolHeader::parse(slice_subrange(buffer, 42, 82)).unwrap();
        proof {
            assert(ethernet_header@ =~= buffer@.subrange(0, 14));
            assert(ipv4_header@ =~= buffer@.subrange(14, 34));
            assert(udp_header@ =~= buffer@.subrange(34, 42));
            assert(tp_header@ =~= buffer@.subrange(42, 82));
        }
        Ok(
            IexGenerator {
                buffer,
                offset: 82,
                message_idx: 0,
                skipped: 0,
                ethernet_header,
                ipv4_header,
                udp_header,
                tp_header,
            },
        )
    }

    /// The frame's link-layer header view.
    pub fn ethernet_header(&self) -> (r: &EthernetIIHeader)
        requires
            self.wf(),
        ensures
            r@ == self.spec_buffer().subrange(0, 14),
    {
        &self.ethernet_header
    }

    /// The frame's network header view.
    pub fn ipv4_header(&self) -> (r: &Ipv4Header)
        requires
            self.wf(),
        ensures
            r@ == self.spec_buffer().subrange(14, 34),
    {
        &self.ipv4_header
    }

    /// The frame's transport header view.
    pub fn udp_header(&self) -> (r: &UdpHeader)
        requires
            self.wf(),
        ensures
            r@ == self.spec_buffer().subrange(34, 42),
    {
        &self.udp_header
    }

    /// The vendor transport protocol header view.
    pub fn transport_header(&self) -> (r: &TransportProtocolHeader)
        requires
            self.wf(),
        ensures
            r@ == self.spec_buffer().subrange(42, 82),
    {
        &self.tp_header
    }

    /// How many message slots of the declared count are consumed so far.
    pub fn messages_consumed(&self) -> (r: usize)
        requires
            self.wf(),
        ensures
            r == self.spec_message_idx(),
    {
        self.message_idx
    }

    /// How many records with unknown tags were skipped so far.
    pub fn skipped_count(&self) -> (r: usize)
        requires
            self.wf(),
        ensures
            r == self.spec_skipped(),
    {
        self.skipped
    }

    /// Check that a standalone buffer can hold a `size`-byte record and copy
    /// that record out of it.
    pub fn parse(&self, b: &[u8], size: usize) -> (r: Option<Vec<u8>>)
        ensures
            b@.len() >= size ==> (r matches Some(v) && v@ == b@.subrange(0, size as int)),
            b@.len() < size ==> r is None,
    {
        if b.len() >= size {
            Some(copy_range(b, 0, size))
        } else {
            None
        }
    }

    /// Copy `size` bytes at the cursor and advance past them; `None`, with
    /// the stream unchanged, if fewer than `size` bytes remain.
    pub fn take_parse(&mut self, size: usize) -> (r: Option<Vec<u8>>)
        requires
            old(self).wf(),
        ensures
            final(self).wf(),
            final(self).spec_buffer() == old(self).spec_buffer(),
            final(self).spec_message_idx() == old(self).spec_message_idx(),
            final(self).spec_skipped() == old(self).spec_skipped(),
            old(self).spec_offset() + size <= old(self).spec_buffer().len() ==> {
                &&& r matches Some(v) && v@ == old(self).spec_buffer().subrange(
                    old(self).spec_offset(),
                    old(self).spec_offset() + size,
                )
                &&& final(self).spec_offset() == old(self).spec_offset() + size
            },
            old(self).spec_offset() + size > old(self).spec_buffer().len() ==> r is None
                && *final(self) == *old(self),
    {
        let n: usize = self.buffer.len();
        if n - self.offset < size {
            None
        } else {
            let v = copy_range(self.buffer, self.offset, size);
            self.offset = self.offset + size;
            Some(v)
        }
    }

    /// Borrow `size` bytes at the cursor and advance past them; `None`, with
    /// the stream unchanged, if fewer than `size` bytes remain.
    pub fn take_buffer(&mut self, size: usize) -> (r: Option<&'a [u8]>)
        requires
            old(self).wf(),
        ensures
            final(self).wf(),
            final(self).spec_buffer() == old(self).spec_buffer(),
            final(self).spec_message_idx() == old(self).spec_message_idx(),
            final(self).spec_skipped() == old(self).spec_skipped(),
            old(self).spec_offset() + size <= old(self).spec_buffer().len() ==> {
                &&& r matches Some(v) && v@ == old(self).spec_buffer().subrange(
                    old(self).spec_offset(),
                    old(self).spec_offset() + size,
                )
                &&& final(self).spec_offset() == old(self).spec_offset() + size
            },
            old(self).spec_offset() + size > old(self).spec_buffer().len() ==> r is None
                && *final(self) == *old(self),
    {
        let n: usize = self.buffer.len();
        if n - self.offset < size {
            None
        } else {
            let v = slice_subrange(self.buffer, self.offset, self.offset + size);
            self.offset = self.offset + size;
            Some(v)
        }
    }

    /// Borrow `size` bytes at the cursor without advancing; `None` if fewer
    /// than `size` bytes remain.
    pub fn peek_buffer(&self, size: usize) -> (r: Option<&'a [u8]>)
        requires
            self.wf(),
        ensures
            self.spec_offset() + size <= self.spec_buffer().len() ==> (r matches Some(v) && v@
                == self.spec_buffer().subrange(self.spec_offset(), self.spec_offset() + size)),
            self.spec_offset() + size > self.spec_buffer().len() ==> r is None,
    {
        let n: usize = self.buffer.len();
        if n - self.offset < size {
            None
        } else {
            Some(slice_subrange(self.buffer, self.offset, self.offset + size))
        }
    }

    /// Pull the next decoded message, skipping records with unknown tags.
    ///
    /// Follows [`spec_msg_next`] exactly, from the current cursor and the
    /// remaining message budget: `Ok(None)` when the stream ends,
    /// `Err(FormatViolation)` when a known tag's declared length disagrees
    /// with the catalog, and otherwise the typed view over the record's
    /// bytes.  At most the transport header's declared message count is ever
    /// yielded, and every consumed slot beyond the yielded ones is a counted
    /// skip.
    pub fn next(&mut self) -> (r: Result<Option<IexMessage>, FeedError>)
        requires
            old(self).wf(),
        ensures
            final(self).wf(),
            final(self).spec_buffer() == old(self).spec_buffer(),
            final(self).spec_message_idx() >= old(self).spec_message_idx(),
            match spec_msg_next(
                old(self).spec_buffer(),
                old(self).spec_offset(),
                old(self).spec_message_count() - old(self).spec_message_idx(),
            ) {
                MsgStep::End => {
                    &&& r matches Ok(m) && m is None
                    &&& spec_msg_next(
                        final(self).spec_buffer(),
                        final(self).spec_offset(),
                        final(self).spec_message_count() - final(self).spec_message_idx(),
                    ) is End
                    &&& final(self).spec_skipped() == old(self).spec_skipped() + (
                    final(self).spec_message_idx() - old(self).spec_message_idx())
                },
                MsgStep::Violation => {
                    &&& r matches Err(e) && e == FeedError::FormatViolation
                    &&& spec_msg_next(
                        final(self).spec_buffer(),
                        final(self).spec_offset(),
                        final(self).spec_message_count() - final(self).spec_message_idx(),
                    ) is Violation
                    &&& final(self).spec_skipped() == old(self).spec_skipped() + (
                    final(self).spec_message_idx() - old(self).spec_message_idx())
                },
                MsgStep::Msg { at, len, next, rem } => {
                    &&& r matches Ok(m) && m matches Some(msg) && msg.wf() && msg.spec_bytes()
                        == old(self).spec_buffer().subrange(at, at + len) && msg.spec_tag()
                        == old(self).spec_buffer()[at]
                    &&& final(self).spec_offset() == next
                    &&& final(self).spec_message_count() - final(self).spec_message_idx() == rem
                    &&& final(self).spec_skipped() == old(self).spec_skipped() + (
                    final(self).spec_message_idx() - old(self).spec_message_idx()) - 1
                },
            },
    {
        let n: usize = self.buffer.len();
        let count: u16 = self.tp_header.message_count();
        proof {
            assert(self.spec_buffer().subrange(42, 82).subrange(14, 16) =~= self.spec_buffer()
                .subrange(56, 58));
        }
        loop
            invariant
                self.wf(),
                self.spec_buffer() == old(self).spec_buffer(),
                self.spec_headers_wf(),
                self.tp_header == old(self).tp_header,
                n == self.spec_buffer().len(),
                count == self.spec_message_count(),
                old(self).spec_message_idx() <= self.spec_message_idx(),
                self.spec_skipped() == old(self).spec_skipped() + (self.spec_message_idx() - old(
                    self,
                ).spec_message_idx()),
                spec_msg_next(
                    self.spec_buffer(),
                    self.spec_offset(),
                    self.spec_message_count() - self.spec_message_idx(),
                ) == spec_msg_next(
                    old(self).spec_buffer(),
                    old(self).spec_offset(),
                    old(self).spec_message_count() - old(self).spec_message_idx(),
                ),
            decreases self.spec_message_count() - self.spec_message_idx(),
        {
            if self.message_idx == count as usize {
                return Ok(None);
            }
            if n - self.offset < 2 {
                return Ok(None);
            }
            let l: u16 = read_u16_at(self.buffer, self.offset);
            if l == 0 {
                return Ok(None);
            }
            if n - self.offset < 3 {
                return Ok(None);
            }
            let tag: u8 = *slice_index_get(self.buffer, self.offset + 2);
            let l_us: usize = l as usize;
            match record_size(tag) {
                Some(sz) => {
                    if l != sz {
                        return Err(FeedError::FormatViolation);
                    }
                    if n - self.offset - 2 < l_us {
                        return Ok(None);
                    }
                    let rec = slice_subrange(self.buffer, self.offset + 2, self.offset + 2 + l_us);
                    let m = build_message(tag, rec);
                    self.offset = self.offset + 2 + l_us;
                    self.message_idx = self.message_idx + 1;
                    return Ok(Some(m));
                },
                None => {
                    if n - self.offset - 2 < l_us {
                        return Ok(None);
                    }
                    self.offset = self.offset + 2 + l_us;
                    self.message_idx = self.message_idx + 1;
                    self.skipped = self.skipped + 1;
                },
            }
        }
    }
}

} // verus!
