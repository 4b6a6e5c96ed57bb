//! Fixed-layout wire records as bounds-checked byte views.
//!
//! Every record shape of the capture container, the network envelope, the
//! transport protocol and the ten market-data message kinds is represented
//! the same way: a length-checked copy of its backing bytes, together with
//! accessors whose contracts state exactly which little-endian field of the
//! record each one returns.  No accessor can read past the record's fixed
//! size, and a constructor refuses a buffer that cannot hold the record.

use vstd::prelude::*;
use vstd::slice::slice_subrange;
use crate::wire::{le16_at, le32_at, le64_at, le64_signed_at, read_u16_at, read_u32_at,
    read_u64_at, read_i64_at, copy_range};

verus! {

/// The number of leading non-space bytes of `s`: the length of the logical
/// symbol held in a space-padded symbol field.
pub open spec fn spec_symbol_len(s: Seq<u8>) -> int
    decreases s.len(),
{
    if s.len() == 0 {
        0
    } else if s[0] == 32 {
        0
    } else {
        1 + spec_symbol_len(s.skip(1))
    }
}

/// The logical symbol held in a space-padded symbol field: the prefix that
/// precedes the first space byte, or all of `s` if no byte is a space.
pub open spec fn spec_symbol(s: Seq<u8>) -> Seq<u8> {
    s.subrange(0, spec_symbol_len(s))
}

/// The logical symbol fits its field, never holds a space byte and, unless
/// it fills the whole field, stops exactly at the field's first space.
pub proof fn lemma_symbol_len_bounds(s: Seq<u8>)
    ensures
        0 <= spec_symbol_len(s) <= s.len(),
        forall|j: int| 0 <= j < spec_symbol_len(s) ==> s[j] != 32,
        spec_symbol_len(s) < s.len() ==> s[spec_symbol_len(s)] == 32,
    decreases s.len(),
{
    if s.len() == 0 {
    } else if s[0] == 32 {
    } else {
        lemma_symbol_len_bounds(s.skip(1));
        assert forall|j: int| 0 <= j < spec_symbol_len(s) implies s[j] != 32 by {
            if j > 0 {
                assert(s.skip(1)[j - 1] != 32);
            }
        }
    }
}

/// A position `k` with no space before it, and a space (or the end) at it,
/// is the logical symbol's length.
pub proof fn lemma_symbol_len_is(s: Seq<u8>, k: int)
    requires
        0 <= k <= s.len(),
        forall|j: int| 0 <= j < k ==> s[j] != 32,
        k < s.len() ==> s[k] == 32,
    ensures
        spec_symbol_len(s) == k,
    decreases s.len(),
{
    if k == 0 {
    } else {
        assert(s[0] != 32);
        assert forall|j: int| 0 <= j < k - 1 implies s.skip(1)[j] != 32 by {
            assert(s[j + 1] != 32);
        }
        assert(k - 1 < s.skip(1).len() ==> s.skip(1)[k - 1] == 32);
        lemma_symbol_len_is(s.skip(1), k - 1);
    }
}

/// Trim the trailing space padding of a symbol field: return the prefix of
/// `b` that precedes its first space byte.
pub fn trim_symbol(b: &[u8]) -> (r: Vec<u8>)
    ensures
        r@ == spec_symbol(b@),
{
    let n: usize = b.len();
    let mut i: usize = 0;
    while i < n && *vstd::slice::slice_index_get(b, i) != 32
        invariant
            0 <= i <= n,
            n == b@.len(),
            forall|j: int| 0 <= j < i ==> b@[j] != 32,
        decreases n - i,
    {
        i += 1;
    }
    proof {
        lemma_symbol_len_is(b@, i as int);
    }
    copy_range(b, 0, i)
}

/// The 8-byte header that opens every capture-container block.
pub struct PcapngHeader {
    data: Vec<u8>,
}

impl View for PcapngHeader {
    type V = Seq<u8>;

    closed spec fn view(&self) -> Seq<u8> {
        self.data@
    }
}

impl PcapngHeader {
    /// A well-formed view holds exactly the record's 8 bytes.
    pub open spec fn wf(self) -> bool {
        self@.len() == 8
    }

    /// Bounds-checked view constructor over the leading 8 bytes of `b`.
    pub fn parse(b: &[u8]) -> (r: Option<PcapngHeader>)
        ensures
            r is Some <==> (b@.len() >= 8),
            r matches Some(x) ==> x@ == b@.subrange(0, 8) && x.wf(),
    {
        if b.len() >= 8 {
            Some(PcapngHeader { data: copy_range(b, 0, 8) })
        } else {
            None
        }
    }

    /// The raw wire bytes of this record.
    pub fn as_bytes(&self) -> (r: &[u8])
        ensures
            r@ == self@,
    {
        self.data.as_slice()
    }

    /// The block's 4-byte type tag.
    pub fn block_type(&self) -> (r: u32)
        requires
            self.wf(),
        ensures
            r == le32_at(self@, 0),
    {
        read_u32_at(self.data.as_slice(), 0)
    }

    /// The block's declared total length, trailing length echo included.
    pub fn block_total_length(&self) -> (r: u32)
        requires
            self.wf(),
        ensures
            r == le32_at(self@, 4),
    {
        read_u32_at(self.data.as_slice(), 4)
    }
}

/// The 20-byte sub-header of an enhanced-frame block.
pub struct PcapngEnhancedPacketBlock {
    data: Vec<u8>,
}

impl View for PcapngEnhancedPacketBlock {
    type V = Seq<u8>;

    closed spec fn view(&self) -> Seq<u8> {
        self.data@
    }
}

impl PcapngEnhancedPacketBlock {
    /// A well-formed view holds exactly the record's 20 bytes.
    pub open spec fn wf(self) -> bool {
        self@.len() == 20
    }

    /// Bounds-checked view constructor over the leading 20 bytes of `b`.
    pub fn parse(b: &[u8]) -> (r: Option<PcapngEnhancedPacketBlock>)
        ensures
            r is Some <==> (b@.len() >= 20),
            r matches Some(x) ==> x@ == b@.subrange(0, 20) && x.wf(),
    {
        if b.len() >= 20 {
            Some(PcapngEnhancedPacketBlock { data: copy_range(b, 0, 20) })
        } else {
            None
        }
    }

    /// The raw wire bytes of this record.
    pub fn as_bytes(&self) -> (r: &[u8])
        ensures
            r@ == self@,
    {
        self.data.as_slice()
    }

    /// The capture interface the frame was taken from.
    pub fn interface_id(&self) -> (r: u32)
        requires
            self.wf(),
        ensures
            r == le32_at(self@, 0),
    {
        read_u32_at(self.data.as_slice(), 0)
    }

    /// The upper half of the capture timestamp.
    pub fn timestamp_upper(&self) -> (r: u32)
        requires
            self.wf(),
        ensures
            r == le32_at(self@, 4),
    {
        read_u32_at(self.data.as_slice(), 4)
    }

    /// The lower half of the capture timestamp.
    pub fn timestamp_lower(&self) -> (r: u32)
        requires
            self.wf(),
        ensures
            r == le32_at(self@, 8),
    {
        read_u32_at(self.data.as_slice(), 8)
    }

    /// How many frame bytes the block carries.
    pub fn captured_packet_length(&self) -> (r: u32)
        requires
            self.wf(),
        ensures
            r == le32_at(self@, 12),
    {
        read_u32_at(self.data.as_slice(), 12)
    }

    /// The frame's length on the wire.
    pub fn original_packet_length(&self) -> (r: u32)
        requires
            self.wf(),
        ensures
            r == le32_at(self@, 16),
    {
        read_u32_at(self.data.as_slice(), 16)
    }
}

/// The body of a capture-container section header block.
pub struct PcapngSectionHeaderBlock {
    data: Vec<u8>,
}

impl View for PcapngSectionHeaderBlock {
    type V = Seq<u8>;

    closed spec fn view(&self) -> Seq<u8> {
        self.data@
    }
}

impl PcapngSectionHeaderBlock {
    /// A well-formed view holds exactly the record's 16 bytes.
    pub open spec fn wf(self) -> bool {
        self@.len() == 16
    }

    /// Bounds-checked view constructor over the leading 16 bytes of `b`.
    pub fn parse(b: &[u8]) -> (r: Option<PcapngSectionHeaderBlock>)
        ensures
            r is Some <==> (b@.len() >= 16),
            r matches Some(x) ==> x@ == b@.subrange(0, 16) && x.wf(),
    {
        if b.len() >= 16 {
            Some(PcapngSectionHeaderBlock { data: copy_range(b, 0, 16) })
        } else {
            None
        }
    }

    /// The raw wire bytes of this record.
    pub fn as_bytes(&self) -> (r: &[u8])
        ensures
            r@ == self@,
    {
        self.data.as_slice()
    }

    /// The byte-order magic number.
    pub fn byte_order_magic(&self) -> (r: u32)
        requires
            self.wf(),
        ensures
            r == le32_at(self@, 0),
    {
        read_u32_at(self.data.as_slice(), 0)
    }

    /// The container format's major version.
    pub fn major_version(&self) -> (r: u16)
        requires
            self.wf(),
        ensures
            r == le16_at(self@, 4),
    {
        read_u16_at(self.data.as_slice(), 4)
    }

    /// The container format's minor version.
    pub fn minor_version(&self) -> (r: u16)
        requires
            self.wf(),
        ensures
            r == le16_at(self@, 6),
    {
        read_u16_at(self.data.as_slice(), 6)
    }

    /// The declared section length.
    pub fn section_length(&self) -> (r: i64)
        requires
            self.wf(),
        ensures
            r == le64_signed_at(self@, 8),
    {
        read_i64_at(self.data.as_slice(), 8)
    }
}

/// The body of a capture-container interface description block.
pub struct PcapngInterfaceDescriptionBlock {
    data: Vec<u8>,
}

impl View for PcapngInterfaceDescriptionBlock {
    type V = Seq<u8>;

    closed spec fn view(&self) -> Seq<u8> {
        self.data@
    }
}

impl PcapngInterfaceDescriptionBlock {
    /// A well-formed view holds exactly the record's 8 bytes.
    pub open spec fn wf(self) -> bool {
        self@.len() == 8
    }

    /// Bounds-checked view constructor over the leading 8 bytes of `b`.
    pub fn parse(b: &[u8]) -> (r: Option<PcapngInterfaceDescriptionBlock>)
        ensures
            r is Some <==> (b@.len() >= 8),
            r matches Some(x) ==> x@ == b@.subrange(0, 8) && x.wf(),
    {
        if b.len() >= 8 {
            Some(PcapngInterfaceDescriptionBlock { data: copy_range(b, 0, 8) })
        } else {
            None
        }
    }

    /// The raw wire bytes of this record.
    pub fn as_bytes(&self) -> (r: &[u8])
        ensures
            r@ == self@,
    {
        self.data.as_slice()
    }

    /// The link-layer type of the interface.
    pub fn linktype(&self) -> (r: u16)
        requires
            self.wf(),
        ensures
            r == le16_at(self@, 0),
    {
        read_u16_at(self.data.as_slice(), 0)
    }

    /// Reserved bytes.
    pub fn reserved(&self) -> (r: u16)
        requires
            self.wf(),
        ensures
            r == le16_at(self@, 2),
    {
        read_u16_at(self.data.as_slice(), 2)
    }

    /// The capture length limit of the interface.
    pub fn snaplen(&self) -> (r: u32)
        requires
            self.wf(),
        ensures
            r == le32_at(self@, 4),
    {
        read_u32_at(self.data.as_slice(), 4)
    }
}

/// The 14-byte link-layer header at the front of every frame.
pub struct EthernetIIHeader {
    data: Vec<u8>,
}

impl View for EthernetIIHeader {
    type V = Seq<u8>;

    closed spec fn view(&self) -> Seq<u8> {
        self.data@
    }
}

impl EthernetIIHeader {
    /// A well-formed view holds exactly the record's 14 bytes.
    pub open spec fn wf(self) -> bool {
        self@.len() == 14
    }

    /// Bounds-checked view constructor over the leading 14 bytes of `b`.
    pub fn parse(b: &[u8]) -> (r: Option<EthernetIIHeader>)
        ensures
            r is Some <==> (b@.len() >= 14),
            r matches Some(x) ==> x@ == b@.subrange(0, 14) && x.wf(),
    {
        if b.len() >= 14 {
            Some(EthernetIIHeader { data: copy_range(b, 0, 14) })
        } else {
            None
        }
    }

    /// The raw wire bytes of this record.
    pub fn as_bytes(&self) -> (r: &[u8])
        ensures
            r@ == self@,
    {
        self.data.as_slice()
    }

    /// The destination hardware address.
    pub fn destination_mac(&self) -> (r: Vec<u8>)
        requires
            self.wf(),
        ensures
            r@ == self@.subrange(0, 6),
    {
        copy_range(self.data.as_slice(), 0, 6)
    }

    /// The source hardware address.
    pub fn source_mac(&self) -> (r: Vec<u8>)
        requires
            self.wf(),
        ensures
            r@ == self@.subrange(6, 12),
    {
        copy_range(self.data.as_slice(), 6, 6)
    }

    /// The payload protocol tag.
    pub fn ethertype(&self) -> (r: u16)
        requires
            self.wf(),
        ensures
            r == le16_at(self@, 12),
    {
        read_u16_at(self.data.as_slice(), 12)
    }
}

/// The 20-byte network header (no options) that follows the link header.
pub struct Ipv4Header {
    data: Vec<u8>,
}

impl View for Ipv4Header {
    type V = Seq<u8>;

    closed spec fn view(&self) -> Seq<u8> {
        self.data@
    }
}

impl Ipv4Header {
    /// A well-formed view holds exactly the record's 20 bytes.
    pub open spec fn wf(self) -> bool {
        self@.len() == 20
    }

    /// Bounds-checked view constructor over the leading 20 bytes of `b`.
    pub fn parse(b: &[u8]) -> (r: Option<Ipv4Header>)
        ensures
            r is Some <==> (b@.len() >= 20),
            r matches Some(x) ==> x@ == b@.subrange(0, 20) && x.wf(),
    {
        if b.len() >= 20 {
            Some(Ipv4Header { data: copy_range(b, 0, 20) })
        } else {
            None
        }
    }

    /// The raw wire bytes of this record.
    pub fn as_bytes(&self) -> (r: &[u8])
        ensures
            r@ == self@,
    {
        self.data.as_slice()
    }

    /// Version and header length nibbles.
    pub fn version_ihl(&self) -> (r: u8)
        requires
            self.wf(),
        ensures
            r == self@[0],
    {
        self.data[0]
    }

    /// Type of service.
    pub fn tos(&self) -> (r: u8)
        requires
            self.wf(),
        ensures
            r == self@[1],
    {
        self.data[1]
    }

    /// The datagram's declared total length.
    pub fn total_length(&self) -> (r: u16)
        requires
            self.wf(),
        ensures
            r == le16_at(self@, 2),
    {
        read_u16_at(self.data.as_slice(), 2)
    }

    /// The fragment identification field.
    pub fn identification(&self) -> (r: u16)
        requires
            self.wf(),
        ensures
            r == le16_at(self@, 4),
    {
        read_u16_at(self.data.as_slice(), 4)
    }

    /// Flags and fragment offset.
    pub fn flags_fragment_offset(&self) -> (r: u16)
        requires
            self.wf(),
        ensures
            r == le16_at(self@, 6),
    {
        read_u16_at(self.data.as_slice(), 6)
    }

    /// Time to live.
    pub fn ttl(&self) -> (r: u8)
        requires
            self.wf(),
        ensures
            r == self@[8],
    {
        self.data[8]
    }

    /// The payload protocol number.
    pub fn protocol(&self) -> (r: u8)
        requires
            self.wf(),
        ensures
            r == self@[9],
    {
        self.data[9]
    }

    /// The header checksum field.
    pub fn header_checksum(&self) -> (r: u16)
        requires
            self.wf(),
        ensures
            r == le16_at(self@, 10),
    {
        read_u16_at(self.data.as_slice(), 10)
    }

    /// The source address.
    pub fn source_ip(&self) -> (r: Vec<u8>)
        requires
            self.wf(),
        ensures
            r@ == self@.subrange(12, 16),
    {
        copy_range(self.data.as_slice(), 12, 4)
    }

    /// The destination address.
    pub fn destination_ip(&self) -> (r: Vec<u8>)
        requires
            self.wf(),
        ensures
            r@ == self@.subrange(16, 20),
    {
        copy_range(self.data.as_slice(), 16, 4)
    }
}

/// The 8-byte transport header that precedes the vendor payload.
pub struct UdpHeader {
    data: Vec<u8>,
}

impl View for UdpHeader {
    type V = Seq<u8>;

    closed spec fn view(&self) -> Seq<u8> {
        self.data@
    }
}

impl UdpHeader {
    /// A well-formed view holds exactly the record's 8 bytes.
    pub open spec fn wf(self) -> bool {
        self@.len() == 8
    }

    /// Bounds-checked view constructor over the leading 8 bytes of `b`.
    pub fn parse(b: &[u8]) -> (r: Option<UdpHeader>)
        ensures
            r is Some <==> (b@.len() >= 8),
            r matches Some(x) ==> x@ == b@.subrange(0, 8) && x.wf(),
    {
        if b.len() >= 8 {
            Some(UdpHeader { data: copy_range(b, 0, 8) })
        } else {
            None
        }
    }

    /// The raw wire bytes of this record.
    pub fn as_bytes(&self) -> (r: &[u8])
        ensures
            r@ == self@,
    {
        self.data.as_slice()
    }

    /// The source port.
    pub fn source_port(&self) -> (r: u16)
        requires
            self.wf(),
        ensures
            r == le16_at(self@, 0),
    {
        read_u16_at(self.data.as_slice(), 0)
    }

    /// The destination port.
    pub fn destination_port(&self) -> (r: u16)
        requires
            self.wf(),
        ensures
            r == le16_at(self@, 2),
    {
        read_u16_at(self.data.as_slice(), 2)
    }

    /// The datagram's declared length.
    pub fn length(&self) -> (r: u16)
        requires
            self.wf(),
        ensures
            r == le16_at(self@, 4),
    {
        read_u16_at(self.data.as_slice(), 4)
    }

    /// The datagram checksum field.
    pub fn checksum(&self) -> (r: u16)
        requires
            self.wf(),
        ensures
            r == le16_at(self@, 6),
    {
        read_u16_at(self.data.as_slice(), 6)
    }
}

/// The vendor transport protocol's 40-byte header; its message count bounds the message stream that follows it.
pub struct TransportProtocolHeader {
    data: Vec<u8>,
}

impl View for TransportProtocolHeader {
    type V = Seq<u8>;

    closed spec fn view(&self) -> Seq<u8> {
        self.data@
    }
}

impl TransportProtocolHeader {
    /// A well-formed view holds exactly the record's 40 bytes.
    pub open spec fn wf(self) -> bool {
        self@.len() == 40
    }

    /// Bounds-checked view constructor over the leading 40 bytes of `b`.
    pub fn parse(b: &[u8]) -> (r: Option<TransportProtocolHeader>)
        ensures
            r is Some <==> (b@.len() >= 40),
            r matches Some(x) ==> x@ == b@.subrange(0, 40) && x.wf(),
    {
        if b.len() >= 40 {
            Some(TransportProtocolHeader { data: copy_range(b, 0, 40) })
        } else {
            None
        }
    }

    /// The raw wire bytes of this record.
    pub fn as_bytes(&self) -> (r: &[u8])
        ensures
            r@ == self@,
    {
        self.data.as_slice()
    }

    /// The transport protocol version.
    pub fn version(&self) -> (r: u8)
        requires
            self.wf(),
        ensures
            r == self@[0],
    {
        self.data[0]
    }

    /// A reserved byte.
    pub fn reserved(&self) -> (r: u8)
        requires
            self.wf(),
        ensures
            r == self@[1],
    {
        self.data[1]
    }

    /// Which message protocol the payload carries.
    pub fn message_protocol_id(&self) -> (r: u16)
        requires
            self.wf(),
        ensures
            r == le16_at(self@, 2),
    {
        read_u16_at(self.data.as_slice(), 2)
    }

    /// The multicast channel identifier.
    pub fn channel_id(&self) -> (r: u32)
        requires
            self.wf(),
        ensures
            r == le32_at(self@, 4),
    {
        read_u32_at(self.data.as_slice(), 4)
    }

    /// The sending session identifier.
    pub fn session_id(&self) -> (r: u32)
        requires
            self.wf(),
        ensures
            r == le32_at(self@, 8),
    {
        read_u32_at(self.data.as_slice(), 8)
    }

    /// The declared length of the payload that follows the header.
    pub fn payload_length(&self) -> (r: u16)
        requires
            self.wf(),
        ensures
            r == le16_at(self@, 12),
    {
        read_u16_at(self.data.as_slice(), 12)
    }

    /// The exact upper bound on messages decodable from the rest of the frame.
    pub fn message_count(&self) -> (r: u16)
        requires
            self.wf(),
        ensures
            r == le16_at(self@, 14),
    {
        read_u16_at(self.data.as_slice(), 14)
    }

    /// The byte offset of the payload within the session's stream.
    pub fn stream_offset(&self) -> (r: i64)
        requires
            self.wf(),
        ensures
            r == le64_signed_at(self@, 16),
    {
        read_i64_at(self.data.as_slice(), 16)
    }

    /// The sequence number of the first message in the payload.
    pub fn first_message_sequence_number(&self) -> (r: i64)
        requires
            self.wf(),
        ensures
            r == le64_signed_at(self@, 24),
    {
        read_i64_at(self.data.as_slice(), 24)
    }

    /// The send timestamp.
    pub fn send_time(&self) -> (r: i64)
        requires
            self.wf(),
        ensures
            r == le64_signed_at(self@, 32),
    {
        read_i64_at(self.data.as_slice(), 32)
    }
}

/// The 2-byte length prefix in front of each message record.
pub struct MessageBlockHeader {
    data: Vec<u8>,
}

impl View for MessageBlockHeader {
    type V = Seq<u8>;

    closed spec fn view(&self) -> Seq<u8> {
        self.data@
    }
}

impl MessageBlockHeader {
    /// A well-formed view holds exactly the record's 2 bytes.
    pub open spec fn wf(self) -> bool {
        self@.len() == 2
    }

    /// Bounds-checked view constructor over the leading 2 bytes of `b`.
    pub fn parse(b: &[u8]) -> (r: Option<MessageBlockHeader>)
        ensures
            r is Some <==> (b@.len() >= 2),
            r matches Some(x) ==> x@ == b@.subrange(0, 2) && x.wf(),
    {
        if b.len() >= 2 {
            Some(MessageBlockHeader { data: copy_range(b, 0, 2) })
        } else {
            None
        }
    }

    /// The raw wire bytes of this record.
    pub fn as_bytes(&self) -> (r: &[u8])
        ensures
            r@ == self@,
    {
        self.data.as_slice()
    }

    /// The declared length of the record that follows.
    pub fn message_length(&self) -> (r: u16)
        requires
            self.wf(),
        ensures
            r == le16_at(self@, 0),
    {
        read_u16_at(self.data.as_slice(), 0)
    }
}

/// An administrative message marking a system-wide event.
pub struct SystemEventMessage {
    data: Vec<u8>,
}

impl View for SystemEventMessage {
    type V = Seq<u8>;

    closed spec fn view(&self) -> Seq<u8> {
        self.data@
    }
}

impl SystemEventMessage {
    /// A well-formed view holds exactly the record's 10 bytes.
    pub open spec fn wf(self) -> bool {
        self@.len() == 10
    }

    /// Bounds-checked view constructor over the leading 10 bytes of `b`.
    pub fn parse(b: &[u8]) -> (r: Option<SystemEventMessage>)
        ensures
            r is Some <==> (b@.len() >= 10),
            r matches Some(x) ==> x@ == b@.subrange(0, 10) && x.wf(),
    {
        if b.len() >= 10 {
            Some(SystemEventMessage { data: copy_range(b, 0, 10) })
        } else {
            None
        }
    }

    /// The raw wire bytes of this record.
    pub fn as_bytes(&self) -> (r: &[u8])
        ensures
            r@ == self@,
    {
        self.data.as_slice()
    }

    /// The tag byte identifying this message kind.
    pub fn message_type(&self) -> (r: u8)
        requires
            self.wf(),
        ensures
            r == self@[0],
    {
        self.data[0]
    }

    /// The system event code.
    pub fn system_event(&self) -> (r: u8)
        requires
            self.wf(),
        ensures
            r == self@[1],
    {
        self.data[1]
    }

    /// The event timestamp.
    pub fn timestamp(&self) -> (r: i64)
        requires
            self.wf(),
        ensures
            r == le64_signed_at(self@, 2),
    {
        read_i64_at(self.data.as_slice(), 2)
    }
}

/// An administrative message describing one listed security.
pub struct SecurityDirectoryMessage {
    data: Vec<u8>,
}

impl View for SecurityDirectoryMessage {
    type V = Seq<u8>;

    closed spec fn view(&self) -> Seq<u8> {
        self.data@
    }
}

impl SecurityDirectoryMessage {
    /// A well-formed view holds exactly the record's 31 bytes.
    pub open spec fn wf(self) -> bool {
        self@.len() == 31
    }

    /// Bounds-checked view constructor over the leading 31 bytes of `b`.
    pub fn parse(b: &[u8]) -> (r: Option<SecurityDirectoryMessage>)
        ensures
            r is Some <==> (b@.len() >= 31),
            r matches Some(x) ==> x@ == b@.subrange(0, 31) && x.wf(),
    {
        if b.len() >= 31 {
            Some(SecurityDirectoryMessage { data: copy_range(b, 0, 31) })
        } else {
            None
        }
    }

    /// The raw wire bytes of this record.
    pub fn as_bytes(&self) -> (r: &[u8])
        ensures
            r@ == self@,
    {
        self.data.as_slice()
    }

    /// The tag byte identifying this message kind.
    pub fn message_type(&self) -> (r: u8)
        requires
            self.wf(),
        ensures
            r == self@[0],
    {
        self.data[0]
    }

    /// The security's flag bits.
    pub fn flags(&self) -> (r: u8)
        requires
            self.wf(),
        ensures
            r == self@[1],
    {
        self.data[1]
    }

    /// The event timestamp.
    pub fn timestamp(&self) -> (r: i64)
        requires
            self.wf(),
        ensures
            r == le64_signed_at(self@, 2),
    {
        read_i64_at(self.data.as_slice(), 2)
    }

    /// The raw 8-byte, space-padded symbol field.
    pub fn symbol_bytes(&self) -> (r: Vec<u8>)
        requires
            self.wf(),
        ensures
            r@ == self@.subrange(10, 18),
    {
        copy_range(self.data.as_slice(), 10, 8)
    }

    /// The logical symbol: the prefix of the symbol field that precedes its
    /// first space byte.
    pub fn symbol(&self) -> (r: Vec<u8>)
        requires
            self.wf(),
        ensures
            r@ == spec_symbol(self@.subrange(10, 18)),
    {
        trim_symbol(slice_subrange(self.data.as_slice(), 10, 18))
    }

    /// The symbol field as its raw little-endian 8-byte integer, usable as a
    /// collision-free, allocation-free map key.
    pub fn symbol_key(&self) -> (r: u64)
        requires
            self.wf(),
        ensures
            r == le64_at(self@, 10),
    {
        read_u64_at(self.data.as_slice(), 10)
    }

    /// The security's round lot size.
    pub fn round_lot_size(&self) -> (r: u32)
        requires
            self.wf(),
        ensures
            r == le32_at(self@, 18),
    {
        read_u32_at(self.data.as_slice(), 18)
    }

    /// The adjusted previous official closing price.
    pub fn adjusted_poc_price(&self) -> (r: i64)
        requires
            self.wf(),
        ensures
            r == le64_signed_at(self@, 22),
    {
        read_i64_at(self.data.as_slice(), 22)
    }

    /// The limit-up/limit-down tier.
    pub fn luld_tier(&self) -> (r: u8)
        requires
            self.wf(),
        ensures
            r == self@[30],
    {
        self.data[30]
    }
}

/// An administrative message announcing a security's trading status.
pub struct TradingStatusMessage {
    data: Vec<u8>,
}

impl View for TradingStatusMessage {
    type V = Seq<u8>;

    closed spec fn view(&self) -> Seq<u8> {
        self.data@
    }
}

impl TradingStatusMessage {
    /// A well-formed view holds exactly the record's 22 bytes.
    pub open spec fn wf(self) -> bool {
        self@.len() == 22
    }

    /// Bounds-checked view constructor over the leading 22 bytes of `b`.
    pub fn parse(b: &[u8]) -> (r: Option<TradingStatusMessage>)
        ensures
            r is Some <==> (b@.len() >= 22),
            r matches Some(x) ==> x@ == b@.subrange(0, 22) && x.wf(),
    {
        if b.len() >= 22 {
            Some(TradingStatusMessage { data: copy_range(b, 0, 22) })
        } else {
            None
        }
    }

    /// The raw wire bytes of this record.
    pub fn as_bytes(&self) -> (r: &[u8])
        ensures
            r@ == self@,
    {
        self.data.as_slice()
    }

    /// The tag byte identifying this message kind.
    pub fn message_type(&self) -> (r: u8)
        requires
            self.wf(),
        ensures
            r == self@[0],
    {
        self.data[0]
    }

    /// The trading status code.
    pub fn trading_status(&self) -> (r: u8)
        requires
            self.wf(),
        ensures
            r == self@[1],
    {
        self.data[1]
    }

    /// The event timestamp.
    pub fn timestamp(&self) -> (r: i64)
        requires
            self.wf(),
        ensures
            r == le64_signed_at(self@, 2),
    {
        read_i64_at(self.data.as_slice(), 2)
    }

    /// The raw 8-byte, space-padded symbol field.
    pub fn symbol_bytes(&self) -> (r: Vec<u8>)
        requires
            self.wf(),
        ensures
            r@ == self@.subrange(10, 18),
    {
        copy_range(self.data.as_slice(), 10, 8)
    }

    /// The logical symbol: the prefix of the symbol field that precedes its
    /// first space byte.
    pub fn symbol(&self) -> (r: Vec<u8>)
        requires
            self.wf(),
        ensures
            r@ == spec_symbol(self@.subrange(10, 18)),
    {
        trim_symbol(slice_subrange(self.data.as_slice(), 10, 18))
    }

    /// The symbol field as its raw little-endian 8-byte integer, usable as a
    /// collision-free, allocation-free map key.
    pub fn symbol_key(&self) -> (r: u64)
        requires
            self.wf(),
        ensures
            r == le64_at(self@, 10),
    {
        read_u64_at(self.data.as_slice(), 10)
    }

    /// The 4-byte reason code.
    pub fn reason(&self) -> (r: Vec<u8>)
        requires
            self.wf(),
        ensures
            r@ == self@.subrange(18, 22),
    {
        copy_range(self.data.as_slice(), 18, 4)
    }
}

/// An administrative message carrying a retail liquidity indicator.
pub struct RetailLiquidityIndicatorMessage {
    data: Vec<u8>,
}

impl View for RetailLiquidityIndicatorMessage {
    type V = Seq<u8>;

    closed spec fn view(&self) -> Seq<u8> {
        self.data@
    }
}

impl RetailLiquidityIndicatorMessage {
    /// A well-formed view holds exactly the record's 18 bytes.
    pub open spec fn wf(self) -> bool {
        self@.len() == 18
    }

    /// Bounds-checked view constructor over the leading 18 bytes of `b`.
    pub fn parse(b: &[u8]) -> (r: Option<RetailLiquidityIndicatorMessage>)
        ensures
            r is Some <==> (b@.len() >= 18),
            r matches Some(x) ==> x@ == b@.subrange(0, 18) && x.wf(),
    {
        if b.len() >= 18 {
            Some(RetailLiquidityIndicatorMessage { data: copy_range(b, 0, 18) })
        } else {
            None
        }
    }

    /// The raw wire bytes of this record.
    pub fn as_bytes(&self) -> (r: &[u8])
        ensures
            r@ == self@,
    {
        self.data.as_slice()
    }

    /// The tag byte identifying this message kind.
    pub fn message_type(&self) -> (r: u8)
        requires
            self.wf(),
        ensures
            r == self@[0],
    {
        self.data[0]
    }

    /// The retail liquidity indicator code.
    pub fn retail_liquidity_indicator(&self) -> (r: u8)
        requires
            self.wf(),
        ensures
            r == self@[1],
    {
        self.data[1]
    }

    /// The event timestamp.
    pub fn timestamp(&self) -> (r: i64)
        requires
            self.wf(),
        ensures
            r == le64_signed_at(self@, 2),
    {
        read_i64_at(self.data.as_slice(), 2)
    }

    /// The raw 8-byte, space-padded symbol field.
    pub fn symbol_bytes(&self) -> (r: Vec<u8>)
        requires
            self.wf(),
        ensures
            r@ == self@.subrange(10, 18),
    {
        copy_range(self.data.as_slice(), 10, 8)
    }

    /// The logical symbol: the prefix of the symbol field that precedes its
    /// first space byte.
    pub fn symbol(&self) -> (r: Vec<u8>)
        requires
            self.wf(),
        ensures
            r@ == spec_symbol(self@.subrange(10, 18)),
    {
        trim_symbol(slice_subrange(self.data.as_slice(), 10, 18))
    }

    /// The symbol field as its raw little-endian 8-byte integer, usable as a
    /// collision-free, allocation-free map key.
    pub fn symbol_key(&self) -> (r: u64)
        requires
            self.wf(),
        ensures
            r == le64_at(self@, 10),
    {
        read_u64_at(self.data.as_slice(), 10)
    }
}

/// An administrative message announcing an operational halt status.
pub struct OperationalHaltStatusMessage {
    data: Vec<u8>,
}

impl View for OperationalHaltStatusMessage {
    type V = Seq<u8>;

    closed spec fn view(&self) -> Seq<u8> {
        self.data@
    }
}

impl OperationalHaltStatusMessage {
    /// A well-formed view holds exactly the record's 18 bytes.
    pub open spec fn wf(self) -> bool {
        self@.len() == 18
    }

    /// Bounds-checked view constructor over the leading 18 bytes of `b`.
    pub fn parse(b: &[u8]) -> (r: Option<OperationalHaltStatusMessage>)
        ensures
            r is Some <==> (b@.len() >= 18),
            r matches Some(x) ==> x@ == b@.subrange(0, 18) && x.wf(),
    {
        if b.len() >= 18 {
            Some(OperationalHaltStatusMessage { data: copy_range(b, 0, 18) })
        } else {
            None
        }
    }

    /// The raw wire bytes of this record.
    pub fn as_bytes(&self) -> (r: &[u8])
        ensures
            r@ == self@,
    {
        self.data.as_slice()
    }

    /// The tag byte identifying this message kind.
    pub fn message_type(&self) -> (r: u8)
        requires
            self.wf(),
        ensures
            r == self@[0],
    {
        self.data[0]
    }

    /// The operational halt status code.
    pub fn operational_halt_status(&self) -> (r: u8)
        requires
            self.wf(),
        ensures
            r == self@[1],
    {
        self.data[1]
    }

    /// The event timestamp.
    pub fn timestamp(&self) -> (r: i64)
        requires
            self.wf(),
        ensures
            r == le64_signed_at(self@, 2),
    {
        read_i64_at(self.data.as_slice(), 2)
    }

    /// The raw 8-byte, space-padded symbol field.
    pub fn symbol_bytes(&self) -> (r: Vec<u8>)
        requires
            self.wf(),
        ensures
            r@ == self@.subrange(10, 18),
    {
        copy_range(self.data.as_slice(), 10, 8)
    }

    /// The logical symbol: the prefix of the symbol field that precedes its
    /// first space byte.
    pub fn symbol(&self) -> (r: Vec<u8>)
        requires
            self.wf(),
        ensures
            r@ == spec_symbol(self@.subrange(10, 18)),
    {
        trim_symbol(slice_subrange(self.data.as_slice(), 10, 18))
    }

    /// The symbol field as its raw little-endian 8-byte integer, usable as a
    /// collision-free, allocation-free map key.
    pub fn symbol_key(&self) -> (r: u64)
        requires
            self.wf(),
        ensures
            r == le64_at(self@, 10),
    {
        read_u64_at(self.data.as_slice(), 10)
    }
}

/// An administrative message announcing a short-sale price test status.
pub struct ShortSalePriceTestStatusMessage {
    data: Vec<u8>,
}

impl View for ShortSalePriceTestStatusMessage {
    type V = Seq<u8>;

    closed spec fn view(&self) -> Seq<u8> {
        self.data@
    }
}

impl ShortSalePriceTestStatusMessage {
    /// A well-formed view holds exactly the record's 19 bytes.
    pub open spec fn wf(self) -> bool {
        self@.len() == 19
    }

    /// Bounds-checked view constructor over the leading 19 bytes of `b`.
    pub fn parse(b: &[u8]) -> (r: Option<ShortSalePriceTestStatusMessage>)
        ensures
            r is Some <==> (b@.len() >= 19),
            r matches Some(x) ==> x@ == b@.subrange(0, 19) && x.wf(),
    {
        if b.len() >= 19 {
            Some(ShortSalePriceTestStatusMessage { data: copy_range(b, 0, 19) })
        } else {
            None
        }
    }

    /// The raw wire bytes of this record.
    pub fn as_bytes(&self) -> (r: &[u8])
        ensures
            r@ == self@,
    {
        self.data.as_slice()
    }

    /// The tag byte identifying this message kind.
    pub fn message_type(&self) -> (r: u8)
        requires
            self.wf(),
        ensures
            r == self@[0],
    {
        self.data[0]
    }

    /// The short-sale price test status code.
    pub fn short_sale_price_test_status(&self) -> (r: u8)
        requires
            self.wf(),
        ensures
            r == self@[1],
    {
        self.data[1]
    }

    /// The event timestamp.
    pub fn timestamp(&self) -> (r: i64)
        requires
            self.wf(),
        ensures
            r == le64_signed_at(self@, 2),
    {
        read_i64_at(self.data.as_slice(), 2)
    }

    /// The raw 8-byte, space-padded symbol field.
    pub fn symbol_bytes(&self) -> (r: Vec<u8>)
        requires
            self.wf(),
        ensures
            r@ == self@.subrange(10, 18),
    {
        copy_range(self.data.as_slice(), 10, 8)
    }

    /// The logical symbol: the prefix of the symbol field that precedes its
    /// first space byte.
    pub fn symbol(&self) -> (r: Vec<u8>)
        requires
            self.wf(),
        ensures
            r@ == spec_symbol(self@.subrange(10, 18)),
    {
        trim_symbol(slice_subrange(self.data.as_slice(), 10, 18))
    }

    /// The symbol field as its raw little-endian 8-byte integer, usable as a
    /// collision-free, allocation-free map key.
    pub fn symbol_key(&self) -> (r: u64)
        requires
            self.wf(),
        ensures
            r == le64_at(self@, 10),
    {
        read_u64_at(self.data.as_slice(), 10)
    }

    /// The status detail byte.
    pub fn detail(&self) -> (r: u8)
        requires
            self.wf(),
        ensures
            r == self@[18],
    {
        self.data[18]
    }
}

/// A trading message carrying a security's best bid and offer.
pub struct QuoteUpdateMessage {
    data: Vec<u8>,
}

impl View for QuoteUpdateMessage {
    type V = Seq<u8>;

    closed spec fn view(&self) -> Seq<u8> {
        self.data@
    }
}

impl QuoteUpdateMessage {
    /// A well-formed view holds exactly the record's 42 bytes.
    pub open spec fn wf(self) -> bool {
        self@.len() == 42
    }

    /// Bounds-checked view constructor over the leading 42 bytes of `b`.
    pub fn parse(b: &[u8]) -> (r: Option<QuoteUpdateMessage>)
        ensures
            r is Some <==> (b@.len() >= 42),
            r matches Some(x) ==> x@ == b@.subrange(0, 42) && x.wf(),
    {
        if b.len() >= 42 {
            Some(QuoteUpdateMessage { data: copy_range(b, 0, 42) })
        } else {
            None
        }
    }

    /// The raw wire bytes of this record.
    pub fn as_bytes(&self) -> (r: &[u8])
        ensures
            r@ == self@,
    {
        self.data.as_slice()
    }

    /// The tag byte identifying this message kind.
    pub fn message_type(&self) -> (r: u8)
        requires
            self.wf(),
        ensures
            r == self@[0],
    {
        self.data[0]
    }

    /// The quote's flag bits.
    pub fn flags(&self) -> (r: u8)
        requires
            self.wf(),
        ensures
            r == self@[1],
    {
        self.data[1]
    }

    /// The event timestamp.
    pub fn timestamp(&self) -> (r: i64)
        requires
            self.wf(),
        ensures
            r == le64_signed_at(self@, 2),
    {
        read_i64_at(self.data.as_slice(), 2)
    }

    /// The raw 8-byte, space-padded symbol field.
    pub fn symbol_bytes(&self) -> (r: Vec<u8>)
        requires
            self.wf(),
        ensures
            r@ == self@.subrange(10, 18),
    {
        copy_range(self.data.as_slice(), 10, 8)
    }

    /// The logical symbol: the prefix of the symbol field that precedes its
    /// first space byte.
    pub fn symbol(&self) -> (r: Vec<u8>)
        requires
            self.wf(),
        ensures
            r@ == spec_symbol(self@.subrange(10, 18)),
    {
        trim_symbol(slice_subrange(self.data.as_slice(), 10, 18))
    }

    /// The symbol field as its raw little-endian 8-byte integer, usable as a
    /// collision-free, allocation-free map key.
    pub fn symbol_key(&self) -> (r: u64)
        requires
            self.wf(),
        ensures
            r == le64_at(self@, 10),
    {
        read_u64_at(self.data.as_slice(), 10)
    }

    /// The size at the best bid.
    pub fn bid_size(&self) -> (r: u32)
        requires
            self.wf(),
        ensures
            r == le32_at(self@, 18),
    {
        read_u32_at(self.data.as_slice(), 18)
    }

    /// The best bid price, fixed-point.
    pub fn bid_price(&self) -> (r: i64)
        requires
            self.wf(),
        ensures
            r == le64_signed_at(self@, 22),
    {
        read_i64_at(self.data.as_slice(), 22)
    }

    /// The best ask price, fixed-point.
    pub fn ask_price(&self) -> (r: i64)
        requires
            self.wf(),
        ensures
            r == le64_signed_at(self@, 30),
    {
        read_i64_at(self.data.as_slice(), 30)
    }

    /// The size at the best ask.
    pub fn ask_size(&self) -> (r: u32)
        requires
            self.wf(),
        ensures
            r == le32_at(self@, 38),
    {
        read_u32_at(self.data.as_slice(), 38)
    }
}

/// A trading message reporting one executed trade.
pub struct TradeReportMessage {
    data: Vec<u8>,
}

impl View for TradeReportMessage {
    type V = Seq<u8>;

    closed spec fn view(&self) -> Seq<u8> {
        self.data@
    }
}

impl TradeReportMessage {
    /// A well-formed view holds exactly the record's 38 bytes.
    pub open spec fn wf(self) -> bool {
        self@.len() == 38
    }

    /// Bounds-checked view constructor over the leading 38 bytes of `b`.
    pub fn parse(b: &[u8]) -> (r: Option<TradeReportMessage>)
        ensures
            r is Some <==> (b@.len() >= 38),
            r matches Some(x) ==> x@ == b@.subrange(0, 38) && x.wf(),
    {
        if b.len() >= 38 {
            Some(TradeReportMessage { data: copy_range(b, 0, 38) })
        } else {
            None
        }
    }

    /// The raw wire bytes of this record.
    pub fn as_bytes(&self) -> (r: &[u8])
        ensures
            r@ == self@,
    {
        self.data.as_slice()
    }

    /// The tag byte identifying this message kind.
    pub fn message_type(&self) -> (r: u8)
        requires
            self.wf(),
        ensures
            r == self@[0],
    {
        self.data[0]
    }

    /// The trade's sale condition flag bits.
    pub fn sale_condition_flags(&self) -> (r: u8)
        requires
            self.wf(),
        ensures
            r == self@[1],
    {
        self.data[1]
    }

    /// The event timestamp.
    pub fn timestamp(&self) -> (r: i64)
        requires
            self.wf(),
        ensures
            r == le64_signed_at(self@, 2),
    {
        read_i64_at(self.data.as_slice(), 2)
    }

    /// The raw 8-byte, space-padded symbol field.
    pub fn symbol_bytes(&self) -> (r: Vec<u8>)
        requires
            self.wf(),
        ensures
            r@ == self@.subrange(10, 18),
    {
        copy_range(self.data.as_slice(), 10, 8)
    }

    /// The logical symbol: the prefix of the symbol field that precedes its
    /// first space byte.
    pub fn symbol(&self) -> (r: Vec<u8>)
        requires
            self.wf(),
        ensures
            r@ == spec_symbol(self@.subrange(10, 18)),
    {
        trim_symbol(slice_subrange(self.data.as_slice(), 10, 18))
    }

    /// The symbol field as its raw little-endian 8-byte integer, usable as a
    /// collision-free, allocation-free map key.
    pub fn symbol_key(&self) -> (r: u64)
        requires
            self.wf(),
        ensures
            r == le64_at(self@, 10),
    {
        read_u64_at(self.data.as_slice(), 10)
    }

    /// The traded size.
    pub fn size(&self) -> (r: u32)
        requires
            self.wf(),
        ensures
            r == le32_at(self@, 18),
    {
        read_u32_at(self.data.as_slice(), 18)
    }

    /// The trade price, fixed-point.
    pub fn price(&self) -> (r: i64)
        requires
            self.wf(),
        ensures
            r == le64_signed_at(self@, 22),
    {
        read_i64_at(self.data.as_slice(), 22)
    }

    /// The trade's unique identifier.
    pub fn trade_id(&self) -> (r: i64)
        requires
            self.wf(),
        ensures
            r == le64_signed_at(self@, 30),
    {
        read_i64_at(self.data.as_slice(), 30)
    }
}

/// A trading message publishing an official price.
pub struct OfficialPriceMessage {
    data: Vec<u8>,
}

impl View for OfficialPriceMessage {
    type V = Seq<u8>;

    closed spec fn view(&self) -> Seq<u8> {
        self.data@
    }
}

impl OfficialPriceMessage {
    /// A well-formed view holds exactly the record's 26 bytes.
    pub open spec fn wf(self) -> bool {
        self@.len() == 26
    }

    /// Bounds-checked view constructor over the leading 26 bytes of `b`.
    pub fn parse(b: &[u8]) -> (r: Option<OfficialPriceMessage>)
        ensures
            r is Some <==> (b@.len() >= 26),
            r matches Some(x) ==> x@ == b@.subrange(0, 26) && x.wf(),
    {
        if b.len() >= 26 {
            Some(OfficialPriceMessage { data: copy_range(b, 0, 26) })
        } else {
            None
        }
    }

    /// The raw wire bytes of this record.
    pub fn as_bytes(&self) -> (r: &[u8])
        ensures
            r@ == self@,
    {
        self.data.as_slice()
    }

    /// The tag byte identifying this message kind.
    pub fn message_type(&self) -> (r: u8)
        requires
            self.wf(),
        ensures
            r == self@[0],
    {
        self.data[0]
    }

    /// Which official price this is.
    pub fn price_type(&self) -> (r: u8)
        requires
            self.wf(),
        ensures
            r == self@[1],
    {
        self.data[1]
    }

    /// The event timestamp.
    pub fn timestamp(&self) -> (r: i64)
        requires
            self.wf(),
        ensures
            r == le64_signed_at(self@, 2),
    {
        read_i64_at(self.data.as_slice(), 2)
    }

    /// The raw 8-byte, space-padded symbol field.
    pub fn symbol_bytes(&self) -> (r: Vec<u8>)
        requires
            self.wf(),
        ensures
            r@ == self@.subrange(10, 18),
    {
        copy_range(self.data.as_slice(), 10, 8)
    }

    /// The logical symbol: the prefix of the symbol field that precedes its
    /// first space byte.
    pub fn symbol(&self) -> (r: Vec<u8>)
        requires
            self.wf(),
        ensures
            r@ == spec_symbol(self@.subrange(10, 18)),
    {
        trim_symbol(slice_subrange(self.data.as_slice(), 10, 18))
    }

    /// The symbol field as its raw little-endian 8-byte integer, usable as a
    /// collision-free, allocation-free map key.
    pub fn symbol_key(&self) -> (r: u64)
        requires
            self.wf(),
        ensures
            r == le64_at(self@, 10),
    {
        read_u64_at(self.data.as_slice(), 10)
    }

    /// The official price, fixed-point.
    pub fn official_price(&self) -> (r: i64)
        requires
            self.wf(),
        ensures
            r == le64_signed_at(self@, 18),
    {
        read_i64_at(self.data.as_slice(), 18)
    }
}

/// A trading message breaking (cancelling) a previously reported trade.
pub struct TradeBreakMessage {
    data: Vec<u8>,
}

impl View for TradeBreakMessage {
    type V = Seq<u8>;

    closed spec fn view(&self) -> Seq<u8> {
        self.data@
    }
}

impl TradeBreakMessage {
    /// A well-formed view holds exactly the record's 38 bytes.
    pub open spec fn wf(self) -> bool {
        self@.len() == 38
    }

    /// Bounds-checked view constructor over the leading 38 bytes of `b`.
    pub fn parse(b: &[u8]) -> (r: Option<TradeBreakMessage>)
        ensures
            r is Some <==> (b@.len() >= 38),
            r matches Some(x) ==> x@ == b@.subrange(0, 38) && x.wf(),
    {
        if b.len() >= 38 {
            Some(TradeBreakMessage { data: copy_range(b, 0, 38) })
        } else {
            None
        }
    }

    /// The raw wire bytes of this record.
    pub fn as_bytes(&self) -> (r: &[u8])
        ensures
            r@ == self@,
    {
        self.data.as_slice()
    }

    /// The tag byte identifying this message kind.
    pub fn message_type(&self) -> (r: u8)
        requires
            self.wf(),
        ensures
            r == self@[0],
    {
        self.data[0]
    }

    /// The broken trade's sale condition flag bits.
    pub fn sale_condition_flags(&self) -> (r: u8)
        requires
            self.wf(),
        ensures
            r == self@[1],
    {
        self.data[1]
    }

    /// The event timestamp.
    pub fn timestamp(&self) -> (r: i64)
        requires
            self.wf(),
        ensures
            r == le64_signed_at(self@, 2),
    {
        read_i64_at(self.data.as_slice(), 2)
    }

    /// The raw 8-byte, space-padded symbol field.
    pub fn symbol_bytes(&self) -> (r: Vec<u8>)
        requires
            self.wf(),
        ensures
            r@ == self@.subrange(10, 18),
    {
        copy_range(self.data.as_slice(), 10, 8)
    }

    /// The logical symbol: the prefix of the symbol field that precedes its
    /// first space byte.
    pub fn symbol(&self) -> (r: Vec<u8>)
        requires
            self.wf(),
        ensures
            r@ == spec_symbol(self@.subrange(10, 18)),
    {
        trim_symbol(slice_subrange(self.data.as_slice(), 10, 18))
    }

    /// The symbol field as its raw little-endian 8-byte integer, usable as a
    /// collision-free, allocation-free map key.
    pub fn symbol_key(&self) -> (r: u64)
        requires
            self.wf(),
        ensures
            r == le64_at(self@, 10),
    {
        read_u64_at(self.data.as_slice(), 10)
    }

    /// The broken trade's size.
    pub fn size(&self) -> (r: u32)
        requires
            self.wf(),
        ensures
            r == le32_at(self@, 18),
    {
        read_u32_at(self.data.as_slice(), 18)
    }

    /// The broken trade's price, fixed-point.
    pub fn price(&self) -> (r: i64)
        requires
            self.wf(),
        ensures
            r == le64_signed_at(self@, 22),
    {
        read_i64_at(self.data.as_slice(), 22)
    }

    /// The identifier of the trade being broken.
    pub fn trade_id(&self) -> (r: i64)
        requires
            self.wf(),
        ensures
            r == le64_signed_at(self@, 30),
    {
        read_i64_at(self.data.as_slice(), 30)
    }
}

/// An auction message carrying the state of an ongoing auction.
pub struct AuctionInformationMessage {
    data: Vec<u8>,
}

impl View for AuctionInformationMessage {
    type V = Seq<u8>;

    closed spec fn view(&self) -> Seq<u8> {
        self.data@
    }
}

impl AuctionInformationMessage {
    /// A well-formed view holds exactly the record's 80 bytes.
    pub open spec fn wf(self) -> bool {
        self@.len() == 80
    }

    /// Bounds-checked view constructor over the leading 80 bytes of `b`.
    pub fn parse(b: &[u8]) -> (r: Option<AuctionInformationMessage>)
        ensures
            r is Some <==> (b@.len() >= 80),
            r matches Some(x) ==> x@ == b@.subrange(0, 80) && x.wf(),
    {
        if b.len() >= 80 {
            Some(AuctionInformationMessage { data: copy_range(b, 0, 80) })
        } else {
            None
        }
    }

    /// The raw wire bytes of this record.
    pub fn as_bytes(&self) -> (r: &[u8])
        ensures
            r@ == self@,
    {
        self.data.as_slice()
    }

    /// The tag byte identifying this message kind.
    pub fn message_type(&self) -> (r: u8)
        requires
            self.wf(),
        ensures
            r == self@[0],
    {
        self.data[0]
    }

    /// Which auction this describes.
    pub fn auction_type(&self) -> (r: u8)
        requires
            self.wf(),
        ensures
            r == self@[1],
    {
        self.data[1]
    }

    /// The event timestamp.
    pub fn timestamp(&self) -> (r: i64)
        requires
            self.wf(),
        ensures
            r == le64_signed_at(self@, 2),
    {
        read_i64_at(self.data.as_slice(), 2)
    }

    /// The raw 8-byte, space-padded symbol field.
    pub fn symbol_bytes(&self) -> (r: Vec<u8>)
        requires
            self.wf(),
        ensures
            r@ == self@.subrange(10, 18),
    {
        copy_range(self.data.as_slice(), 10, 8)
    }

    /// The logical symbol: the prefix of the symbol field that precedes its
    /// first space byte.
    pub fn symbol(&self) -> (r: Vec<u8>)
        requires
            self.wf(),
        ensures
            r@ == spec_symbol(self@.subrange(10, 18)),
    {
        trim_symbol(slice_subrange(self.data.as_slice(), 10, 18))
    }

    /// The symbol field as its raw little-endian 8-byte integer, usable as a
    /// collision-free, allocation-free map key.
    pub fn symbol_key(&self) -> (r: u64)
        requires
            self.wf(),
        ensures
            r == le64_at(self@, 10),
    {
        read_u64_at(self.data.as_slice(), 10)
    }

    /// The number of paired shares.
    pub fn paired_shares(&self) -> (r: u32)
        requires
            self.wf(),
        ensures
            r == le32_at(self@, 18),
    {
        read_u32_at(self.data.as_slice(), 18)
    }

    /// The auction reference price, fixed-point.
    pub fn reference_price(&self) -> (r: i64)
        requires
            self.wf(),
        ensures
            r == le64_signed_at(self@, 22),
    {
        read_i64_at(self.data.as_slice(), 22)
    }

    /// The indicative clearing price, fixed-point.
    pub fn indicative_clearing_price(&self) -> (r: i64)
        requires
            self.wf(),
        ensures
            r == le64_signed_at(self@, 30),
    {
        read_i64_at(self.data.as_slice(), 30)
    }

    /// The number of imbalance shares.
    pub fn imbalance_shares(&self) -> (r: u32)
        requires
            self.wf(),
        ensures
            r == le32_at(self@, 38),
    {
        read_u32_at(self.data.as_slice(), 38)
    }

    /// Which side the imbalance is on.
    pub fn imbalance_side(&self) -> (r: u8)
        requires
            self.wf(),
        ensures
            r == self@[42],
    {
        self.data[42]
    }

    /// How often the auction has been extended.
    pub fn extension_number(&self) -> (r: u8)
        requires
            self.wf(),
        ensures
            r == self@[43],
    {
        self.data[43]
    }

    /// The scheduled auction time.
    pub fn scheduled_auction_time(&self) -> (r: u32)
        requires
            self.wf(),
        ensures
            r == le32_at(self@, 44),
    {
        read_u32_at(self.data.as_slice(), 44)
    }

    /// The auction book clearing price, fixed-point.
    pub fn auction_book_clearing_price(&self) -> (r: i64)
        requires
            self.wf(),
        ensures
            r == le64_signed_at(self@, 48),
    {
        read_i64_at(self.data.as_slice(), 48)
    }

    /// The collar reference price, fixed-point.
    pub fn collar_reference_price(&self) -> (r: i64)
        requires
            self.wf(),
        ensures
            r == le64_signed_at(self@, 56),
    {
        read_i64_at(self.data.as_slice(), 56)
    }

    /// The lower auction collar price, fixed-point.
    pub fn lower_auction_collar(&self) -> (r: i64)
        requires
            self.wf(),
        ensures
            r == le64_signed_at(self@, 64),
    {
        read_i64_at(self.data.as_slice(), 64)
    }

    /// The upper auction collar price, fixed-point.
    pub fn upper_auction_collar(&self) -> (r: i64)
        requires
            self.wf(),
        ensures
            r == le64_signed_at(self@, 72),
    {
        read_i64_at(self.data.as_slice(), 72)
    }
}

} // verus!
