use convert_pcap::catalog::{category, known_tag, record_size, MessageCategory};
use convert_pcap::iex::{envelope_offset, AdmninMessage, IexGenerator, IexMessage, TradingMessage};
use convert_pcap::FeedError;

fn sym(s: &str) -> [u8; 8] {
    let mut a = [b' '; 8];
    for (i, b) in s.bytes().enumerate() {
        a[i] = b;
    }
    a
}

fn trade_record(symbol: [u8; 8], size: u32, price: i64, trade_id: i64) -> Vec<u8> {
    let mut v = Vec::new();
    v.push(b'T');
    v.push(0x40);
    v.extend_from_slice(&1_650_000_000_000_000_000i64.to_le_bytes());
    v.extend_from_slice(&symbol);
    v.extend_from_slice(&size.to_le_bytes());
    v.extend_from_slice(&price.to_le_bytes());
    v.extend_from_slice(&trade_id.to_le_bytes());
    v
}

fn quote_record(symbol: [u8; 8]) -> Vec<u8> {
    let mut v = Vec::new();
    v.push(b'Q');
    v.push(0x00);
    v.extend_from_slice(&1_650_000_000_000_000_001i64.to_le_bytes());
    v.extend_from_slice(&symbol);
    v.extend_from_slice(&300u32.to_le_bytes());
    v.extend_from_slice(&99_990i64.to_le_bytes());
    v.extend_from_slice(&100_010i64.to_le_bytes());
    v.extend_from_slice(&200u32.to_le_bytes());
    v
}

fn system_event_record() -> Vec<u8> {
    let mut v = Vec::new();
    v.push(b'S');
    v.push(b'O');
    v.extend_from_slice(&42i64.to_le_bytes());
    v
}

/// The fixed 42-byte link/network/transport envelope followed by the vendor
/// transport protocol's 40-byte header.
fn envelope(message_count: u16) -> Vec<u8> {
    let mut v = vec![0u8; 14];
    v.extend_from_slice(&[
        0x45, 0, 0, 100, 0, 1, 0, 0, 64, 17, 0, 0, 10, 0, 0, 1, 10, 0, 0, 2,
    ]);
    v.extend_from_slice(&[0x27, 0x10, 0x27, 0x11, 0, 48, 0, 0]);
    v.push(1);
    v.push(0);
    v.extend_from_slice(&0x8003u16.to_le_bytes());
    v.extend_from_slice(&5u32.to_le_bytes());
    v.extend_from_slice(&0xDEAD_BEEFu32.to_le_bytes());
    v.extend_from_slice(&0u16.to_le_bytes());
    v.extend_from_slice(&message_count.to_le_bytes());
    v.extend_from_slice(&4096i64.to_le_bytes());
    v.extend_from_slice(&100i64.to_le_bytes());
    v.extend_from_slice(&1_650_000_000_000_000_002i64.to_le_bytes());
    v
}

fn frame(message_count: u16, records: &[Vec<u8>]) -> Vec<u8> {
    let mut v = envelope(message_count);
    for r in records {
        v.extend_from_slice(&(r.len() as u16).to_le_bytes());
        v.extend_from_slice(r);
    }
    v
}

#[test]
fn catalog_sizes_match_fixed_layouts() {
    assert_eq!(record_size(b'S'), Some(10));
    assert_eq!(record_size(b'D'), Some(31));
    assert_eq!(record_size(b'H'), Some(22));
    assert_eq!(record_size(b'I'), Some(18));
    assert_eq!(record_size(b'O'), Some(18));
    assert_eq!(record_size(b'P'), Some(19));
    assert_eq!(record_size(b'Q'), Some(42));
    assert_eq!(record_size(b'T'), Some(38));
    assert_eq!(record_size(b'X'), Some(26));
    assert_eq!(record_size(b'B'), Some(38));
    assert_eq!(record_size(b'A'), Some(80));
    assert_eq!(record_size(b'Z'), None);
    assert!(known_tag(b'T'));
    assert!(!known_tag(b'Z'));
}

#[test]
fn catalog_categories_group_the_kinds() {
    for tag in [b'S', b'D', b'H', b'I', b'O', b'P'] {
        assert_eq!(category(tag), Some(MessageCategory::Admin));
    }
    for tag in [b'Q', b'T', b'X', b'B'] {
        assert_eq!(category(tag), Some(MessageCategory::Trading));
    }
    assert_eq!(category(b'A'), Some(MessageCategory::Auction));
    assert_eq!(category(b'z'), None);
}

#[test]
fn frame_shorter_than_envelope_is_violation() {
    let buf = [0u8; 50];
    assert!(matches!(
        IexGenerator::new(&buf),
        Err(FeedError::FormatViolation)
    ));
}

#[test]
fn transport_header_fields_are_exposed() {
    let buf = frame(0, &[]);
    let gen = IexGenerator::new(&buf).unwrap();
    let tp = gen.transport_header();
    assert_eq!(tp.version(), 1);
    assert_eq!(tp.message_protocol_id(), 0x8003);
    assert_eq!(tp.channel_id(), 5);
    assert_eq!(tp.session_id(), 0xDEAD_BEEF);
    assert_eq!(tp.message_count(), 0);
    assert_eq!(tp.stream_offset(), 4096);
    assert_eq!(tp.first_message_sequence_number(), 100);
    assert_eq!(tp.send_time(), 1_650_000_000_000_000_002);
    assert_eq!(gen.udp_header().source_port(), 0x1027);
    assert_eq!(gen.ipv4_header().ttl(), 64);
    assert_eq!(gen.ethernet_header().ethertype(), 0);
}

#[test]
fn stream_yields_typed_messages_in_order() {
    let recs = vec![
        trade_record(sym("AAPL"), 100, 250_050, 1),
        quote_record(sym("AAPL")),
        system_event_record(),
    ];
    let buf = frame(3, &recs);
    let mut gen = IexGenerator::new(&buf).unwrap();
    match gen.next() {
        Ok(Some(IexMessage::TradingMessage(TradingMessage::TradeReportMessage(t)))) => {
            assert_eq!(t.symbol(), b"AAPL".to_vec());
            assert_eq!(t.price(), 250_050);
        }
        _ => panic!("expected a trade report first"),
    }
    match gen.next() {
        Ok(Some(IexMessage::TradingMessage(TradingMessage::QuoteUpdateMessage(q)))) => {
            assert_eq!(q.bid_size(), 300);
        }
        _ => panic!("expected a quote update second"),
    }
    match gen.next() {
        Ok(Some(IexMessage::AdminMessage(AdmninMessage::SystemEventMessage(s)))) => {
            assert_eq!(s.system_event(), b'O');
        }
        _ => panic!("expected a system event third"),
    }
    assert!(matches!(gen.next(), Ok(None)));
    assert_eq!(gen.messages_consumed(), 3);
    assert_eq!(gen.skipped_count(), 0);
}

#[test]
fn trade_report_symbol_decodes_logical_value() {
    let buf = frame(1, &[trade_record(sym("AAPL"), 1, 1, 1)]);
    let mut gen = IexGenerator::new(&buf).unwrap();
    match gen.next() {
        Ok(Some(IexMessage::TradingMessage(TradingMessage::TradeReportMessage(t)))) => {
            assert_eq!(t.symbol(), b"AAPL".to_vec());
        }
        _ => panic!("expected a trade report"),
    }
}

#[test]
fn quote_length_mismatch_is_violation() {
    // A quote update record whose declared length is 40, not 42.
    let rec = quote_record(sym("AAPL"));
    let mut buf = envelope(1);
    buf.extend_from_slice(&40u16.to_le_bytes());
    buf.extend_from_slice(&rec[..40]);
    let mut gen = IexGenerator::new(&buf).unwrap();
    assert!(matches!(gen.next(), Err(FeedError::FormatViolation)));
    // The violation halts this message stream: the stream stays failed.
    assert!(matches!(gen.next(), Err(FeedError::FormatViolation)));
}

#[test]
fn unknown_tag_is_skipped_and_counted() {
    let mut unknown = vec![b'Z'];
    unknown.extend_from_slice(&[0xEE; 11]);
    let recs = vec![unknown, system_event_record()];
    let buf = frame(2, &recs);
    let mut gen = IexGenerator::new(&buf).unwrap();
    match gen.next() {
        Ok(Some(IexMessage::AdminMessage(AdmninMessage::SystemEventMessage(s)))) => {
            assert_eq!(s.timestamp(), 42);
        }
        _ => panic!("the record after the skipped one must still be yielded"),
    }
    assert_eq!(gen.skipped_count(), 1);
    assert_eq!(gen.messages_consumed(), 2);
    assert!(matches!(gen.next(), Ok(None)));
}

#[test]
fn stream_is_bounded_by_message_count() {
    // Two well-formed records but a declared count of one: the second stays
    // unconsumed trailing bytes.
    let recs = vec![system_event_record(), system_event_record()];
    let buf = frame(1, &recs);
    let mut gen = IexGenerator::new(&buf).unwrap();
    assert!(matches!(gen.next(), Ok(Some(_))));
    assert!(matches!(gen.next(), Ok(None)));
    assert!(matches!(gen.next(), Ok(None)));
    assert_eq!(gen.messages_consumed(), 1);
}

#[test]
fn zero_length_record_ends_stream() {
    let mut buf = envelope(3);
    buf.extend_from_slice(&(10u16).to_le_bytes());
    buf.extend_from_slice(&system_event_record());
    buf.extend_from_slice(&0u16.to_le_bytes());
    buf.extend_from_slice(&(10u16).to_le_bytes());
    buf.extend_from_slice(&system_event_record());
    let mut gen = IexGenerator::new(&buf).unwrap();
    assert!(matches!(gen.next(), Ok(Some(_))));
    assert!(matches!(gen.next(), Ok(None)));
    assert_eq!(gen.messages_consumed(), 1);
}

#[test]
fn truncated_record_ends_stream() {
    let rec = trade_record(sym("AAPL"), 1, 1, 1);
    let mut buf = envelope(1);
    buf.extend_from_slice(&38u16.to_le_bytes());
    buf.extend_from_slice(&rec[..20]);
    let mut gen = IexGenerator::new(&buf).unwrap();
    assert!(matches!(gen.next(), Ok(None)));
}

#[test]
fn generator_helpers_read_at_cursor() {
    let buf = frame(1, &[system_event_record()]);
    let mut gen = IexGenerator::new(&buf).unwrap();
    assert_eq!(gen.peek_buffer(2), Some(&buf[82..84]));
    assert_eq!(gen.take_buffer(2), Some(&buf[82..84]));
    assert_eq!(gen.take_parse(10), Some(buf[84..94].to_vec()));
    assert_eq!(gen.take_parse(1), None);
    assert_eq!(gen.parse(&buf[84..94], 10), Some(buf[84..94].to_vec()));
    assert_eq!(gen.parse(&buf[84..94], 11), None);
}

#[test]
fn envelope_offset_is_fixed_or_fails() {
    assert_eq!(envelope_offset(&[0u8; 42]), Ok(42));
    assert_eq!(envelope_offset(&[0u8; 100]), Ok(42));
    assert_eq!(envelope_offset(&[0u8; 41]), Err(FeedError::FormatViolation));
}

#[test]
fn unknown_tag_at_end_of_stream() {
    let mut unknown = vec![b'Z'];
    unknown.extend_from_slice(&[0xEE; 5]);
    let recs = vec![system_event_record(), unknown];
    let buf = frame(2, &recs);
    let mut gen = IexGenerator::new(&buf).unwrap();
    assert!(matches!(gen.next(), Ok(Some(_))));
    assert!(matches!(gen.next(), Ok(None)));
    assert_eq!(gen.skipped_count(), 1);
    assert_eq!(gen.messages_consumed(), 2);
}
