use convert_pcap::structs::{
    AuctionInformationMessage, EthernetIIHeader, Ipv4Header, MessageBlockHeader,
    OfficialPriceMessage, OperationalHaltStatusMessage, PcapngEnhancedPacketBlock, PcapngHeader,
    PcapngInterfaceDescriptionBlock, PcapngSectionHeaderBlock, QuoteUpdateMessage,
    RetailLiquidityIndicatorMessage, SecurityDirectoryMessage, ShortSalePriceTestStatusMessage,
    SystemEventMessage, TradeBreakMessage, TradeReportMessage, TradingStatusMessage, UdpHeader,
};
use convert_pcap::wire::{read_i64_at, read_u16_at, read_u32_at, read_u64_at};

fn sym(s: &str) -> [u8; 8] {
    let mut a = [b' '; 8];
    for (i, b) in s.bytes().enumerate() {
        a[i] = b;
    }
    a
}

fn trade_record(symbol: [u8; 8], size: u32, price: i64, trade_id: i64) -> Vec<u8> {
    let mut v = Vec::new();
    v.push(b'T');
    v.push(0x40);
    v.extend_from_slice(&1_650_000_000_000_000_000i64.to_le_bytes());
    v.extend_from_slice(&symbol);
    v.extend_from_slice(&size.to_le_bytes());
    v.extend_from_slice(&price.to_le_bytes());
    v.extend_from_slice(&trade_id.to_le_bytes());
    v
}

fn quote_record(symbol: [u8; 8], bid_size: u32, bid: i64, ask: i64, ask_size: u32) -> Vec<u8> {
    let mut v = Vec::new();
    v.push(b'Q');
    v.push(0x00);
    v.extend_from_slice(&1_650_000_000_000_000_001i64.to_le_bytes());
    v.extend_from_slice(&symbol);
    v.extend_from_slice(&bid_size.to_le_bytes());
    v.extend_from_slice(&bid.to_le_bytes());
    v.extend_from_slice(&ask.to_le_bytes());
    v.extend_from_slice(&ask_size.to_le_bytes());
    v
}

#[test]
fn wire_reads_little_endian_fields() {
    let b = [0x34u8, 0x12, 0x78, 0x56, 0x01, 0x00, 0x00, 0x00, 0xff, 0xff];
    assert_eq!(read_u16_at(&b, 0), 0x1234);
    assert_eq!(read_u32_at(&b, 0), 0x56781234);
    assert_eq!(read_u64_at(&b, 0), 0x0000000156781234);
    assert_eq!(read_u16_at(&b, 2), 0x5678);
}

#[test]
fn wire_reads_signed_fields() {
    let b = (-5i64).to_le_bytes();
    assert_eq!(read_i64_at(&b, 0), -5);
}

#[test]
fn trade_report_decodes_fields() {
    let rec = trade_record(sym("AAPL"), 100, 250_050, 987_654_321);
    let t = TradeReportMessage::parse(&rec).unwrap();
    assert_eq!(t.message_type(), b'T');
    assert_eq!(t.sale_condition_flags(), 0x40);
    assert_eq!(t.timestamp(), 1_650_000_000_000_000_000);
    assert_eq!(t.size(), 100);
    assert_eq!(t.price(), 250_050);
    assert_eq!(t.trade_id(), 987_654_321);
    assert_eq!(t.symbol_bytes(), b"AAPL    ".to_vec());
}

#[test]
fn trade_report_symbol_trims_padding() {
    let rec = trade_record(sym("AAPL"), 1, 1, 1);
    let t = TradeReportMessage::parse(&rec).unwrap();
    assert_eq!(t.symbol(), b"AAPL".to_vec());
}

#[test]
fn symbol_without_padding_is_full_width() {
    let rec = trade_record(sym("ABCDEFGH"), 1, 1, 1);
    let t = TradeReportMessage::parse(&rec).unwrap();
    assert_eq!(t.symbol(), b"ABCDEFGH".to_vec());
}

#[test]
fn symbol_key_is_raw_little_endian_integer() {
    let rec = trade_record(sym("AAPL"), 1, 1, 1);
    let t = TradeReportMessage::parse(&rec).unwrap();
    assert_eq!(t.symbol_key(), u64::from_le_bytes(*b"AAPL    "));
}

#[test]
fn trade_report_rejects_short_buffer() {
    let rec = trade_record(sym("AAPL"), 1, 1, 1);
    assert!(TradeReportMessage::parse(&rec[..37]).is_none());
}

#[test]
fn trade_report_accepts_on_length_alone() {
    // The view constructor length-checks only; the stream decoder is what
    // dispatches on the tag byte.
    let mut rec = trade_record(sym("AAPL"), 1, 1, 1);
    rec[0] = b'Z';
    let t = TradeReportMessage::parse(&rec).unwrap();
    assert_eq!(t.message_type(), b'Z');
}

#[test]
fn quote_update_decodes_fields() {
    let rec = quote_record(sym("MSFT"), 300, 99_990, 100_010, 200);
    let q = QuoteUpdateMessage::parse(&rec).unwrap();
    assert_eq!(q.message_type(), b'Q');
    assert_eq!(q.flags(), 0);
    assert_eq!(q.timestamp(), 1_650_000_000_000_000_001);
    assert_eq!(q.symbol(), b"MSFT".to_vec());
    assert_eq!(q.bid_size(), 300);
    assert_eq!(q.bid_price(), 99_990);
    assert_eq!(q.ask_price(), 100_010);
    assert_eq!(q.ask_size(), 200);
}

#[test]
fn system_event_decodes_fields() {
    let mut rec = Vec::new();
    rec.push(b'S');
    rec.push(b'O');
    rec.extend_from_slice(&42i64.to_le_bytes());
    let m = SystemEventMessage::parse(&rec).unwrap();
    assert_eq!(m.message_type(), b'S');
    assert_eq!(m.system_event(), b'O');
    assert_eq!(m.timestamp(), 42);
}

#[test]
fn security_directory_decodes_fields() {
    let mut rec = Vec::new();
    rec.push(b'D');
    rec.push(0x80);
    rec.extend_from_slice(&7i64.to_le_bytes());
    rec.extend_from_slice(&sym("ZIEXT"));
    rec.extend_from_slice(&100u32.to_le_bytes());
    rec.extend_from_slice(&123_400i64.to_le_bytes());
    rec.push(2);
    let m = SecurityDirectoryMessage::parse(&rec).unwrap();
    assert_eq!(m.flags(), 0x80);
    assert_eq!(m.symbol(), b"ZIEXT".to_vec());
    assert_eq!(m.round_lot_size(), 100);
    assert_eq!(m.adjusted_poc_price(), 123_400);
    assert_eq!(m.luld_tier(), 2);
}

#[test]
fn trading_status_decodes_fields() {
    let mut rec = Vec::new();
    rec.push(b'H');
    rec.push(b'T');
    rec.extend_from_slice(&9i64.to_le_bytes());
    rec.extend_from_slice(&sym("IBM"));
    rec.extend_from_slice(b"NA  ");
    let m = TradingStatusMessage::parse(&rec).unwrap();
    assert_eq!(m.trading_status(), b'T');
    assert_eq!(m.symbol(), b"IBM".to_vec());
    assert_eq!(m.reason(), b"NA  ".to_vec());
}

#[test]
fn retail_liquidity_indicator_decodes_fields() {
    let mut rec = Vec::new();
    rec.push(b'I');
    rec.push(b'A');
    rec.extend_from_slice(&3i64.to_le_bytes());
    rec.extend_from_slice(&sym("GE"));
    let m = RetailLiquidityIndicatorMessage::parse(&rec).unwrap();
    assert_eq!(m.retail_liquidity_indicator(), b'A');
    assert_eq!(m.symbol(), b"GE".to_vec());
}

#[test]
fn operational_halt_decodes_fields() {
    let mut rec = Vec::new();
    rec.push(b'O');
    rec.push(b'N');
    rec.extend_from_slice(&4i64.to_le_bytes());
    rec.extend_from_slice(&sym("TSLA"));
    let m = OperationalHaltStatusMessage::parse(&rec).unwrap();
    assert_eq!(m.operational_halt_status(), b'N');
    assert_eq!(m.symbol(), b"TSLA".to_vec());
}

#[test]
fn short_sale_price_test_decodes_fields() {
    let mut rec = Vec::new();
    rec.push(b'P');
    rec.push(1);
    rec.extend_from_slice(&5i64.to_le_bytes());
    rec.extend_from_slice(&sym("AMD"));
    rec.push(b'A');
    let m = ShortSalePriceTestStatusMessage::parse(&rec).unwrap();
    assert_eq!(m.short_sale_price_test_status(), 1);
    assert_eq!(m.symbol(), b"AMD".to_vec());
    assert_eq!(m.detail(), b'A');
}

#[test]
fn official_price_decodes_fields() {
    let mut rec = Vec::new();
    rec.push(b'X');
    rec.push(b'Q');
    rec.extend_from_slice(&6i64.to_le_bytes());
    rec.extend_from_slice(&sym("SPY"));
    rec.extend_from_slice(&400_000i64.to_le_bytes());
    let m = OfficialPriceMessage::parse(&rec).unwrap();
    assert_eq!(m.price_type(), b'Q');
    assert_eq!(m.symbol(), b"SPY".to_vec());
    assert_eq!(m.official_price(), 400_000);
}

#[test]
fn trade_break_decodes_fields() {
    let mut rec = trade_record(sym("NFLX"), 50, 33_000, 777);
    rec[0] = b'B';
    let m = TradeBreakMessage::parse(&rec).unwrap();
    assert_eq!(m.sale_condition_flags(), 0x40);
    assert_eq!(m.symbol(), b"NFLX".to_vec());
    assert_eq!(m.size(), 50);
    assert_eq!(m.price(), 33_000);
    assert_eq!(m.trade_id(), 777);
}

#[test]
fn auction_information_decodes_fields() {
    let mut rec = Vec::new();
    rec.push(b'A');
    rec.push(b'O');
    rec.extend_from_slice(&8i64.to_le_bytes());
    rec.extend_from_slice(&sym("QQQ"));
    rec.extend_from_slice(&1000u32.to_le_bytes());
    rec.extend_from_slice(&10i64.to_le_bytes());
    rec.extend_from_slice(&11i64.to_le_bytes());
    rec.extend_from_slice(&500u32.to_le_bytes());
    rec.push(b'B');
    rec.push(1);
    rec.extend_from_slice(&34_200u32.to_le_bytes());
    rec.extend_from_slice(&12i64.to_le_bytes());
    rec.extend_from_slice(&13i64.to_le_bytes());
    rec.extend_from_slice(&14i64.to_le_bytes());
    rec.extend_from_slice(&15i64.to_le_bytes());
    assert_eq!(rec.len(), 80);
    let m = AuctionInformationMessage::parse(&rec).unwrap();
    assert_eq!(m.auction_type(), b'O');
    assert_eq!(m.symbol(), b"QQQ".to_vec());
    assert_eq!(m.paired_shares(), 1000);
    assert_eq!(m.reference_price(), 10);
    assert_eq!(m.indicative_clearing_price(), 11);
    assert_eq!(m.imbalance_shares(), 500);
    assert_eq!(m.imbalance_side(), b'B');
    assert_eq!(m.extension_number(), 1);
    assert_eq!(m.scheduled_auction_time(), 34_200);
    assert_eq!(m.auction_book_clearing_price(), 12);
    assert_eq!(m.collar_reference_price(), 13);
    assert_eq!(m.lower_auction_collar(), 14);
    assert_eq!(m.upper_auction_collar(), 15);
}

#[test]
fn header_structs_decode_fields() {
    let mut b = Vec::new();
    b.extend_from_slice(&6u32.to_le_bytes());
    b.extend_from_slice(&128u32.to_le_bytes());
    let h = PcapngHeader::parse(&b).unwrap();
    assert_eq!(h.block_type(), 6);
    assert_eq!(h.block_total_length(), 128);

    let mut e = Vec::new();
    e.extend_from_slice(&1u32.to_le_bytes());
    e.extend_from_slice(&2u32.to_le_bytes());
    e.extend_from_slice(&3u32.to_le_bytes());
    e.extend_from_slice(&90u32.to_le_bytes());
    e.extend_from_slice(&90u32.to_le_bytes());
    let epb = PcapngEnhancedPacketBlock::parse(&e).unwrap();
    assert_eq!(epb.interface_id(), 1);
    assert_eq!(epb.timestamp_upper(), 2);
    assert_eq!(epb.timestamp_lower(), 3);
    assert_eq!(epb.captured_packet_length(), 90);
    assert_eq!(epb.original_packet_length(), 90);

    let mut s = Vec::new();
    s.extend_from_slice(&0x1A2B3C4Du32.to_le_bytes());
    s.extend_from_slice(&1u16.to_le_bytes());
    s.extend_from_slice(&0u16.to_le_bytes());
    s.extend_from_slice(&(-1i64).to_le_bytes());
    let shb = PcapngSectionHeaderBlock::parse(&s).unwrap();
    assert_eq!(shb.byte_order_magic(), 0x1A2B3C4D);
    assert_eq!(shb.major_version(), 1);
    assert_eq!(shb.minor_version(), 0);
    assert_eq!(shb.section_length(), -1);

    let mut i = Vec::new();
    i.extend_from_slice(&1u16.to_le_bytes());
    i.extend_from_slice(&0u16.to_le_bytes());
    i.extend_from_slice(&65535u32.to_le_bytes());
    let idb = PcapngInterfaceDescriptionBlock::parse(&i).unwrap();
    assert_eq!(idb.linktype(), 1);
    assert_eq!(idb.snaplen(), 65535);

    let mb = MessageBlockHeader::parse(&38u16.to_le_bytes()).unwrap();
    assert_eq!(mb.message_length(), 38);
}

#[test]
fn envelope_structs_decode_fields() {
    let mut eth = Vec::new();
    eth.extend_from_slice(&[1, 2, 3, 4, 5, 6]);
    eth.extend_from_slice(&[7, 8, 9, 10, 11, 12]);
    eth.extend_from_slice(&0x0008u16.to_le_bytes());
    let e = EthernetIIHeader::parse(&eth).unwrap();
    assert_eq!(e.destination_mac(), vec![1, 2, 3, 4, 5, 6]);
    assert_eq!(e.source_mac(), vec![7, 8, 9, 10, 11, 12]);
    assert_eq!(e.ethertype(), 8);

    let ip = [
        0x45u8, 0, 0, 100, 0, 1, 0, 0, 64, 17, 0xAB, 0xCD, 10, 0, 0, 1, 10, 0, 0, 2,
    ];
    let v4 = Ipv4Header::parse(&ip).unwrap();
    assert_eq!(v4.version_ihl(), 0x45);
    assert_eq!(v4.ttl(), 64);
    assert_eq!(v4.protocol(), 17);
    assert_eq!(v4.source_ip(), vec![10, 0, 0, 1]);
    assert_eq!(v4.destination_ip(), vec![10, 0, 0, 2]);

    let mut ub = Vec::new();
    ub.extend_from_slice(&10_000u16.to_le_bytes());
    ub.extend_from_slice(&10_001u16.to_le_bytes());
    ub.extend_from_slice(&48u16.to_le_bytes());
    ub.extend_from_slice(&0u16.to_le_bytes());
    let u = UdpHeader::parse(&ub).unwrap();
    assert_eq!(u.source_port(), 10_000);
    assert_eq!(u.destination_port(), 10_001);
    assert_eq!(u.length(), 48);
    assert_eq!(u.checksum(), 0);
}

#[test]
fn as_bytes_returns_backing_record() {
    let rec = trade_record(sym("AAPL"), 100, 250_050, 987_654_321);
    let t = TradeReportMessage::parse(&rec).unwrap();
    assert_eq!(t.as_bytes(), &rec[..]);
}
