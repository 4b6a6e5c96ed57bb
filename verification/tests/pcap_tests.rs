use convert_pcap::pcap_parser::{PcapData, PcapParser};
use convert_pcap::FeedError;

fn enhanced_block(frame: &[u8], options: &[u8]) -> Vec<u8> {
    let total = (8 + 20 + frame.len() + options.len() + 4) as u32;
    let mut v = Vec::new();
    v.extend_from_slice(&6u32.to_le_bytes());
    v.extend_from_slice(&total.to_le_bytes());
    v.extend_from_slice(&0u32.to_le_bytes());
    v.extend_from_slice(&11u32.to_le_bytes());
    v.extend_from_slice(&22u32.to_le_bytes());
    v.extend_from_slice(&(frame.len() as u32).to_le_bytes());
    v.extend_from_slice(&(frame.len() as u32).to_le_bytes());
    v.extend_from_slice(frame);
    v.extend_from_slice(options);
    v.extend_from_slice(&total.to_le_bytes());
    v
}

fn opaque_block(block_type: u32, body: &[u8]) -> Vec<u8> {
    let mut v = Vec::new();
    v.extend_from_slice(&block_type.to_le_bytes());
    v.extend_from_slice(&((8 + body.len()) as u32).to_le_bytes());
    v.extend_from_slice(body);
    v
}

#[test]
fn empty_container_ends_cleanly() {
    let buf: Vec<u8> = Vec::new();
    let mut p = PcapParser::new(&buf);
    assert!(matches!(p.next(), Ok(None)));
}

#[test]
fn truncated_block_header_ends_cleanly() {
    let buf = [6u8, 0, 0];
    let mut p = PcapParser::new(&buf);
    assert!(matches!(p.next(), Ok(None)));
}

#[test]
fn opaque_blocks_are_skipped() {
    let frame = [9u8; 90];
    let mut buf = opaque_block(0x0A0D_0D0A, &[0u8; 16]);
    buf.extend_from_slice(&opaque_block(1, &[0u8; 12]));
    buf.extend_from_slice(&enhanced_block(&frame, &[]));
    let mut p = PcapParser::new(&buf);
    match p.next() {
        Ok(Some(PcapData::EnhancedPacketBlock(_, _, packet, _))) => {
            assert_eq!(packet, frame.to_vec());
        }
        _ => panic!("expected an enhanced-frame block"),
    }
    assert!(matches!(p.next(), Ok(None)));
}

#[test]
fn frame_pieces_match_declared_ranges() {
    let frame = [7u8; 100];
    let options = [1u8, 2, 3, 4];
    let buf = enhanced_block(&frame, &options);
    let mut p = PcapParser::new(&buf);
    match p.next() {
        Ok(Some(PcapData::EnhancedPacketBlock(header, sub, packet, opts))) => {
            assert_eq!(header.block_type(), 6);
            assert_eq!(header.block_total_length(), buf.len() as u32);
            assert_eq!(sub.timestamp_upper(), 11);
            assert_eq!(sub.timestamp_lower(), 22);
            assert_eq!(sub.captured_packet_length(), 100);
            assert_eq!(sub.original_packet_length(), 100);
            assert_eq!(packet, frame.to_vec());
            assert_eq!(opts, options.to_vec());
        }
        _ => panic!("expected an enhanced-frame block"),
    }
}

#[test]
fn captured_length_mismatch_is_violation() {
    let frame = [7u8; 50];
    let mut buf = enhanced_block(&frame, &[]);
    // Declare an original length that disagrees with the captured length.
    buf[24..28].copy_from_slice(&51u32.to_le_bytes());
    let mut p = PcapParser::new(&buf);
    assert!(matches!(p.next(), Err(FeedError::FormatViolation)));
}

#[test]
fn violation_halts_block_sequence() {
    let good = [7u8; 50];
    let mut bad = enhanced_block(&good, &[]);
    bad[24..28].copy_from_slice(&51u32.to_le_bytes());
    bad.extend_from_slice(&enhanced_block(&good, &[]));
    let mut p = PcapParser::new(&bad);
    assert!(matches!(p.next(), Err(FeedError::FormatViolation)));
    // The cursor did not move past the malformed block.
    assert!(matches!(p.next(), Err(FeedError::FormatViolation)));
}

#[test]
fn declared_length_shorter_than_header_is_violation() {
    let mut buf = Vec::new();
    buf.extend_from_slice(&1u32.to_le_bytes());
    buf.extend_from_slice(&4u32.to_le_bytes());
    buf.extend_from_slice(&[0u8; 32]);
    let mut p = PcapParser::new(&buf);
    assert!(matches!(p.next(), Err(FeedError::FormatViolation)));
}

#[test]
fn truncated_packet_ends_cleanly() {
    let frame = [7u8; 50];
    let block = enhanced_block(&frame, &[]);
    // Drop the trailing length echo and part of the frame.
    let truncated = &block[..block.len() - 30];
    let mut p = PcapParser::new(truncated);
    assert!(matches!(p.next(), Ok(None)));
}

#[test]
fn parse_reads_and_advances() {
    let buf = [1u8, 2, 3, 4, 5];
    let mut p = PcapParser::new(&buf);
    assert_eq!(p.parse(2), Some(vec![1, 2]));
    assert_eq!(p.parse(2), Some(vec![3, 4]));
    assert_eq!(p.parse(2), None);
    assert_eq!(p.parse(1), Some(vec![5]));
}

#[test]
fn take_buffer_reads_and_advances() {
    let buf = [1u8, 2, 3, 4, 5];
    let mut p = PcapParser::new(&buf);
    assert_eq!(p.take_buffer(3), Some(&buf[0..3]));
    assert_eq!(p.take_buffer(3), None);
    assert_eq!(p.take_buffer(2), Some(&buf[3..5]));
}
