use cs2_demo_core::{CS2DemoCore, DemoError, ProtobufParser};

#[test]
fn test_demo_core_creation() {
    let demo_core = CS2DemoCore::new();
    // Just verify the demo core was created successfully
    assert!(std::mem::size_of_val(&demo_core) > 0);
}

#[test]
fn test_demo_core_default() {
    let demo_core = CS2DemoCore::default();
    // Just verify the demo core was created successfully
    assert!(std::mem::size_of_val(&demo_core) > 0);
}

#[test]
fn test_protobuf_parser_creation() {
    let data = vec![1, 2, 3, 4];
    let parser = ProtobufParser::new(data);
    assert_eq!(parser.position(), 0);
    assert_eq!(parser.data_len(), 4);
}

#[test]
fn test_read_u8() {
    let data = vec![1, 2, 3, 4];
    let mut parser = ProtobufParser::new(data);

    assert_eq!(parser.read_u8().unwrap(), 1);
    assert_eq!(parser.read_u8().unwrap(), 2);
    assert_eq!(parser.position(), 2);
}

#[test]
fn test_read_u32() {
    let data = vec![1, 0, 0, 0, 2, 0, 0, 0];
    let mut parser = ProtobufParser::new(data);

    assert_eq!(parser.read_u32().unwrap(), 1);
    assert_eq!(parser.read_u32().unwrap(), 2);
    assert_eq!(parser.position(), 8);
}

#[test]
fn test_read_u64_value() {
    let data = vec![9, 0, 0, 0, 0, 0, 0, 1];
    let mut parser = ProtobufParser::new(data);
    assert_eq!(parser.read_u64().unwrap(), 9 | (1u64 << 56));
    assert_eq!(parser.position(), 8);
}

#[test]
fn test_read_varint_values() {
    // 1-byte, 2-byte and 5-byte encodings
    let data = vec![0x05, 0xAC, 0x02, 0xFF, 0xFF, 0xFF, 0xFF, 0x0F];
    let mut parser = ProtobufParser::new(data);
    assert_eq!(parser.read_varint().unwrap(), 5);
    assert_eq!(parser.read_varint().unwrap(), 300);
    assert_eq!(parser.read_varint().unwrap(), u32::MAX);
}

#[test]
fn test_read_varint_overflow() {
    let data = vec![0xFF, 0xFF, 0xFF, 0xFF, 0xFF];
    let mut parser = ProtobufParser::new(data);
    assert_eq!(parser.read_varint(), Err(DemoError::VarintOverflow));
}

#[test]
fn test_read_past_end() {
    let mut parser = ProtobufParser::new(vec![1, 2]);
    assert_eq!(parser.read_u32(), Err(DemoError::UnexpectedEnd));
    assert_eq!(parser.read_u64(), Err(DemoError::UnexpectedEnd));
    assert_eq!(parser.read_bytes(3).unwrap_err(), DemoError::UnexpectedEnd);
    let mut empty = ProtobufParser::new(vec![]);
    assert_eq!(empty.read_u8(), Err(DemoError::UnexpectedEnd));
    assert_eq!(empty.read_varint(), Err(DemoError::UnexpectedEnd));
}

#[test]
fn test_read_bytes_slice() {
    let mut parser = ProtobufParser::new(vec![10, 11, 12, 13]);
    assert_eq!(parser.read_u8().unwrap(), 10);
    assert_eq!(parser.read_bytes(2).unwrap(), vec![11, 12]);
    assert_eq!(parser.position(), 3);
}

#[test]
fn test_check_signature() {
    let good = b"PBDEMS2\0rest".to_vec();
    assert!(ProtobufParser::new(good).check_signature());
    let bad = b"PBDEMS1\0rest".to_vec();
    assert!(!ProtobufParser::new(bad).check_signature());
    let short = b"PBD".to_vec();
    assert!(!ProtobufParser::new(short).check_signature());
}

#[test]
fn test_error_describe() {
    assert_eq!(DemoError::UnexpectedEnd.describe(), "unexpected end of data");
    assert_eq!(DemoError::VarintOverflow.describe(), "varint too large");
    assert_eq!(DemoError::InvalidFormat.describe(), "invalid demo format");
    assert_eq!(DemoError::Corrupted.describe(), "corrupted demo data");
    assert_eq!(DemoError::InvalidEvent.describe(), "invalid event data");
    assert_eq!(DemoError::UnsupportedVersion.describe(), "unsupported demo version");
    assert_eq!(DemoError::FileNotFound.describe(), "demo file not found");
    assert_eq!(DemoError::EmptyInput.describe(), "demo data is empty");
}
