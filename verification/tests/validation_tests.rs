use cs2_demo_core::error::DemoError;
use cs2_demo_core::utils::DemoUtils;
use cs2_demo_core::validation::{
    extract_demo_info, has_protobuf_messages, validate_demo_data, validate_demo_header,
    validate_player_name, validate_round_number, validate_tick_number, validate_weapon_name,
};

#[test]
fn test_validate_demo_header() {
    let valid_data = b"PBDEMS2\0test data";
    assert!(validate_demo_header(valid_data).is_ok());

    let invalid_data = b"INVALID\0test data";
    assert!(validate_demo_header(invalid_data).is_err());
}

#[test]
fn test_validate_player_name() {
    assert!(validate_player_name("Player1").is_ok());
    assert!(validate_player_name("").is_err());
    assert!(validate_player_name(&"a".repeat(33)).is_err());
}

#[test]
fn test_validate_weapon_name() {
    assert!(validate_weapon_name("ak47").is_ok());
    assert!(validate_weapon_name("").is_err());
    assert!(validate_weapon_name(&"a".repeat(65)).is_err());
}

#[test]
fn test_validate_round_number() {
    assert!(validate_round_number(15).is_ok());
    assert!(validate_round_number(31).is_err());
}

#[test]
fn test_validate_tick_number() {
    assert!(validate_tick_number(64000).is_ok());
    assert!(validate_tick_number(2000000).is_err());
}

#[test]
fn test_validate_player_name_control_chars() {
    assert_eq!(validate_player_name("bad\u{0007}name").unwrap_err(), DemoError::InvalidEvent);
    assert_eq!(validate_player_name("bad\u{009f}name").unwrap_err(), DemoError::InvalidEvent);
    assert!(validate_player_name("good name").is_ok());
}

#[test]
fn test_validate_demo_data_errors() {
    assert_eq!(validate_demo_data(&[]).unwrap_err(), DemoError::EmptyInput);
    assert_eq!(validate_demo_data(&[1, 2, 3]).unwrap_err(), DemoError::InvalidFormat);
    let mut small = b"PBDEMS2\0".to_vec();
    small.resize(100, 0);
    assert_eq!(validate_demo_data(&small).unwrap_err(), DemoError::InvalidFormat);
    let mut big = b"PBDEMS2\0".to_vec();
    big.resize(2048, 0);
    assert!(validate_demo_data(&big).is_ok());
    let mut wrong = b"WRONGSIG".to_vec();
    wrong.resize(2048, 0);
    assert_eq!(validate_demo_data(&wrong).unwrap_err(), DemoError::InvalidFormat);
}

#[test]
fn test_has_protobuf_messages() {
    let mut data = b"PBDEMS2\0".to_vec();
    // tag 1, length-delimited: looks like a frame
    data.extend_from_slice(&[0x0A, 0x00, 0x00, 0x00, 0x00, 0x00]);
    assert!(has_protobuf_messages(&data));

    // too short to hold any frame
    assert!(!has_protobuf_messages(b"PBDEMS2"));

    // wire kind 7 everywhere: nothing frame-like
    let noise = [b"PBDEMS2\0".as_slice(), &[0xFF; 16]].concat();
    assert!(!has_protobuf_messages(&noise));
}

#[test]
fn test_extract_demo_info() {
    let mut data = b"PBDEMS2\0".to_vec();
    data.push(2);
    data.extend_from_slice(&[0, 0, 0]);
    data.extend_from_slice(b"some padding de_inferno more padding SourceTV");
    data.resize(4096, 0);
    let info = extract_demo_info(&data).unwrap();
    assert_eq!(info.signature, "PBDEMS2");
    assert_eq!(info.map_name, "de_inferno");
    assert_eq!(info.server_info, "SourceTV");
    // the version field starts at the signature's padding byte
    assert_eq!(info.version, 2 << 8);

    assert_eq!(extract_demo_info(&[1, 2, 3]).unwrap_err(), DemoError::InvalidFormat);
}

#[test]
fn test_extract_demo_info_unknown_map() {
    let mut data = b"PBDEMS2\0".to_vec();
    data.resize(2048, 0);
    let info = extract_demo_info(&data).unwrap();
    assert_eq!(info.map_name, "unknown");
    assert_eq!(info.server_info, "unknown");
}

#[test]
fn test_format_file_size() {
    assert_eq!(DemoUtils::format_file_size(1024), "1.0 KB");
    assert_eq!(DemoUtils::format_file_size(1048576), "1.0 MB");
    assert_eq!(DemoUtils::format_file_size(512), "512 B");
}

#[test]
fn test_format_file_size_more() {
    assert_eq!(DemoUtils::format_file_size(0), "0 B");
    assert_eq!(DemoUtils::format_file_size(1023), "1023 B");
    assert_eq!(DemoUtils::format_file_size(1536), "1.5 KB");
    assert_eq!(DemoUtils::format_file_size(1073741824), "1.0 GB");
    assert_eq!(DemoUtils::format_file_size(10 * 1073741824 + 1073741824 / 2), "10.5 GB");
}
