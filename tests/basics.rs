use base64::Engine;
use smileid::{encode_image_bytes, format_date, Config, Timestamp};

#[test]
fn it_works() {
    assert_eq!(2 + 2, 4);
}

#[test]
fn format_date_pads_month_and_day() {
    assert_eq!(format_date(2024, 3, 9), "2024-03-09");
}

#[test]
fn format_date_pads_short_year() {
    assert_eq!(format_date(5, 1, 1), "0005-01-01");
    assert_eq!(format_date(0, 0, 0), "0000-00-00");
}

#[test]
fn format_date_keeps_wide_values() {
    assert_eq!(format_date(65535, 12, 31), "65535-12-31");
    assert_eq!(format_date(2024, 255, 100), "2024-255-100");
}

#[test]
fn encode_image_bytes_is_standard_base64() {
    assert_eq!(encode_image_bytes(b"hello"), "aGVsbG8=");
    assert_eq!(encode_image_bytes(b""), "");
    assert_eq!(encode_image_bytes(&[0xfb, 0xff]), "+/8=");
}

#[test]
fn encode_image_bytes_round_trips() {
    let bytes: Vec<u8> = (0u16..300).map(|i| (i * 7 % 256) as u8).collect();
    let text = encode_image_bytes(&bytes);
    let back = base64::engine::general_purpose::STANDARD.decode(text.as_bytes()).unwrap();
    assert_eq!(back, bytes);
}

#[test]
fn config_defaults() {
    let c = Config::new("key", "42");
    assert_eq!(c.api_key, "key");
    assert_eq!(c.partner_id, "42");
    assert_eq!(c.base_url, "https://api.usesmileid.com");
    assert_eq!(c.version, "1.0");
    assert_eq!(c.timeout, 30);
}

#[test]
fn config_overrides() {
    let c = Config::new("key", "42")
        .with_base_url("https://x.test")
        .with_version("2.0")
        .with_timeout(5);
    assert_eq!(c.base_url, "https://x.test");
    assert_eq!(c.version, "2.0");
    assert_eq!(c.timeout, 5);
    assert_eq!(c.api_key, "key");
    assert_eq!(c.partner_id, "42");
}

#[test]
fn timestamp_renders_rfc3339() {
    let t = Timestamp::from_unix(0, 0).unwrap();
    assert_eq!(t.to_rfc3339(), "1970-01-01T00:00:00+00:00");
    let t = Timestamp::from_unix(1_710_000_000, 500_000_000).unwrap();
    assert_eq!(t.to_rfc3339(), "2024-03-09T16:00:00.500+00:00");
    assert_eq!(t.secs(), 1_710_000_000);
    assert_eq!(t.nanos(), 500_000_000);
}

#[test]
fn timestamp_rejects_out_of_range() {
    assert!(Timestamp::from_unix(0, 1_000_000_000).is_none());
    assert!(Timestamp::from_unix(8_000_000_000_001, 0).is_none());
    assert!(Timestamp::from_unix(-8_000_000_000_001, 0).is_none());
    assert!(Timestamp::from_unix(-8_000_000_000_000, 999_999_999).is_some());
}
