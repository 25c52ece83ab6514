use be_strom::decimal::u64_to_decimal;
use be_strom::settings::{
    parse_u16, port_or_default, port_setting, text_or, Config, ConfigError, DEFAULT_PORT,
};
use be_strom::text::payload_text;

#[test]
fn decimal_text() {
    assert_eq!(u64_to_decimal(0), "0");
    assert_eq!(u64_to_decimal(7), "7");
    assert_eq!(u64_to_decimal(42), "42");
    assert_eq!(u64_to_decimal(1883), "1883");
    assert_eq!(u64_to_decimal(u64::MAX), "18446744073709551615");
    for n in [1u64, 9, 10, 99, 100, 65535, 1_000_000_007] {
        assert_eq!(u64_to_decimal(n), n.to_string());
    }
}

#[test]
fn parse_agrees_with_std() {
    let cases = [
        "", "+", "-", "0", "1883", "+1883", "-1883", "65535", "65536", "065535", "00000000000000000001",
        " 1883", "1883 ", "18a3", "++1", "+-1", "99999999999999999999", "1_000", "٣", "１",
    ];
    for c in cases {
        assert_eq!(parse_u16(c), c.parse::<u16>().ok(), "text {:?}", c);
    }
}

#[test]
fn decimal_text_reads_back() {
    for n in [0u16, 1, 80, 1883, 8883, 65535] {
        assert_eq!(parse_u16(&u64_to_decimal(n as u64)), Some(n));
    }
}

#[test]
fn lenient_port() {
    assert_eq!(DEFAULT_PORT, 1883);
    assert_eq!(port_or_default(None), 1883);
    assert_eq!(port_or_default(Some("8883")), 8883);
    assert_eq!(port_or_default(Some("not a port")), 1883);
    assert_eq!(port_or_default(Some("70000")), 1883);
    assert_eq!(port_or_default(Some("")), 1883);
}

#[test]
fn strict_port() {
    assert_eq!(port_setting(None), Some(1883));
    assert_eq!(port_setting(Some("1884")), Some(1884));
    assert_eq!(port_setting(Some("x")), None);
    assert_eq!(port_setting(Some("-1")), None);
}

#[test]
fn text_settings() {
    assert_eq!(text_or(None, "localhost"), "localhost");
    assert_eq!(text_or(Some("broker".to_string()), "localhost"), "broker");
    assert_eq!(text_or(Some(String::new()), "localhost"), "");
}

#[test]
fn publisher_config_defaults() {
    let c = Config::from_settings(None, None, None).unwrap();
    assert_eq!(c.host, "localhost");
    assert_eq!(c.port, 1883);
    assert_eq!(c.client_id, "room-sensor-mock");
}

#[test]
fn publisher_config_values() {
    let c = Config::from_settings(Some("mq".to_string()), Some("1999"), Some("id-1".to_string()))
        .unwrap();
    assert_eq!(c.host, "mq");
    assert_eq!(c.port, 1999);
    assert_eq!(c.client_id, "id-1");
}

#[test]
fn publisher_config_invalid_port() {
    assert!(matches!(
        Config::from_settings(None, Some("port"), None),
        Err(ConfigError::InvalidPort)
    ));
}

#[test]
fn payload_text_decodes_utf8() {
    assert_eq!(payload_text(b"{\"a\":1}".to_vec()), Some("{\"a\":1}".to_string()));
    assert_eq!(payload_text("22.5 °C".as_bytes().to_vec()), Some("22.5 °C".to_string()));
    assert_eq!(payload_text(vec![]), Some(String::new()));
    assert_eq!(payload_text(vec![0xc3, 0x28]), None);
    assert_eq!(payload_text(vec![0xed, 0xa0, 0x80]), None);
}
