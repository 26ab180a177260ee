use rutty::cli::{port_in_range, ClientConfig};
use rutty::decimal::{parse_unsigned, signed_to_decimal, unsigned_to_decimal};

#[test]
fn port_accepted() {
    assert_eq!(port_in_range("3000"), Ok(3000));
    assert_eq!(port_in_range("1"), Ok(1));
    assert_eq!(port_in_range("65535"), Ok(65535));
    assert_eq!(port_in_range("+80"), Ok(80));
}

#[test]
fn port_out_of_range() {
    assert_eq!(port_in_range("0"), Err("port not in range 1-65535".to_string()));
    assert_eq!(port_in_range("65536"), Err("port not in range 1-65535".to_string()));
}

#[test]
fn port_not_a_number() {
    assert_eq!(port_in_range("abc"), Err("`abc` isn't a port number".to_string()));
    assert_eq!(port_in_range(""), Err("`` isn't a port number".to_string()));
    assert_eq!(port_in_range("-1"), Err("`-1` isn't a port number".to_string()));
    assert_eq!(
        port_in_range("99999999999999999999999"),
        Err("`99999999999999999999999` isn't a port number".to_string())
    );
}

#[test]
fn decimal_reading() {
    assert_eq!(parse_unsigned(b"0", 10), Some(0));
    assert_eq!(parse_unsigned(b"00042", 65535), Some(42));
    assert_eq!(parse_unsigned(b"65535", 65535), Some(65535));
    assert_eq!(parse_unsigned(b"65536", 65535), None);
    assert_eq!(parse_unsigned(b"+", 65535), None);
    assert_eq!(parse_unsigned(b"1 ", 65535), None);
    assert_eq!(parse_unsigned(b"18446744073709551615", u64::MAX), Some(u64::MAX));
    assert_eq!(parse_unsigned(b"18446744073709551616", u64::MAX), None);
}

#[test]
fn decimal_writing() {
    assert_eq!(unsigned_to_decimal(0), "0");
    assert_eq!(unsigned_to_decimal(1234567890), "1234567890");
    assert_eq!(signed_to_decimal(-45), "-45");
    assert_eq!(signed_to_decimal(i32::MAX), "2147483647");
}

#[test]
fn client_config_holds_values() {
    let c = ClientConfig { title: "RuTTY Server".to_string(), reconnect: Some(5) };
    let d = c.clone();
    assert_eq!(d.title, "RuTTY Server");
    assert_eq!(d.reconnect, Some(5));
}
