use bannerscan::range::{parse_range, parse_u16, PortRange, RangeError};

#[test]
fn parse_valid_range() {
    let r = parse_range("1-1024");
    assert_eq!(r, Ok(PortRange { start: 1, end: 1024 }));
}

#[test]
fn parse_single_port_range() {
    let r = parse_range("9000-9000");
    assert_eq!(r, Ok(PortRange { start: 9000, end: 9000 }));
}

#[test]
fn parse_full_port_space() {
    let r = parse_range("1-65535");
    assert_eq!(r, Ok(PortRange { start: 1, end: 65535 }));
}

#[test]
fn inverted_range_is_rejected() {
    let r = parse_range("50-10");
    assert_eq!(r, Err(RangeError::InvalidRange));
    assert_eq!(
        RangeError::InvalidRange.message(),
        "Start port must be less than or equal to end port."
    );
}

#[test]
fn non_numeric_start_is_rejected() {
    let r = parse_range("abc-100");
    assert_eq!(r, Err(RangeError::InvalidStartPort));
    assert_eq!(RangeError::InvalidStartPort.message(), "Invalid start port.");
}

#[test]
fn non_numeric_end_is_rejected() {
    let r = parse_range("100-xyz");
    assert_eq!(r, Err(RangeError::InvalidEndPort));
    assert_eq!(RangeError::InvalidEndPort.message(), "Invalid end port.");
}

#[test]
fn missing_separator_is_rejected() {
    assert_eq!(parse_range("1024"), Err(RangeError::InvalidFormat));
    assert_eq!(parse_range(""), Err(RangeError::InvalidFormat));
}

#[test]
fn extra_separator_is_rejected() {
    assert_eq!(parse_range("1-2-3"), Err(RangeError::InvalidFormat));
    assert_eq!(
        RangeError::InvalidFormat.message(),
        "Invalid range format. Use the format: start-end"
    );
}

#[test]
fn empty_endpoints_are_rejected() {
    assert_eq!(parse_range("-10"), Err(RangeError::InvalidStartPort));
    assert_eq!(parse_range("10-"), Err(RangeError::InvalidEndPort));
    assert_eq!(parse_range("-"), Err(RangeError::InvalidStartPort));
}

#[test]
fn endpoint_above_port_space_is_rejected() {
    assert_eq!(parse_range("1-65536"), Err(RangeError::InvalidEndPort));
    assert_eq!(parse_range("99999-100000"), Err(RangeError::InvalidStartPort));
}

#[test]
fn parse_u16_accepts_plain_numerals() {
    assert_eq!(parse_u16("0"), Some(0));
    assert_eq!(parse_u16("80"), Some(80));
    assert_eq!(parse_u16("1024"), Some(1024));
    assert_eq!(parse_u16("65535"), Some(65535));
    assert_eq!(parse_u16("007"), Some(7));
}

#[test]
fn parse_u16_accepts_leading_plus() {
    assert_eq!(parse_u16("+80"), Some(80));
}

#[test]
fn parse_u16_rejects_bad_numerals() {
    assert_eq!(parse_u16(""), None);
    assert_eq!(parse_u16("+"), None);
    assert_eq!(parse_u16("abc"), None);
    assert_eq!(parse_u16("12a"), None);
    assert_eq!(parse_u16("-5"), None);
    assert_eq!(parse_u16("65536"), None);
    assert_eq!(parse_u16("99999"), None);
}

#[test]
fn ports_cover_the_range_in_order() {
    let r = PortRange { start: 3, end: 7 };
    let ports = r.ports();
    assert_eq!(ports, vec![3, 4, 5, 6, 7]);
}

#[test]
fn ports_count_matches_range_width() {
    let r = parse_range("1-1024").unwrap();
    let ports = r.ports();
    assert_eq!(ports.len(), 1024);
    assert_eq!(ports[0], 1);
    assert_eq!(ports[1023], 1024);
}

#[test]
fn ports_of_single_port_range() {
    let r = PortRange { start: 443, end: 443 };
    assert_eq!(r.ports(), vec![443]);
}

#[test]
fn ports_of_full_port_space() {
    let r = PortRange { start: 1, end: 65535 };
    let ports = r.ports();
    assert_eq!(ports.len(), 65535);
    assert_eq!(ports[0], 1);
    assert_eq!(ports[65534], 65535);
}
