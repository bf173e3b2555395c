use ping_probe::HostAddress;
use ping_probe::ResolutionError;
use ping_probe::choose_address;
use ping_probe::parse_ipv4_literal;

#[test]
fn dotted_quads_are_recognised() {
    assert_eq!(
        parse_ipv4_literal("127.0.0.1"),
        Some(HostAddress::V4 { a: 127, b: 0, c: 0, d: 1 })
    );
    assert_eq!(
        parse_ipv4_literal("8.8.8.8"),
        Some(HostAddress::V4 { a: 8, b: 8, c: 8, d: 8 })
    );
    assert_eq!(
        parse_ipv4_literal("0.0.0.0"),
        Some(HostAddress::V4 { a: 0, b: 0, c: 0, d: 0 })
    );
    assert_eq!(
        parse_ipv4_literal("255.255.255.255"),
        Some(HostAddress::V4 { a: 255, b: 255, c: 255, d: 255 })
    );
    assert_eq!(
        parse_ipv4_literal("192.168.10.254"),
        Some(HostAddress::V4 { a: 192, b: 168, c: 10, d: 254 })
    );
}

#[test]
fn near_misses_are_refused() {
    assert_eq!(parse_ipv4_literal(""), None);
    assert_eq!(parse_ipv4_literal("google.com"), None);
    assert_eq!(parse_ipv4_literal("no-such-host.invalid"), None);
    assert_eq!(parse_ipv4_literal("1.2.3"), None);
    assert_eq!(parse_ipv4_literal("1.2.3.4.5"), None);
    assert_eq!(parse_ipv4_literal("256.0.0.1"), None);
    assert_eq!(parse_ipv4_literal("01.2.3.4"), None);
    assert_eq!(parse_ipv4_literal("1.2.3.04"), None);
    assert_eq!(parse_ipv4_literal("1..2.3"), None);
    assert_eq!(parse_ipv4_literal("1.2.3."), None);
    assert_eq!(parse_ipv4_literal(".1.2.3"), None);
    assert_eq!(parse_ipv4_literal(" 1.2.3.4"), None);
    assert_eq!(parse_ipv4_literal("1.2.3.4 "), None);
    assert_eq!(parse_ipv4_literal("a.b.c.d"), None);
    assert_eq!(parse_ipv4_literal("::1"), None);
    assert_eq!(parse_ipv4_literal("1234.1.1.1"), None);
}

#[test]
fn first_resolved_address_is_taken() {
    let found = vec![
        HostAddress::V4 { a: 10, b: 0, c: 0, d: 1 },
        HostAddress::V4 { a: 10, b: 0, c: 0, d: 2 },
    ];
    assert_eq!(
        choose_address(&found),
        Ok(HostAddress::V4 { a: 10, b: 0, c: 0, d: 1 })
    );
}

#[test]
fn empty_lookup_is_a_resolution_error() {
    let found: Vec<HostAddress> = Vec::new();
    assert_eq!(choose_address(&found), Err(ResolutionError::NoAddresses));
}
