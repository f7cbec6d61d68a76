use vercel_ddns::ip::{is_valid_for_family, is_valid_ipv4, is_valid_ipv6, IpType};

#[test]
fn accepts_ordinary_ipv4() {
    assert!(is_valid_ipv4("203.0.113.7"));
    assert!(is_valid_ipv4("0.0.0.0"));
    assert!(is_valid_ipv4("255.255.255.255"));
    assert!(is_valid_ipv4("1.2.3.4"));
    assert!(is_valid_ipv4("192.168.0.1"));
}

#[test]
fn rejects_malformed_ipv4() {
    assert!(!is_valid_ipv4(""));
    assert!(!is_valid_ipv4("1.2.3"));
    assert!(!is_valid_ipv4("1.2.3.4.5"));
    assert!(!is_valid_ipv4("256.1.1.1"));
    assert!(!is_valid_ipv4("01.2.3.4"));
    assert!(!is_valid_ipv4("1..2.3"));
    assert!(!is_valid_ipv4("1.2.3."));
    assert!(!is_valid_ipv4(".1.2.3.4"));
    assert!(!is_valid_ipv4("a.b.c.d"));
    assert!(!is_valid_ipv4("1.2.3.4 "));
    assert!(!is_valid_ipv4("1234.1.1.1"));
    assert!(!is_valid_ipv4("2001:db8::1"));
}

#[test]
fn accepts_ordinary_ipv6() {
    assert!(is_valid_ipv6("::"));
    assert!(is_valid_ipv6("::1"));
    assert!(is_valid_ipv6("1::"));
    assert!(is_valid_ipv6("2001:db8::1"));
    assert!(is_valid_ipv6("2001:0db8:85a3:0000:0000:8a2e:0370:7334"));
    assert!(is_valid_ipv6("1:2:3:4:5:6:7:8"));
    assert!(is_valid_ipv6("fe80::a:b:c"));
    assert!(is_valid_ipv6("A:B:C:D:E:F:0:9"));
}

#[test]
fn rejects_malformed_ipv6() {
    assert!(!is_valid_ipv6(""));
    assert!(!is_valid_ipv6(":"));
    assert!(!is_valid_ipv6(":::"));
    assert!(!is_valid_ipv6(":1::2"));
    assert!(!is_valid_ipv6("1:2:3:4:5:6:7"));
    assert!(!is_valid_ipv6("1:2:3:4:5:6:7:8:9"));
    assert!(!is_valid_ipv6("1:2:3:4:5:6:7:8::"));
    assert!(!is_valid_ipv6("12345::"));
    assert!(!is_valid_ipv6("1::2::3"));
    assert!(!is_valid_ipv6("g::1"));
    assert!(!is_valid_ipv6("1:"));
    assert!(!is_valid_ipv6("203.0.113.7"));
}

#[test]
fn family_selects_the_validator() {
    assert!(is_valid_for_family("203.0.113.7", &IpType::IPV4));
    assert!(!is_valid_for_family("203.0.113.7", &IpType::IPV6));
    assert!(is_valid_for_family("2001:db8::1", &IpType::IPV6));
    assert!(!is_valid_for_family("2001:db8::1", &IpType::IPV4));
}
