use netconnpool::ipversion::{detect_ip_version, parse_ip_version, ip_version_from_lowered, AddressFamily, IPVersion};

#[test]
fn test_ip_version_display() {
    assert_eq!(IPVersion::IPv4.to_string(), "IPv4");
    assert_eq!(IPVersion::IPv6.to_string(), "IPv6");
    assert_eq!(IPVersion::Unknown.to_string(), "Unknown");
}

#[test]
fn ipversion_test_parse_ip_version() {
    assert_eq!(parse_ip_version("IPv4"), IPVersion::IPv4);
    assert_eq!(parse_ip_version("ipv4"), IPVersion::IPv4);
    assert_eq!(parse_ip_version("4"), IPVersion::IPv4);
    assert_eq!(parse_ip_version("IPv6"), IPVersion::IPv6);
    assert_eq!(parse_ip_version("ipv6"), IPVersion::IPv6);
    assert_eq!(parse_ip_version("6"), IPVersion::IPv6);
    assert_eq!(parse_ip_version("unknown"), IPVersion::Unknown);
}

#[test]
fn test_ip_version() {
    assert_eq!(IPVersion::IPv4.to_string(), "IPv4");
    assert_eq!(IPVersion::IPv6.to_string(), "IPv6");
    assert_eq!(IPVersion::Unknown.to_string(), "Unknown");
}

#[test]
fn ipversion_test_test_parse_ip_version() {
    assert_eq!(parse_ip_version("IPv4"), IPVersion::IPv4);
    assert_eq!(parse_ip_version("ipv4"), IPVersion::IPv4);
    assert_eq!(parse_ip_version("4"), IPVersion::IPv4);
    assert_eq!(parse_ip_version("IPv6"), IPVersion::IPv6);
    assert_eq!(parse_ip_version("ipv6"), IPVersion::IPv6);
    assert_eq!(parse_ip_version("6"), IPVersion::IPv6);
    assert_eq!(parse_ip_version("unknown"), IPVersion::Unknown);
}

#[test]
fn ipversion_test_detect_ip_version() {
    assert_eq!(detect_ip_version(AddressFamily::V4), IPVersion::IPv4);
    assert_eq!(detect_ip_version(AddressFamily::V6), IPVersion::IPv6);
}

#[test]
fn ip_version_lowered_names() {
    assert_eq!(ip_version_from_lowered("ipv4"), IPVersion::IPv4);
    assert_eq!(ip_version_from_lowered("IPv4"), IPVersion::Unknown);
    assert_eq!(ip_version_from_lowered("6"), IPVersion::IPv6);
    assert_eq!(ip_version_from_lowered(""), IPVersion::Unknown);
    assert_eq!(parse_ip_version("IPV6"), IPVersion::IPv6);
    assert_eq!(parse_ip_version(" ipv4"), IPVersion::Unknown);
    assert_eq!(IPVersion::default(), IPVersion::Unknown);
}

#[test]
fn printed_ip_version_parses_back() {
    for v in [IPVersion::IPv4, IPVersion::IPv6, IPVersion::Unknown] {
        assert_eq!(parse_ip_version(&v.to_string()), v);
    }
}
