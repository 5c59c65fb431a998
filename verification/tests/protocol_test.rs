use netconnpool::protocol::{parse_protocol, protocol_from_uppered, Protocol};

#[test]
fn test_protocol_display() {
    assert_eq!(Protocol::TCP.to_string(), "TCP");
    assert_eq!(Protocol::UDP.to_string(), "UDP");
    assert_eq!(Protocol::Unknown.to_string(), "Unknown");
}

#[test]
fn protocol_test_parse_protocol() {
    assert_eq!(parse_protocol("TCP"), Protocol::TCP);
    assert_eq!(parse_protocol("UDP"), Protocol::UDP);
    assert_eq!(parse_protocol("tcp"), Protocol::TCP);
    assert_eq!(parse_protocol("udp"), Protocol::UDP);
    assert_eq!(parse_protocol("unknown"), Protocol::Unknown);
}

#[test]
fn protocol_test_protocol_methods() {
    assert!(Protocol::TCP.is_tcp());
    assert!(!Protocol::TCP.is_udp());
    assert!(Protocol::UDP.is_udp());
    assert!(!Protocol::UDP.is_tcp());
}

#[test]
fn test_protocol() {
    assert_eq!(Protocol::TCP.to_string(), "TCP");
    assert_eq!(Protocol::UDP.to_string(), "UDP");
    assert_eq!(Protocol::Unknown.to_string(), "Unknown");
}

#[test]
fn protocol_test_test_parse_protocol() {
    assert_eq!(parse_protocol("TCP"), Protocol::TCP);
    assert_eq!(parse_protocol("UDP"), Protocol::UDP);
    assert_eq!(parse_protocol("tcp"), Protocol::TCP);
    assert_eq!(parse_protocol("unknown"), Protocol::Unknown);
}

#[test]
fn protocol_test_test_protocol_methods() {
    assert!(Protocol::TCP.is_tcp());
    assert!(!Protocol::TCP.is_udp());
    assert!(Protocol::UDP.is_udp());
    assert!(!Protocol::UDP.is_tcp());
}

#[test]
fn protocol_uppered_names() {
    assert_eq!(protocol_from_uppered("UDP"), Protocol::UDP);
    assert_eq!(protocol_from_uppered("udp"), Protocol::Unknown);
    assert_eq!(protocol_from_uppered(""), Protocol::Unknown);
    assert!(!Protocol::Unknown.is_tcp());
    assert!(!Protocol::Unknown.is_udp());
    assert_eq!(Protocol::default(), Protocol::Unknown);
}

#[test]
fn printed_protocol_parses_back() {
    for p in [Protocol::TCP, Protocol::UDP, Protocol::Unknown] {
        assert_eq!(parse_protocol(&p.to_string()), p);
    }
}
