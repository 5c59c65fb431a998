//! Transport protocol of a connection.

use vstd::prelude::*;
use crate::text::{str_eq, to_uppercase, owned, unicode_uppercase, is_ascii_text, ascii_upper};

verus! {

/// The transport protocol of a connection.
#[derive(Debug, Clone, Copy, PartialEq, Eq, Hash, Structural)]
pub enum Protocol {
    /// Not known.
    Unknown,
    /// TCP.
    TCP,
    /// UDP.
    UDP,
}

/// The text name of a protocol.
pub open spec fn protocol_name(p: Protocol) -> Seq<char> {
    match p {
        Protocol::TCP => "TCP"@,
        Protocol::UDP => "UDP"@,
        Protocol::Unknown => "Unknown"@,
    }
}

/// The protocol named by an already uppercased string.
pub open spec fn spec_protocol_from_uppered(t: Seq<char>) -> Protocol {
    if t == "TCP"@ {
        Protocol::TCP
    } else if t == "UDP"@ {
        Protocol::UDP
    } else {
        Protocol::Unknown
    }
}

impl Protocol {
    /// The protocol's name: `"TCP"`, `"UDP"` or `"Unknown"`.
    pub fn to_string(&self) -> (s: String)
        ensures
            s@ == protocol_name(*self),
    {
        match self {
            Protocol::TCP => owned("TCP"),
            Protocol::UDP => owned("UDP"),
            Protocol::Unknown => owned("Unknown"),
        }
    }

    /// Whether this is TCP.
    pub fn is_tcp(&self) -> (b: bool)
        ensures
            b == (*self == Protocol::TCP),
    {
        matches!(self, Protocol::TCP)
    }

    /// Whether this is UDP.
    pub fn is_udp(&self) -> (b: bool)
        ensures
            b == (*self == Protocol::UDP),
    {
        matches!(self, Protocol::UDP)
    }
}

impl Default for Protocol {
    fn default() -> (p: Self)
        ensures
            p == Protocol::Unknown,
    {
        Protocol::Unknown
    }
}

/// Maps an uppercased protocol name to the protocol: `"TCP"`, `"UDP"`, or
/// `Unknown` for anything else.
pub fn protocol_from_uppered(t: &str) -> (p: Protocol)
    ensures
        p == spec_protocol_from_uppered(t@),
{
    if str_eq(t, "TCP") {
        Protocol::TCP
    } else if str_eq(t, "UDP") {
        Protocol::UDP
    } else {
        Protocol::Unknown
    }
}

/// Parses a protocol name case-insensitively; an unknown name gives `Unknown`.
pub fn parse_protocol(s: &str) -> (p: Protocol)
    ensures
        p == spec_protocol_from_uppered(unicode_uppercase(s@)),
        is_ascii_text(s@) ==> p == spec_protocol_from_uppered(ascii_upper(s@)),
{
    let uppered = to_uppercase(s);
    protocol_from_uppered(uppered.as_str())
}

/// Every protocol's name is ASCII, and raising it gives a name that parses
/// back to the same protocol: parsing a printed protocol gives it back.
pub proof fn lemma_protocol_name_parses_back(p: Protocol)
    ensures
        is_ascii_text(protocol_name(p)),
        spec_protocol_from_uppered(ascii_upper(protocol_name(p))) == p,
{
    reveal_strlit("TCP");
    reveal_strlit("UDP");
    reveal_strlit("Unknown");
    reveal_strlit("UNKNOWN");
    assert(ascii_upper("TCP"@) =~= "TCP"@);
    assert(ascii_upper("UDP"@) =~= "UDP"@);
    assert(ascii_upper("Unknown"@) =~= "UNKNOWN"@);
    assert("UDP"@[0] != "TCP"@[0]);
    assert("UNKNOWN"@.len() != "TCP"@.len() && "UNKNOWN"@.len() != "UDP"@.len());
}

} // verus!
