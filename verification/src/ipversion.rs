//! IP version of a connection.

use vstd::prelude::*;
use crate::text::{str_eq, to_lowercase, owned, unicode_lowercase, is_ascii_text, ascii_lower};

verus! {

/// The IP version of a connection.
#[derive(Debug, Clone, Copy, PartialEq, Eq, Hash, Structural)]
pub enum IPVersion {
    /// Not known.
    Unknown,
    /// IPv4.
    IPv4,
    /// IPv6.
    IPv6,
}

/// The address family of a socket address.
#[derive(Debug, Clone, Copy, PartialEq, Eq, Structural)]
pub enum AddressFamily {
    /// An IPv4 socket address.
    V4,
    /// An IPv6 socket address.
    V6,
}

/// The text name of an IP version.
pub open spec fn ip_version_name(v: IPVersion) -> Seq<char> {
    match v {
        IPVersion::IPv4 => "IPv4"@,
        IPVersion::IPv6 => "IPv6"@,
        IPVersion::Unknown => "Unknown"@,
    }
}

/// The IP version named by an already lowercased string.
pub open spec fn spec_ip_version_from_lowered(t: Seq<char>) -> IPVersion {
    if t == "ipv4"@ || t == "4"@ {
        IPVersion::IPv4
    } else if t == "ipv6"@ || t == "6"@ {
        IPVersion::IPv6
    } else {
        IPVersion::Unknown
    }
}

impl IPVersion {
    /// The version's name: `"IPv4"`, `"IPv6"` or `"Unknown"`.
    pub fn to_string(&self) -> (s: String)
        ensures
            s@ == ip_version_name(*self),
    {
        match self {
            IPVersion::IPv4 => owned("IPv4"),
            IPVersion::IPv6 => owned("IPv6"),
            IPVersion::Unknown => owned("Unknown"),
        }
    }
}

impl Default for IPVersion {
    fn default() -> (v: Self)
        ensures
            v == IPVersion::Unknown,
    {
        IPVersion::Unknown
    }
}

/// The IP version of a socket address of the given family.
pub fn detect_ip_version(family: AddressFamily) -> (v: IPVersion)
    ensures
        family == AddressFamily::V4 ==> v == IPVersion::IPv4,
        family == AddressFamily::V6 ==> v == IPVersion::IPv6,
{
    match family {
        AddressFamily::V4 => IPVersion::IPv4,
        AddressFamily::V6 => IPVersion::IPv6,
    }
}

/// Maps a lowercased version name to the version: `"ipv4"` or `"4"` give
/// IPv4, `"ipv6"` or `"6"` give IPv6, anything else `Unknown`.
pub fn ip_version_from_lowered(t: &str) -> (v: IPVersion)
    ensures
        v == spec_ip_version_from_lowered(t@),
{
    if str_eq(t, "ipv4") || str_eq(t, "4") {
        IPVersion::IPv4
    } else if str_eq(t, "ipv6") || str_eq(t, "6") {
        IPVersion::IPv6
    } else {
        IPVersion::Unknown
    }
}

/// Parses an IP version name case-insensitively; an unknown name gives
/// `Unknown`.
pub fn parse_ip_version(s: &str) -> (v: IPVersion)
    ensures
        v == spec_ip_version_from_lowered(unicode_lowercase(s@)),
        is_ascii_text(s@) ==> v == spec_ip_version_from_lowered(ascii_lower(s@)),
{
    let lowered = to_lowercase(s);
    ip_version_from_lowered(lowered.as_str())
}

/// Every version's name is ASCII, and lowering it gives a name that parses
/// back to the same version: parsing a printed version gives it back.
pub proof fn lemma_ip_version_name_parses_back(v: IPVersion)
    ensures
        is_ascii_text(ip_version_name(v)),
        spec_ip_version_from_lowered(ascii_lower(ip_version_name(v))) == v,
{
    reveal_strlit("IPv4");
    reveal_strlit("IPv6");
    reveal_strlit("Unknown");
    reveal_strlit("ipv4");
    reveal_strlit("ipv6");
    reveal_strlit("unknown");
    reveal_strlit("4");
    reveal_strlit("6");
    assert(ascii_lower("IPv4"@) =~= "ipv4"@);
    assert(ascii_lower("IPv6"@) =~= "ipv6"@);
    assert(ascii_lower("Unknown"@) =~= "unknown"@);
    assert("ipv6"@[3] != "ipv4"@[3]);
    assert("unknown"@.len() != "ipv4"@.len() && "unknown"@.len() != "4"@.len());
    assert("unknown"@.len() != "ipv6"@.len() && "unknown"@.len() != "6"@.len());
}

} // verus!
