//! Pool mode: client (dials out) or server (accepts).

use vstd::prelude::*;
use crate::text::{str_eq, to_lowercase, owned, unicode_lowercase, is_ascii_text, ascii_lower};

verus! {

/// The mode a pool works in.
#[derive(Debug, Clone, Copy, PartialEq, Eq, Structural)]
pub enum PoolMode {
    /// The pool dials connections to a server.
    Client,
    /// The pool accepts connections from clients.
    Server,
}

/// The text name of a mode.
pub open spec fn pool_mode_name(m: PoolMode) -> Seq<char> {
    match m {
        PoolMode::Client => "client"@,
        PoolMode::Server => "server"@,
    }
}

/// The mode named by an already lowercased string; anything else is `Client`.
pub open spec fn spec_pool_mode_from_lowered(t: Seq<char>) -> PoolMode {
    if t == "server"@ {
        PoolMode::Server
    } else {
        PoolMode::Client
    }
}

impl PoolMode {
    /// The mode's name: `"client"` or `"server"`.
    pub fn to_string(&self) -> (s: String)
        ensures
            s@ == pool_mode_name(*self),
    {
        match self {
            PoolMode::Client => owned("client"),
            PoolMode::Server => owned("server"),
        }
    }
}

impl Default for PoolMode {
    fn default() -> (m: Self)
        ensures
            m == PoolMode::Client,
    {
        PoolMode::Client
    }
}

/// Maps a lowercased mode name to the mode: `"server"` gives `Server`,
/// everything else (`"client"` included) gives `Client`.
pub fn pool_mode_from_lowered(t: &str) -> (m: PoolMode)
    ensures
        m == spec_pool_mode_from_lowered(t@),
{
    if str_eq(t, "server") {
        PoolMode::Server
    } else {
        PoolMode::Client
    }
}

/// Parses a mode name case-insensitively; an unknown name gives `Client`.
pub fn parse_pool_mode(s: &str) -> (m: PoolMode)
    ensures
        m == spec_pool_mode_from_lowered(unicode_lowercase(s@)),
        is_ascii_text(s@) ==> m == spec_pool_mode_from_lowered(ascii_lower(s@)),
{
    let lowered = to_lowercase(s);
    pool_mode_from_lowered(lowered.as_str())
}

/// Every mode's name is ASCII and already lowercase, so parsing a printed
/// mode gives it back.
pub proof fn lemma_pool_mode_name_parses_back(m: PoolMode)
    ensures
        is_ascii_text(pool_mode_name(m)),
        spec_pool_mode_from_lowered(ascii_lower(pool_mode_name(m))) == m,
{
    reveal_strlit("client");
    reveal_strlit("server");
    assert(ascii_lower("client"@) =~= "client"@);
    assert(ascii_lower("server"@) =~= "server"@);
    assert("client"@[0] != "server"@[0]);
}

} // verus!
