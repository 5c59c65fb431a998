//! The abstract model of the pool: its view, its invariant, and the effect of
//! each elementary step on the view.

use vstd::prelude::*;
use crate::config::{Config, config_valid};
use crate::errors::ConfigIssue;
use crate::mode::PoolMode;
use crate::connection::{
    Clock, Connection, spec_is_expired, spec_is_leaked, spec_leaked_duration, spec_new_connection,
    spec_should_health_check, spec_valid_for_borrow,
};
use crate::errors::NetConnPoolError;
use crate::ipversion::IPVersion;
use crate::protocol::Protocol;
use crate::stats::{Stats, sat_add_i64, sat_add_u64};

verus! {

/// The number of idle buckets: (TCP, UDP) x (IPv4, IPv6).
pub const BUCKET_COUNT: usize = 4;

/// The abstract state of a pool.
pub struct PoolView {
    /// The configuration, after defaults were applied.
    pub config: Config,
    /// Every open connection the pool manages.
    pub conns: Seq<Connection>,
    /// The identifiers queued in each idle bucket, front first. An entry may
    /// outlive its connection; such stale entries are dropped when popped.
    pub idle: Seq<Seq<u64>>,
    /// The size of each idle bucket.
    pub idle_counts: Seq<usize>,
    /// Whether the pool was closed.
    pub closed: bool,
    /// The number of borrowed connections.
    pub active_count: usize,
    /// The statistics, when enabled.
    pub stats: Option<Stats>,
    /// Identifiers of removed connections whose sockets still have to be closed.
    pub pending_close: Seq<u64>,
}

/// What the pool decided for a request for a connection.
#[derive(Debug, Clone)]
pub enum GetStep {
    /// The connection with this identifier is lent to the caller; `reused`
    /// tells whether it came from an idle bucket, and `clear_udp_buffer`
    /// whether its UDP read buffer must be drained first.
    Borrowed { id: u64, reused: bool, clear_udp_buffer: bool },
    /// No idle connection could be lent: try to create one.
    Create,
    /// The request fails with this error.
    Failed(NetConnPoolError),
}

/// How a new connection is to be obtained.
#[derive(Debug, Clone, Copy, PartialEq, Eq, Structural)]
pub enum CreateAction {
    /// Call the dialer, asking for this protocol.
    Dial { protocol: Option<Protocol> },
    /// Accept a connection from the listener.
    Accept,
}

/// The bucket of a (protocol, IP version) pair: 0 TCP/IPv4, 1 TCP/IPv6,
/// 2 UDP/IPv4, 3 UDP/IPv6; none when either is unknown.
pub open spec fn spec_bucket_index(p: Protocol, v: IPVersion) -> Option<usize> {
    match (p, v) {
        (Protocol::TCP, IPVersion::IPv4) => Some(0usize),
        (Protocol::TCP, IPVersion::IPv6) => Some(1usize),
        (Protocol::UDP, IPVersion::IPv4) => Some(2usize),
        (Protocol::UDP, IPVersion::IPv6) => Some(3usize),
        _ => None,
    }
}

/// The protocol of a bucket.
pub open spec fn bucket_protocol(b: int) -> Protocol {
    if b < 2 {
        Protocol::TCP
    } else {
        Protocol::UDP
    }
}

/// The IP version of a bucket.
pub open spec fn bucket_ip_version(b: int) -> IPVersion {
    if b % 2 == 0 {
        IPVersion::IPv4
    } else {
        IPVersion::IPv6
    }
}

/// The buckets a request looks in, in order: a missing or unknown protocol
/// means TCP then UDP, a missing or unknown IP version means IPv4 then IPv6.
pub open spec fn spec_target_buckets(p: Option<Protocol>, v: Option<IPVersion>) -> Seq<usize> {
    let any_p = p is None || p == Some(Protocol::Unknown);
    let any_v = v is None || v == Some(IPVersion::Unknown);
    if any_p && any_v {
        seq![0usize, 1usize, 2usize, 3usize]
    } else if any_p {
        seq![
            spec_bucket_index(Protocol::TCP, v->0)->0,
            spec_bucket_index(Protocol::UDP, v->0)->0,
        ]
    } else if any_v {
        seq![
            spec_bucket_index(p->0, IPVersion::IPv4)->0,
            spec_bucket_index(p->0, IPVersion::IPv6)->0,
        ]
    } else {
        seq![spec_bucket_index(p->0, v->0)->0]
    }
}

/// Whether a connection of protocol `p` and IP version `v` satisfies a
/// request for `rp` and `rv` (a missing or unknown request matches anything).
pub open spec fn matches_request(
    p: Protocol,
    v: IPVersion,
    rp: Option<Protocol>,
    rv: Option<IPVersion>,
) -> bool {
    &&& (rp is Some && rp->0 != Protocol::Unknown ==> p == rp->0)
    &&& (rv is Some && rv->0 != IPVersion::Unknown ==> v == rv->0)
}

/// The number of connections of protocol `p` in a sequence.
pub open spec fn count_protocol(s: Seq<Connection>, p: Protocol) -> nat
    decreases s.len(),
{
    if s.len() == 0 {
        0
    } else {
        count_protocol(s.drop_last(), p) + if s.last().protocol == p {
            1nat
        } else {
            0nat
        }
    }
}

/// The number of connections of IP version `ip` in a sequence.
pub open spec fn count_ip_version(s: Seq<Connection>, ip: IPVersion) -> nat
    decreases s.len(),
{
    if s.len() == 0 {
        0
    } else {
        count_ip_version(s.drop_last(), ip) + if s.last().ip_version == ip {
            1nat
        } else {
            0nat
        }
    }
}

/// No count by protocol or IP version exceeds the number of connections.
pub proof fn lemma_kind_counts_le_len(s: Seq<Connection>, p: Protocol, ip: IPVersion)
    ensures
        count_protocol(s, p) <= s.len(),
        count_ip_version(s, ip) <= s.len(),
    decreases s.len(),
{
    if s.len() > 0 {
        lemma_kind_counts_le_len(s.drop_last(), p, ip);
    }
}

/// Appending a connection adds one to the counts of its protocol and IP
/// version.
pub proof fn lemma_kind_counts_push(s: Seq<Connection>, c: Connection)
    ensures
        forall|p: Protocol| #[trigger] count_protocol(s.push(c), p) == count_protocol(s, p) + if c.protocol == p {
            1nat
        } else {
            0nat
        },
        forall|ip: IPVersion| #[trigger] count_ip_version(s.push(c), ip) == count_ip_version(s, ip) + if c.ip_version
            == ip {
            1nat
        } else {
            0nat
        },
{
    assert(s.push(c).drop_last() =~= s);
    assert forall|p: Protocol| #[trigger] count_protocol(s.push(c), p) == count_protocol(s, p) + if c.protocol
        == p {
        1nat
    } else {
        0nat
    } by {
        assert(s.push(c).drop_last() =~= s);
        assert(s.push(c).last() == c);
    }
    assert forall|ip: IPVersion| #[trigger] count_ip_version(s.push(c), ip) == count_ip_version(s, ip) + if c.ip_version
        == ip {
        1nat
    } else {
        0nat
    } by {
        assert(s.push(c).drop_last() =~= s);
        assert(s.push(c).last() == c);
    }
}

/// Replacing a connection by one of the same protocol and IP version keeps
/// the counts.
pub proof fn lemma_kind_counts_update(s: Seq<Connection>, i: int, c: Connection)
    requires
        0 <= i < s.len(),
        c.protocol == s[i].protocol,
        c.ip_version == s[i].ip_version,
    ensures
        forall|p: Protocol| #[trigger] count_protocol(s.update(i, c), p) == count_protocol(s, p),
        forall|ip: IPVersion| #[trigger] count_ip_version(s.update(i, c), ip) == count_ip_version(s, ip),
    decreases s.len(),
{
    let w = s.update(i, c);
    if i == s.len() - 1 {
        assert(w.drop_last() =~= s.drop_last());
    } else {
        lemma_kind_counts_update(s.drop_last(), i, c);
        assert(w.drop_last() =~= s.drop_last().update(i, c));
    }
    let n = s.len() - 1;
    assert(w.last() == w[n] && s.last() == s[n]);
    if i == n {
        assert(w[n] == c);
    } else {
        assert(w[n] == s[n]);
    }
    assert forall|p: Protocol| #[trigger] count_protocol(w, p) == count_protocol(s, p) by {
        assert(count_protocol(w, p) == count_protocol(w.drop_last(), p) + if w.last().protocol == p {
            1nat
        } else {
            0nat
        });
    }
    assert forall|ip: IPVersion| #[trigger] count_ip_version(w, ip) == count_ip_version(s, ip) by {
        assert(count_ip_version(w, ip) == count_ip_version(w.drop_last(), ip) + if w.last().ip_version == ip {
            1nat
        } else {
            0nat
        });
    }
}

/// Removing the connection at `i` subtracts one from the counts of its
/// protocol and IP version.
pub proof fn lemma_kind_counts_remove(s: Seq<Connection>, i: int)
    requires
        0 <= i < s.len(),
    ensures
        forall|p: Protocol| #[trigger] count_protocol(s.remove(i), p) + (if s[i].protocol == p {
            1nat
        } else {
            0nat
        }) == count_protocol(s, p),
        forall|ip: IPVersion| #[trigger] count_ip_version(s.remove(i), ip) + (if s[i].ip_version == ip {
            1nat
        } else {
            0nat
        }) == count_ip_version(s, ip),
    decreases s.len(),
{
    let w = s.remove(i);
    if i == s.len() - 1 {
        assert(w =~= s.drop_last());
        assert(s.last() == s[i]);
        assert forall|p: Protocol| #[trigger] count_protocol(w, p) + (if s[i].protocol == p {
            1nat
        } else {
            0nat
        }) == count_protocol(s, p) by {
            assert(count_protocol(s, p) == count_protocol(s.drop_last(), p) + if s.last().protocol == p {
                1nat
            } else {
                0nat
            });
        }
        assert forall|ip: IPVersion| #[trigger] count_ip_version(w, ip) + (if s[i].ip_version == ip {
            1nat
        } else {
            0nat
        }) == count_ip_version(s, ip) by {
            assert(count_ip_version(s, ip) == count_ip_version(s.drop_last(), ip) + if s.last().ip_version
                == ip {
                1nat
            } else {
                0nat
            });
        }
    } else {
        lemma_kind_counts_remove(s.drop_last(), i);
        assert(w.drop_last() =~= s.drop_last().remove(i));
        assert(w.last() == s.last());
        assert(s.drop_last()[i] == s[i]);
        assert forall|p: Protocol| #[trigger] count_protocol(w, p) + (if s[i].protocol == p {
            1nat
        } else {
            0nat
        }) == count_protocol(s, p) by {
            assert(count_protocol(w, p) == count_protocol(w.drop_last(), p) + if w.last().protocol == p {
                1nat
            } else {
                0nat
            });
            assert(count_protocol(s, p) == count_protocol(s.drop_last(), p) + if s.last().protocol == p {
                1nat
            } else {
                0nat
            });
            assert(count_protocol(s.drop_last().remove(i), p) + (if s.drop_last()[i].protocol == p {
                1nat
            } else {
                0nat
            }) == count_protocol(s.drop_last(), p));
        }
        assert forall|ip: IPVersion| #[trigger] count_ip_version(w, ip) + (if s[i].ip_version == ip {
            1nat
        } else {
            0nat
        }) == count_ip_version(s, ip) by {
            assert(count_ip_version(w, ip) == count_ip_version(w.drop_last(), ip) + if w.last().ip_version
                == ip {
                1nat
            } else {
                0nat
            });
            assert(count_ip_version(s, ip) == count_ip_version(s.drop_last(), ip) + if s.last().ip_version
                == ip {
                1nat
            } else {
                0nat
            });
            assert(count_ip_version(s.drop_last().remove(i), ip) + (if s.drop_last()[i].ip_version == ip {
                1nat
            } else {
                0nat
            }) == count_ip_version(s.drop_last(), ip));
        }
    }
}

/// The number of borrowed connections in a sequence.
pub open spec fn count_in_use(s: Seq<Connection>) -> nat
    decreases s.len(),
{
    if s.len() == 0 {
        0
    } else {
        count_in_use(s.drop_last()) + if s.last().in_use {
            1nat
        } else {
            0nat
        }
    }
}

/// Whether `id` names a connection in `conns`.
pub open spec fn has_conn(conns: Seq<Connection>, id: u64) -> bool {
    exists|i: int| 0 <= i < conns.len() && conns[i].id == id
}

/// The position of the connection named `id`.
pub open spec fn conn_index(conns: Seq<Connection>, id: u64) -> int {
    choose|i: int| 0 <= i < conns.len() && conns[i].id == id
}

/// Identifiers are unique.
pub open spec fn ids_unique(conns: Seq<Connection>) -> bool {
    forall|i: int, j: int| 0 <= i < conns.len() && 0 <= j < conns.len() && i != j ==> conns[i].id != conns[j].id
}

/// The idle limit is low enough that the idle counters of the statistics
/// never reach the bounds of `i64`.
pub open spec fn idle_stats_exact(c: Config) -> bool {
    4 * c.max_idle_connections <= i64::MAX
}

/// The connection limit is set and low enough that the counts of borrowed
/// and of live connections in the statistics never reach the bounds of `i64`.
pub open spec fn active_stats_exact(c: Config) -> bool {
    0 < c.max_connections <= i64::MAX
}

/// The entries in all idle buckets.
pub open spec fn idle_entries(v: PoolView) -> int {
    v.idle_counts[0] + v.idle_counts[1] + v.idle_counts[2] + v.idle_counts[3]
}

/// The statistics count the idle entries (all of them, and by protocol and
/// by IP version), the borrowed connections and the live connections (in
/// all, by protocol and by IP version) exactly, as far as the
/// limits keep the counters clear of the bounds of `i64`.
pub open spec fn stats_track(v: PoolView) -> bool {
    match v.stats {
        Some(s) => {
            &&& idle_stats_exact(v.config) ==> {
                &&& s.current_idle_connections == idle_entries(v)
                &&& s.current_tcp_idle_connections == v.idle_counts[0] + v.idle_counts[1]
                &&& s.current_udp_idle_connections == v.idle_counts[2] + v.idle_counts[3]
                &&& s.current_ipv4_idle_connections == v.idle_counts[0] + v.idle_counts[2]
                &&& s.current_ipv6_idle_connections == v.idle_counts[1] + v.idle_counts[3]
            }
            &&& active_stats_exact(v.config) ==> {
                &&& s.current_active_connections == v.active_count
                &&& s.current_connections == v.conns.len()
                &&& s.current_tcp_connections == count_protocol(v.conns, Protocol::TCP)
                &&& s.current_udp_connections == count_protocol(v.conns, Protocol::UDP)
                &&& s.current_ipv4_connections == count_ip_version(v.conns, IPVersion::IPv4)
                &&& s.current_ipv6_connections == count_ip_version(v.conns, IPVersion::IPv6)
            }
        },
        None => true,
    }
}

/// The tracked counters of two snapshots agree.
pub open spec fn same_tracked(a: Stats, b: Stats) -> bool {
    &&& a.current_idle_connections == b.current_idle_connections
    &&& a.current_tcp_idle_connections == b.current_tcp_idle_connections
    &&& a.current_udp_idle_connections == b.current_udp_idle_connections
    &&& a.current_ipv4_idle_connections == b.current_ipv4_idle_connections
    &&& a.current_ipv6_idle_connections == b.current_ipv6_idle_connections
    &&& a.current_active_connections == b.current_active_connections
    &&& a.current_connections == b.current_connections
    &&& a.current_tcp_connections == b.current_tcp_connections
    &&& a.current_udp_connections == b.current_udp_connections
    &&& a.current_ipv4_connections == b.current_ipv4_connections
    &&& a.current_ipv6_connections == b.current_ipv6_connections
}

/// The pool invariant: a valid configuration; unique identifiers; only open
/// connections; never more connections than `max_connections` (when
/// nonzero); each idle bucket's size matches its queue and stays within
/// `max_idle_connections`; the active count is the number of borrowed
/// connections; statistics exist exactly when enabled, and track the idle
/// entries and the borrowed connections.
pub open spec fn pool_inv(v: PoolView) -> bool {
    &&& config_valid(v.config)
    &&& ids_unique(v.conns)
    &&& v.conns.len() <= usize::MAX
    &&& forall|i: int| 0 <= i < v.conns.len() ==> !(#[trigger] v.conns[i]).closed
    &&& v.config.max_connections > 0 ==> v.conns.len() <= v.config.max_connections
    &&& v.idle.len() == BUCKET_COUNT
    &&& v.idle_counts.len() == BUCKET_COUNT
    &&& forall|b: int|
        0 <= b < BUCKET_COUNT ==> #[trigger] v.idle_counts[b] == v.idle[b].len()
            && v.idle_counts[b] <= v.config.max_idle_connections
    &&& v.active_count == count_in_use(v.conns)
    &&& (v.stats is Some <==> v.config.enable_stats)
    &&& stats_track(v)
    &&& v.closed ==> forall|b: int| 0 <= b < BUCKET_COUNT ==> #[trigger] v.idle[b].len() == 0
}

/// Applies `f` to the statistics, if any.
pub open spec fn stats_apply(o: Option<Stats>, f: spec_fn(Stats) -> Stats) -> Option<Stats> {
    match o {
        Some(s) => Some(f(s)),
        None => None,
    }
}

/// Statistics after an entry left idle bucket `b`.
pub open spec fn stat_idle_pop(s: Stats, b: int) -> Stats {
    let s1 = Stats { current_idle_connections: sat_add_i64(s.current_idle_connections, -1i64), ..s };
    let s2 = if bucket_ip_version(b) == IPVersion::IPv4 {
        Stats { current_ipv4_idle_connections: sat_add_i64(s1.current_ipv4_idle_connections, -1i64), ..s1 }
    } else {
        Stats { current_ipv6_idle_connections: sat_add_i64(s1.current_ipv6_idle_connections, -1i64), ..s1 }
    };
    if bucket_protocol(b) == Protocol::TCP {
        Stats { current_tcp_idle_connections: sat_add_i64(s2.current_tcp_idle_connections, -1i64), ..s2 }
    } else {
        Stats { current_udp_idle_connections: sat_add_i64(s2.current_udp_idle_connections, -1i64), ..s2 }
    }
}

/// Statistics after an entry joined idle bucket `b`.
pub open spec fn stat_idle_push(s: Stats, b: int) -> Stats {
    let s1 = Stats { current_idle_connections: sat_add_i64(s.current_idle_connections, 1), ..s };
    let s2 = if bucket_ip_version(b) == IPVersion::IPv4 {
        Stats { current_ipv4_idle_connections: sat_add_i64(s1.current_ipv4_idle_connections, 1), ..s1 }
    } else {
        Stats { current_ipv6_idle_connections: sat_add_i64(s1.current_ipv6_idle_connections, 1), ..s1 }
    };
    if bucket_protocol(b) == Protocol::TCP {
        Stats { current_tcp_idle_connections: sat_add_i64(s2.current_tcp_idle_connections, 1), ..s2 }
    } else {
        Stats { current_udp_idle_connections: sat_add_i64(s2.current_udp_idle_connections, 1), ..s2 }
    }
}

/// Statistics after a connection of protocol `p` and IP version `v` was
/// counted as closed.
pub open spec fn stat_removed(s: Stats, p: Protocol, v: IPVersion) -> Stats {
    let s1 = Stats {
        total_connections_closed: sat_add_i64(s.total_connections_closed, 1),
        current_connections: sat_add_i64(s.current_connections, -1i64),
        ..s
    };
    let s2 = match v {
        IPVersion::IPv4 => Stats { current_ipv4_connections: sat_add_i64(s1.current_ipv4_connections, -1i64), ..s1 },
        IPVersion::IPv6 => Stats { current_ipv6_connections: sat_add_i64(s1.current_ipv6_connections, -1i64), ..s1 },
        IPVersion::Unknown => s1,
    };
    match p {
        Protocol::TCP => Stats { current_tcp_connections: sat_add_i64(s2.current_tcp_connections, -1i64), ..s2 },
        Protocol::UDP => Stats { current_udp_connections: sat_add_i64(s2.current_udp_connections, -1i64), ..s2 },
        Protocol::Unknown => s2,
    }
}

/// Statistics after a connection of protocol `p` and IP version `v` was created.
pub open spec fn stat_created(s: Stats, p: Protocol, v: IPVersion) -> Stats {
    let s1 = Stats {
        total_connections_created: sat_add_i64(s.total_connections_created, 1),
        current_connections: sat_add_i64(s.current_connections, 1),
        ..s
    };
    let s2 = match v {
        IPVersion::IPv4 => Stats { current_ipv4_connections: sat_add_i64(s1.current_ipv4_connections, 1), ..s1 },
        IPVersion::IPv6 => Stats { current_ipv6_connections: sat_add_i64(s1.current_ipv6_connections, 1), ..s1 },
        IPVersion::Unknown => s1,
    };
    match p {
        Protocol::TCP => Stats { current_tcp_connections: sat_add_i64(s2.current_tcp_connections, 1), ..s2 },
        Protocol::UDP => Stats { current_udp_connections: sat_add_i64(s2.current_udp_connections, 1), ..s2 },
        Protocol::Unknown => s2,
    }
}

/// Statistics after a borrowed connection became idle again.
pub open spec fn stat_active_dec(s: Stats) -> Stats {
    Stats { current_active_connections: sat_add_i64(s.current_active_connections, -1i64), ..s }
}

/// Statistics after a request got a connection (from an idle bucket when
/// `reused`); the time it took is recorded once the connection is handed
/// out, by `stat_get_time`.
pub open spec fn stat_get_success(s: Stats, reused: bool) -> Stats {
    let s1 = Stats {
        successful_gets: sat_add_i64(s.successful_gets, 1),
        current_active_connections: sat_add_i64(s.current_active_connections, 1),
        ..s
    };
    if reused {
        Stats { total_connections_reused: sat_add_i64(s1.total_connections_reused, 1), ..s1 }
    } else {
        s1
    }
}

/// Statistics after a request that got a connection took `elapsed`
/// nanoseconds until the connection was handed out.
pub open spec fn stat_get_time(s: Stats, elapsed: u64) -> Stats {
    Stats { total_get_time: sat_add_u64(s.total_get_time, elapsed), ..s }
}

/// Statistics after a request failed because it timed out.
pub open spec fn stat_timeout(s: Stats) -> Stats {
    Stats {
        failed_gets: sat_add_i64(s.failed_gets, 1),
        timeout_gets: sat_add_i64(s.timeout_gets, 1),
        ..s
    }
}

/// Statistics after a request failed because the pool was full.
pub open spec fn stat_exhausted(s: Stats) -> Stats {
    Stats { failed_gets: sat_add_i64(s.failed_gets, 1), ..s }
}

/// Statistics after a request failed because no connection could be created.
pub open spec fn stat_create_failed(s: Stats) -> Stats {
    Stats {
        failed_gets: sat_add_i64(s.failed_gets, 1),
        connection_errors: sat_add_i64(s.connection_errors, 1),
        ..s
    }
}

/// The state after the front entry of idle bucket `b` was popped.
pub open spec fn spec_idle_popped(v: PoolView, b: int) -> PoolView {
    PoolView {
        idle: v.idle.update(b, v.idle[b].drop_first()),
        idle_counts: v.idle_counts.update(b, (v.idle_counts[b] - 1) as usize),
        stats: stats_apply(v.stats, |s: Stats| stat_idle_pop(s, b)),
        ..v
    }
}

/// The state after `id` joined the back of idle bucket `b`.
pub open spec fn spec_idle_pushed(v: PoolView, b: int, id: u64) -> PoolView {
    PoolView {
        idle: v.idle.update(b, v.idle[b].push(id)),
        idle_counts: v.idle_counts.update(b, (v.idle_counts[b] + 1) as usize),
        stats: stats_apply(v.stats, |s: Stats| stat_idle_push(s, b)),
        ..v
    }
}

/// The state after the connection at position `i` was removed: it stops
/// counting as borrowed, leaves the pool, its socket is queued for closing,
/// and it is counted as closed.
pub open spec fn spec_removed(v: PoolView, i: int) -> PoolView {
    let c = v.conns[i];
    let s1 = if c.in_use {
        stats_apply(v.stats, |s: Stats| stat_active_dec(s))
    } else {
        v.stats
    };
    PoolView {
        conns: v.conns.remove(i),
        active_count: if c.in_use {
            (v.active_count - 1) as usize
        } else {
            v.active_count
        },
        pending_close: v.pending_close.push(c.id),
        stats: stats_apply(s1, |s: Stats| stat_removed(s, c.protocol, c.ip_version)),
        ..v
    }
}

/// The position of the live connection an entry of bucket `b` names: the
/// connection with that identifier, if it is idle and belongs in `b`.
pub open spec fn spec_live_index(v: PoolView, id: u64, b: int) -> Option<int> {
    if has_conn(v.conns, id) && !v.conns[conn_index(v.conns, id)].in_use && spec_bucket_index(
        v.conns[conn_index(v.conns, id)].protocol,
        v.conns[conn_index(v.conns, id)].ip_version,
    ) == Some(b as usize) {
        Some(conn_index(v.conns, id))
    } else {
        None
    }
}

/// Whether the connection at position `i` may be lent at `now`.
pub open spec fn spec_conn_valid(v: PoolView, i: int, now: Clock) -> bool {
    spec_valid_for_borrow(v.conns[i], v.config.max_lifetime, v.config.idle_timeout, now)
}

/// The connection after it was lent from an idle bucket.
pub open spec fn spec_lent(c: Connection, now: Clock) -> Connection {
    Connection {
        in_use: true,
        last_used_at: now.unix,
        reuse_count: if c.reuse_count == i64::MAX {
            i64::MIN
        } else {
            (c.reuse_count + 1) as i64
        },
        ..c
    }
}

/// The state after the idle connection at position `i` was lent.
pub open spec fn spec_lent_from_idle(v: PoolView, i: int, now: Clock) -> PoolView {
    PoolView {
        conns: v.conns.update(i, spec_lent(v.conns[i], now)),
        active_count: (v.active_count + 1) as usize,
        stats: stats_apply(v.stats, |s: Stats| stat_get_success(s, true)),
        ..v
    }
}

/// Looks in buckets `buckets[k..]` in order. In each bucket the front entry
/// is popped: a live valid connection is lent; a live invalid one is removed
/// and a stale entry (whose connection is gone) dropped with nothing else
/// changed, and the search moves to the next bucket. When
/// no bucket lends a connection the answer is to create one.
pub open spec fn spec_acquire_from(
    v: PoolView,
    buckets: Seq<usize>,
    k: int,
    now: Clock,
) -> (PoolView, GetStep)
    decreases buckets.len() - k,
{
    if k >= buckets.len() || k < 0 {
        (v, GetStep::Create)
    } else {
        let b = buckets[k] as int;
        if v.idle[b].len() == 0 {
            spec_acquire_from(v, buckets, k + 1, now)
        } else {
            let id = v.idle[b][0];
            let v1 = spec_idle_popped(v, b);
            match spec_live_index(v1, id, b) {
                Some(i) => if spec_conn_valid(v1, i, now) {
                    (
                        spec_lent_from_idle(v1, i, now),
                        GetStep::Borrowed {
                            id,
                            reused: true,
                            clear_udp_buffer: v1.config.clear_udp_buffer_on_return
                                && v1.conns[i].protocol == Protocol::UDP,
                        },
                    )
                } else {
                    spec_acquire_from(spec_removed(v1, i), buckets, k + 1, now)
                },
                None => spec_acquire_from(v1, buckets, k + 1, now),
            }
        }
    }
}

/// One attempt to get an idle connection: a closed pool refuses; a request
/// that waited longer than its timeout fails and is counted as timed out;
/// otherwise the target buckets are searched.
pub open spec fn spec_acquire(
    v: PoolView,
    buckets: Seq<usize>,
    timeout: u128,
    elapsed: u128,
    now: Clock,
) -> (PoolView, GetStep) {
    if v.closed {
        (v, GetStep::Failed(NetConnPoolError::PoolClosed))
    } else if elapsed > timeout {
        (
            PoolView { stats: stats_apply(v.stats, |s: Stats| stat_timeout(s)), ..v },
            GetStep::Failed(NetConnPoolError::GetConnectionTimeout { timeout, waited: elapsed }),
        )
    } else {
        spec_acquire_from(v, buckets, 0, now)
    }
}

// ----------------------------------------------------------------------------
// Lemmas about the count of borrowed connections and about the invariant.

/// The count never exceeds the length.
pub proof fn lemma_count_le_len(s: Seq<Connection>)
    ensures
        count_in_use(s) <= s.len(),
    decreases s.len(),
{
    if s.len() > 0 {
        lemma_count_le_len(s.drop_last());
    }
}

/// Appending a connection adds one exactly when it is borrowed.
pub proof fn lemma_count_push(s: Seq<Connection>, c: Connection)
    ensures
        count_in_use(s.push(c)) == count_in_use(s) + if c.in_use {
            1nat
        } else {
            0nat
        },
{
    assert(s.push(c).drop_last() =~= s);
}

/// Replacing the connection at `i` changes the count by the change in its flag.
pub proof fn lemma_count_update(s: Seq<Connection>, i: int, c: Connection)
    requires
        0 <= i < s.len(),
    ensures
        count_in_use(s.update(i, c)) + (if s[i].in_use {
            1nat
        } else {
            0nat
        }) == count_in_use(s) + (if c.in_use {
            1nat
        } else {
            0nat
        }),
    decreases s.len(),
{
    if i == s.len() - 1 {
        assert(s.update(i, c).drop_last() =~= s.drop_last());
    } else {
        lemma_count_update(s.drop_last(), i, c);
        assert(s.update(i, c).drop_last() =~= s.drop_last().update(i, c));
    }
}

/// Removing the connection at `i` subtracts one exactly when it was borrowed.
pub proof fn lemma_count_remove(s: Seq<Connection>, i: int)
    requires
        0 <= i < s.len(),
    ensures
        count_in_use(s.remove(i)) + (if s[i].in_use {
            1nat
        } else {
            0nat
        }) == count_in_use(s),
    decreases s.len(),
{
    if i == s.len() - 1 {
        assert(s.remove(i) =~= s.drop_last());
    } else {
        lemma_count_remove(s.drop_last(), i);
        assert(s.remove(i).drop_last() =~= s.drop_last().remove(i));
    }
}

/// A connection that is not borrowed leaves room below the length.
pub proof fn lemma_count_lt_len_if_idle(s: Seq<Connection>, i: int)
    requires
        0 <= i < s.len(),
        !s[i].in_use,
    ensures
        count_in_use(s) < s.len(),
{
    lemma_count_remove(s, i);
    lemma_count_le_len(s.remove(i));
}

/// A borrowed connection makes the count positive.
pub proof fn lemma_count_pos_if_in_use(s: Seq<Connection>, i: int)
    requires
        0 <= i < s.len(),
        s[i].in_use,
    ensures
        count_in_use(s) >= 1,
{
    lemma_count_remove(s, i);
}

/// Popping a nonempty bucket keeps the invariant.
pub proof fn lemma_inv_idle_popped(v: PoolView, b: int)
    requires
        pool_inv(v),
        0 <= b < BUCKET_COUNT,
        v.idle[b].len() > 0,
    ensures
        pool_inv(spec_idle_popped(v, b)),
{
    let w = spec_idle_popped(v, b);
    assert forall|c: int| 0 <= c < BUCKET_COUNT implies #[trigger] w.idle_counts[c] == w.idle[c].len()
        && w.idle_counts[c] <= w.config.max_idle_connections by {
        if c == b {
        } else {
        }
    }
}

/// Pushing onto a bucket with room of an open pool keeps the invariant.
pub proof fn lemma_inv_idle_pushed(v: PoolView, b: int, id: u64)
    requires
        pool_inv(v),
        !v.closed,
        0 <= b < BUCKET_COUNT,
        v.idle_counts[b] < v.config.max_idle_connections,
    ensures
        pool_inv(spec_idle_pushed(v, b, id)),
{
    let w = spec_idle_pushed(v, b, id);
    assert forall|c: int| 0 <= c < BUCKET_COUNT implies #[trigger] w.idle_counts[c] == w.idle[c].len()
        && w.idle_counts[c] <= w.config.max_idle_connections by {
        if c == b {
        } else {
        }
    }
}

/// Removing a connection keeps the invariant.
pub proof fn lemma_inv_removed(v: PoolView, i: int)
    requires
        pool_inv(v),
        0 <= i < v.conns.len(),
    ensures
        pool_inv(spec_removed(v, i)),
{
    let w = spec_removed(v, i);
    lemma_count_remove(v.conns, i);
    lemma_kind_counts_remove(v.conns, i);
    assert forall|a: int, c: int|
        0 <= a < w.conns.len() && 0 <= c < w.conns.len() && a != c implies w.conns[a].id
        != w.conns[c].id by {
        let a0 = if a < i {
            a
        } else {
            a + 1
        };
        let c0 = if c < i {
            c
        } else {
            c + 1
        };
        assert(w.conns[a] == v.conns[a0]);
        assert(w.conns[c] == v.conns[c0]);
    }
    assert forall|a: int| 0 <= a < w.conns.len() implies !(#[trigger] w.conns[a]).closed by {
        let a0 = if a < i {
            a
        } else {
            a + 1
        };
        assert(w.conns[a] == v.conns[a0]);
    }
}

/// Lending an idle connection keeps the invariant.
pub proof fn lemma_inv_lent(v: PoolView, i: int, now: Clock)
    requires
        pool_inv(v),
        0 <= i < v.conns.len(),
        !v.conns[i].in_use,
    ensures
        pool_inv(spec_lent_from_idle(v, i, now)),
{
    let w = spec_lent_from_idle(v, i, now);
    lemma_count_update(v.conns, i, spec_lent(v.conns[i], now));
    lemma_kind_counts_update(v.conns, i, spec_lent(v.conns[i], now));
    lemma_count_lt_len_if_idle(v.conns, i);
    assert forall|a: int, c: int|
        0 <= a < w.conns.len() && 0 <= c < w.conns.len() && a != c implies w.conns[a].id
        != w.conns[c].id by {
        assert(w.conns[a].id == v.conns[a].id);
        assert(w.conns[c].id == v.conns[c].id);
    }
    assert forall|a: int| 0 <= a < w.conns.len() implies !(#[trigger] w.conns[a]).closed by {
        assert(w.conns[a].closed == v.conns[a].closed);
    }
}

/// The connection found by its identifier is the one at that position.
pub proof fn lemma_conn_index(conns: Seq<Connection>, i: int)
    requires
        ids_unique(conns),
        0 <= i < conns.len(),
    ensures
        has_conn(conns, conns[i].id),
        conn_index(conns, conns[i].id) == i,
{
    assert(conns[i].id == conns[i].id);
}

} // verus!

verus! {

/// What the I/O layer does after a connection came back.
#[derive(Debug, Clone, Copy, PartialEq, Eq, Structural)]
pub struct ReturnOutcome {
    /// The connection was borrowed until now: wake one waiting request.
    pub notify: bool,
    /// The connection goes back to an idle bucket: run the on-return hook.
    pub call_on_return: bool,
    /// The connection now waits in an idle bucket.
    pub pooled: bool,
}

/// How to obtain a new connection, or why none may be created now: a full
/// pool refuses; client mode dials (asking for `required_protocol`) and
/// needs a dialer; server mode accepts and needs a listener and an acceptor.
pub open spec fn spec_create_begin(v: PoolView, required_protocol: Option<Protocol>) -> Result<
    CreateAction,
    NetConnPoolError,
> {
    if v.config.max_connections > 0 && v.conns.len() >= v.config.max_connections {
        Err(
            NetConnPoolError::MaxConnectionsReached {
                current: v.conns.len() as usize,
                max: v.config.max_connections,
            },
        )
    } else {
        match v.config.mode {
            PoolMode::Client => if v.config.has_dialer {
                Ok(CreateAction::Dial { protocol: required_protocol })
            } else {
                Err(NetConnPoolError::InvalidConfig { reason: ConfigIssue::MissingDialer })
            },
            PoolMode::Server => if !v.config.has_listener {
                Err(NetConnPoolError::InvalidConfig { reason: ConfigIssue::MissingListener })
            } else if !v.config.has_acceptor {
                Err(NetConnPoolError::InvalidConfig { reason: ConfigIssue::MissingAcceptor })
            } else {
                Ok(CreateAction::Accept)
            },
        }
    }
}

/// Why a new connection of protocol `p` and IP version `ip` may not join the
/// pool: it does not match the request, or the pool is full.
pub open spec fn spec_admit_refusal(
    v: PoolView,
    p: Protocol,
    ip: IPVersion,
    required_protocol: Option<Protocol>,
    required_ip_version: Option<IPVersion>,
) -> Option<NetConnPoolError> {
    if required_protocol is Some && required_protocol->0 != Protocol::Unknown && p
        != required_protocol->0 {
        Some(NetConnPoolError::NoConnectionForProtocol { required: required_protocol->0 })
    } else if required_ip_version is Some && required_ip_version->0 != IPVersion::Unknown && ip
        != required_ip_version->0 {
        Some(NetConnPoolError::NoConnectionForIPVersion { required: required_ip_version->0 })
    } else if v.config.max_connections > 0 && v.conns.len() >= v.config.max_connections {
        Some(
            NetConnPoolError::MaxConnectionsReached {
                current: v.conns.len() as usize,
                max: v.config.max_connections,
            },
        )
    } else {
        None
    }
}

/// The state after a new connection named `id` joined the pool, idle.
pub open spec fn spec_admitted(v: PoolView, p: Protocol, ip: IPVersion, id: u64, now: Clock) -> PoolView {
    PoolView {
        conns: v.conns.push(spec_new_connection(id, p, ip, now)),
        stats: stats_apply(v.stats, |s: Stats| stat_created(s, p, ip)),
        ..v
    }
}

/// The state after the idle connection at position `i` was lent as a new one.
pub open spec fn spec_lent_new(v: PoolView, i: int, now: Clock) -> PoolView {
    PoolView {
        conns: v.conns.update(i, Connection { in_use: true, last_used_at: now.unix, ..v.conns[i] }),
        active_count: (v.active_count + 1) as usize,
        stats: stats_apply(v.stats, |s: Stats| stat_get_success(s, false)),
        ..v
    }
}

/// How a request ends when creating a connection failed: a full pool makes
/// it fail at once with the pool exhausted, counted as a failed request; any
/// other failure ends it with that error, counted as a failed request and a
/// connection error.
pub open spec fn spec_create_failed(v: PoolView, err: NetConnPoolError) -> (PoolView, NetConnPoolError) {
    match err {
        NetConnPoolError::MaxConnectionsReached { .. } => (
            PoolView { stats: stats_apply(v.stats, |s: Stats| stat_exhausted(s)), ..v },
            NetConnPoolError::PoolExhausted {
                current: v.conns.len() as usize,
                max: v.config.max_connections,
            },
        ),
        _ => (PoolView { stats: stats_apply(v.stats, |s: Stats| stat_create_failed(s)), ..v }, err),
    }
}

/// The connection at `i` after it came back: no longer borrowed, its
/// last-used time moved to `now` if it was borrowed, and the active count
/// and statistics adjusted.
pub open spec fn spec_marked_returned(v: PoolView, i: int, now: Clock) -> PoolView {
    let c = v.conns[i];
    if c.in_use {
        PoolView {
            conns: v.conns.update(i, Connection { in_use: false, last_used_at: now.unix, ..c }),
            active_count: (v.active_count - 1) as usize,
            stats: stats_apply(v.stats, |s: Stats| stat_active_dec(s)),
            ..v
        }
    } else {
        v
    }
}

/// Places the idle connection at `i` into its bucket: when the bucket is
/// unknown or full, the connection is removed instead.
pub open spec fn spec_placed_idle(v: PoolView, i: int) -> PoolView {
    let c = v.conns[i];
    match spec_bucket_index(c.protocol, c.ip_version) {
        Some(b) => if v.idle_counts[b as int] >= v.config.max_idle_connections {
            spec_removed(v, i)
        } else {
            spec_idle_pushed(v, b as int, c.id)
        },
        None => spec_removed(v, i),
    }
}

/// Whether the idle connection at `i` found room in its bucket.
pub open spec fn spec_place_fits(v: PoolView, i: int) -> bool {
    let c = v.conns[i];
    match spec_bucket_index(c.protocol, c.ip_version) {
        Some(b) => v.idle_counts[b as int] < v.config.max_idle_connections,
        None => false,
    }
}

/// A connection comes back. If the pool still has it, it stops being
/// borrowed; then it is removed if the pool is closed or the connection is
/// no longer valid, and otherwise goes back to its idle bucket (or is
/// removed when the bucket is unknown or full). A connection the pool no
/// longer has changes nothing.
pub open spec fn spec_return(v: PoolView, id: u64, now: Clock) -> (
    PoolView,
    ReturnOutcome,
) {
    if has_conn(v.conns, id) {
        let i = conn_index(v.conns, id);
        let notify = v.conns[i].in_use;
        let v1 = spec_marked_returned(v, i, now);
        if v1.closed || !spec_conn_valid(v1, i, now) {
            (spec_removed(v1, i), ReturnOutcome { notify, call_on_return: false, pooled: false })
        } else {
            (
                spec_placed_idle(v1, i),
                ReturnOutcome { notify, call_on_return: true, pooled: spec_place_fits(v1, i) },
            )
        }
    } else {
        (v, ReturnOutcome { notify: false, call_on_return: false, pooled: false })
    }
}

} // verus!

verus! {

/// Admitting a new connection with a fresh identifier into a pool with room
/// keeps the invariant.
pub proof fn lemma_inv_admitted(v: PoolView, p: Protocol, ip: IPVersion, id: u64, now: Clock)
    requires
        pool_inv(v),
        !has_conn(v.conns, id),
        v.config.max_connections > 0 ==> v.conns.len() < v.config.max_connections,
        v.conns.len() < usize::MAX,
    ensures
        pool_inv(spec_admitted(v, p, ip, id, now)),
{
    let w = spec_admitted(v, p, ip, id, now);
    let c = spec_new_connection(id, p, ip, now);
    lemma_count_push(v.conns, c);
    lemma_kind_counts_push(v.conns, c);
    lemma_kind_counts_le_len(v.conns, Protocol::TCP, IPVersion::IPv4);
    lemma_kind_counts_le_len(v.conns, Protocol::UDP, IPVersion::IPv6);
    assert forall|a: int, b: int|
        0 <= a < w.conns.len() && 0 <= b < w.conns.len() && a != b implies w.conns[a].id
        != w.conns[b].id by {
        if a < v.conns.len() && b < v.conns.len() {
            assert(w.conns[a] == v.conns[a]);
            assert(w.conns[b] == v.conns[b]);
        } else if a < v.conns.len() {
            assert(w.conns[a] == v.conns[a]);
            assert(v.conns[a].id != id);
        } else {
            assert(w.conns[b] == v.conns[b]);
            assert(v.conns[b].id != id);
        }
    }
    assert forall|a: int| 0 <= a < w.conns.len() implies !(#[trigger] w.conns[a]).closed by {
        if a < v.conns.len() {
            assert(w.conns[a] == v.conns[a]);
        }
    }
}

/// Lending a new idle connection keeps the invariant.
pub proof fn lemma_inv_lent_new(v: PoolView, i: int, now: Clock)
    requires
        pool_inv(v),
        0 <= i < v.conns.len(),
        !v.conns[i].in_use,
    ensures
        pool_inv(spec_lent_new(v, i, now)),
{
    let w = spec_lent_new(v, i, now);
    lemma_count_update(v.conns, i, w.conns[i]);
    lemma_kind_counts_update(v.conns, i, w.conns[i]);
    lemma_count_lt_len_if_idle(v.conns, i);
    assert forall|a: int, c: int|
        0 <= a < w.conns.len() && 0 <= c < w.conns.len() && a != c implies w.conns[a].id
        != w.conns[c].id by {
        assert(w.conns[a].id == v.conns[a].id);
        assert(w.conns[c].id == v.conns[c].id);
    }
    assert forall|a: int| 0 <= a < w.conns.len() implies !(#[trigger] w.conns[a]).closed by {
        assert(w.conns[a].closed == v.conns[a].closed);
    }
}

/// Marking a connection returned keeps the invariant.
pub proof fn lemma_inv_marked_returned(v: PoolView, i: int, now: Clock)
    requires
        pool_inv(v),
        0 <= i < v.conns.len(),
    ensures
        pool_inv(spec_marked_returned(v, i, now)),
        spec_marked_returned(v, i, now).conns.len() == v.conns.len(),
        spec_marked_returned(v, i, now).conns[i].id == v.conns[i].id,
        spec_marked_returned(v, i, now).conns[i].protocol == v.conns[i].protocol,
        spec_marked_returned(v, i, now).conns[i].ip_version == v.conns[i].ip_version,
        !spec_marked_returned(v, i, now).conns[i].in_use,
{
    let w = spec_marked_returned(v, i, now);
    if v.conns[i].in_use {
        lemma_count_update(v.conns, i, w.conns[i]);
        lemma_kind_counts_update(v.conns, i, w.conns[i]);
    lemma_kind_counts_update(v.conns, i, w.conns[i]);
        assert forall|a: int, c: int|
            0 <= a < w.conns.len() && 0 <= c < w.conns.len() && a != c implies w.conns[a].id
            != w.conns[c].id by {
            assert(w.conns[a].id == v.conns[a].id);
            assert(w.conns[c].id == v.conns[c].id);
        }
        assert forall|a: int| 0 <= a < w.conns.len() implies !(#[trigger] w.conns[a]).closed by {
            assert(w.conns[a].closed == v.conns[a].closed);
        }
    }
}

/// Placing an idle connection in an open pool keeps the invariant.
pub proof fn lemma_inv_placed_idle(v: PoolView, i: int)
    requires
        pool_inv(v),
        !v.closed,
        0 <= i < v.conns.len(),
    ensures
        pool_inv(spec_placed_idle(v, i)),
{
    let c = v.conns[i];
    match spec_bucket_index(c.protocol, c.ip_version) {
        Some(b) => if v.idle_counts[b as int] >= v.config.max_idle_connections {
            lemma_inv_removed(v, i);
        } else {
            lemma_inv_idle_pushed(v, b as int, c.id);
        },
        None => lemma_inv_removed(v, i),
    }
}

} // verus!

verus! {

/// The idle connection at `i`, just created, is put in its bucket, or
/// removed when the pool is closed or the bucket is unknown or full.
pub open spec fn spec_added_idle(v: PoolView, i: int, now: Clock) -> PoolView {
    if v.closed {
        spec_removed(v, i)
    } else {
        spec_placed_idle(
            PoolView {
                conns: v.conns.update(i, Connection { in_use: false, last_used_at: now.unix, ..v.conns[i] }),
                ..v
            },
            i,
        )
    }
}

/// Marking an idle connection idle again at `now` keeps the invariant.
pub proof fn lemma_inv_touched_idle(v: PoolView, i: int, now: Clock)
    requires
        pool_inv(v),
        0 <= i < v.conns.len(),
        !v.conns[i].in_use,
    ensures
        pool_inv(
            PoolView {
                conns: v.conns.update(i, Connection { in_use: false, last_used_at: now.unix, ..v.conns[i] }),
                ..v
            },
        ),
{
    let w = PoolView {
        conns: v.conns.update(i, Connection { in_use: false, last_used_at: now.unix, ..v.conns[i] }),
        ..v
    };
    lemma_count_update(v.conns, i, w.conns[i]);
    lemma_kind_counts_update(v.conns, i, w.conns[i]);
    assert forall|a: int, c: int|
        0 <= a < w.conns.len() && 0 <= c < w.conns.len() && a != c implies w.conns[a].id
        != w.conns[c].id by {
        assert(w.conns[a].id == v.conns[a].id);
        assert(w.conns[c].id == v.conns[c].id);
    }
    assert forall|a: int| 0 <= a < w.conns.len() implies !(#[trigger] w.conns[a]).closed by {
        assert(w.conns[a].closed == v.conns[a].closed);
    }
}

} // verus!

verus! {

/// Drops a popped entry of bucket `b`: its live connection is removed; a
/// stale entry changes nothing more.
pub open spec fn spec_drop_entry(v: PoolView, id: u64, b: int) -> PoolView {
    match spec_live_index(v, id, b) {
        Some(i) => spec_removed(v, i),
        None => v,
    }
}

/// Empties bucket `b` front first, dropping every entry.
pub open spec fn spec_drain_bucket(v: PoolView, b: int) -> PoolView
    decreases v.idle[b].len(),
{
    if 0 <= b < v.idle.len() && v.idle[b].len() > 0 {
        let id = v.idle[b][0];
        let v1 = spec_drop_entry(spec_idle_popped(v, b), id, b);
        spec_drain_bucket(v1, b)
    } else {
        v
    }
}

/// Closing: a closed pool stays as it is; otherwise its idle buckets are
/// emptied in order, every idle connection being removed, and the pool is
/// marked closed.
pub open spec fn spec_close_begin(v: PoolView) -> PoolView {
    if v.closed {
        v
    } else {
        let d = spec_drain_bucket(spec_drain_bucket(spec_drain_bucket(spec_drain_bucket(v, 0), 1), 2), 3);
        PoolView { closed: true, ..d }
    }
}

/// Removes every connection, first to last.
pub open spec fn spec_remove_all(v: PoolView) -> PoolView
    decreases v.conns.len(),
{
    if v.conns.len() > 0 {
        spec_remove_all(spec_removed(v, 0))
    } else {
        v
    }
}

/// Removes each listed connection that the pool still has, in order.
pub open spec fn spec_remove_ids(v: PoolView, ids: Seq<u64>) -> PoolView
    decreases ids.len(),
{
    if ids.len() == 0 {
        v
    } else {
        let v1 = if has_conn(v.conns, ids[0]) {
            spec_removed(v, conn_index(v.conns, ids[0]))
        } else {
            v
        };
        spec_remove_ids(v1, ids.drop_first())
    }
}

/// Records that the connection at `i` was reported as leaked, counting the
/// first report.
pub open spec fn spec_leak_reported(v: PoolView, i: int) -> PoolView {
    let c = v.conns[i];
    PoolView {
        conns: v.conns.update(i, Connection { leak_reported: true, ..c }),
        stats: if !c.leak_reported {
            stats_apply(v.stats, |s: Stats| Stats { leaked_connections: sat_add_i64(s.leaked_connections, 1), ..s })
        } else {
            v.stats
        },
        ..v
    }
}

/// Marks the connection at `i` unhealthy.
pub open spec fn spec_marked_unhealthy(v: PoolView, i: int) -> PoolView {
    PoolView { conns: v.conns.update(i, Connection { is_healthy: false, ..v.conns[i] }), ..v }
}

/// Whether a borrowed connection is held more than twice the leak timeout.
pub open spec fn spec_badly_leaked(c: Connection, leak_timeout: u128, now: Clock) -> bool {
    match spec_leaked_duration(c, now) {
        Some(d) => d > leak_timeout && d - leak_timeout > leak_timeout,
        None => false,
    }
}

/// The check of a borrowed connection at `i`: one held more than twice the
/// leak timeout is reported and evicted; one held longer than the timeout is
/// reported and marked unhealthy; one past its lifetime is marked unhealthy.
pub open spec fn spec_check_borrowed(v: PoolView, i: int, now: Clock) -> PoolView {
    let c = v.conns[i];
    let leak_timeout = v.config.connection_leak_timeout;
    let expired = spec_is_expired(c, v.config.max_lifetime, now);
    if spec_is_leaked(c, leak_timeout, now) {
        if spec_badly_leaked(c, leak_timeout, now) {
            spec_removed(spec_leak_reported(v, i), i)
        } else {
            spec_marked_unhealthy(spec_leak_reported(v, i), i)
        }
    } else if expired {
        spec_marked_unhealthy(v, i)
    } else {
        v
    }
}

/// Whether the idle connection `c` is due for a health check.
pub open spec fn spec_needs_health_check(v: PoolView, c: Connection, now: Clock) -> bool {
    v.config.enable_health_check && v.config.has_health_checker && spec_should_health_check(
        c,
        v.config.health_check_interval,
        now,
    )
}

/// The health-check attempts counted.
pub open spec fn spec_attempt_counted(v: PoolView) -> PoolView {
    PoolView {
        stats: stats_apply(v.stats, |s: Stats| Stats { health_check_attempts: sat_add_i64(s.health_check_attempts, 1), ..s }),
        ..v
    }
}

/// The scan of the connections named in `ids[k..]`: borrowed connections are
/// checked for leaks and lifetime; idle connections due for a health check
/// are listed for it (and the attempt counted); other idle connections that
/// are no longer valid are listed for removal. Gives the state, the
/// connections to check and the connections to remove.
pub open spec fn spec_scan_from(v: PoolView, ids: Seq<u64>, k: int, now: Clock) -> (
    PoolView,
    Seq<u64>,
    Seq<u64>,
)
    decreases ids.len() - k,
{
    if k < 0 || k >= ids.len() {
        (v, Seq::empty(), Seq::empty())
    } else {
        let id = ids[k];
        if !has_conn(v.conns, id) {
            spec_scan_from(v, ids, k + 1, now)
        } else {
            let i = conn_index(v.conns, id);
            let c = v.conns[i];
            if c.in_use {
                spec_scan_from(spec_check_borrowed(v, i, now), ids, k + 1, now)
            } else if spec_needs_health_check(v, c, now) {
                let r = spec_scan_from(spec_attempt_counted(v), ids, k + 1, now);
                (r.0, seq![id] + r.1, r.2)
            } else if !spec_conn_valid(v, i, now) {
                let r = spec_scan_from(v, ids, k + 1, now);
                (r.0, r.1, seq![id] + r.2)
            } else {
                spec_scan_from(v, ids, k + 1, now)
            }
        }
    }
}

/// The identifiers of a sequence of connections.
pub open spec fn conn_ids(conns: Seq<Connection>) -> Seq<u64> {
    conns.map_values(|c: Connection| c.id)
}

/// The first phase of the periodic cleanup: nothing happens in a closed
/// pool; otherwise every connection is scanned (see `spec_scan_from`), the
/// invalid idle ones are removed, and the ones due for a health check are
/// handed back.
pub open spec fn spec_cleanup_scan(v: PoolView, now: Clock) -> (PoolView, Seq<u64>) {
    if v.closed {
        (v, Seq::empty())
    } else {
        let r = spec_scan_from(v, conn_ids(v.conns), 0, now);
        (spec_remove_ids(r.0, r.2), r.1)
    }
}

/// Applies one health-check result: a connection that is gone or borrowed
/// again is left alone; a failed check is counted and the connection
/// marked unhealthy and removed; a passed check is recorded, and the
/// connection removed if it is no longer valid.
pub open spec fn spec_apply_result(v: PoolView, id: u64, ok: bool, now: Clock) -> PoolView {
    if !has_conn(v.conns, id) || v.conns[conn_index(v.conns, id)].in_use {
        v
    } else {
        let i = conn_index(v.conns, id);
        let c = v.conns[i];
        if !ok {
            let v1 = PoolView {
                conns: v.conns.update(i, Connection { is_healthy: false, ..c }),
                stats: stats_apply(
                    v.stats,
                    |s: Stats|
                        Stats {
                            health_check_failures: sat_add_i64(s.health_check_failures, 1),
                            unhealthy_connections: sat_add_i64(s.unhealthy_connections, 1),
                            ..s
                        },
                ),
                ..v
            };
            spec_removed(v1, i)
        } else {
            let v1 = PoolView {
                conns: v.conns.update(i, Connection { is_healthy: true, last_health_check_at: now.unix, ..c }),
                ..v
            };
            if !spec_conn_valid(v1, i, now) {
                spec_removed(v1, i)
            } else {
                v1
            }
        }
    }
}

/// The second phase of the cleanup: the results `results[k..]` are applied
/// in order while the pool is open.
pub open spec fn spec_apply_results_from(v: PoolView, results: Seq<(u64, bool)>, k: int, now: Clock) -> PoolView
    decreases results.len() - k,
{
    if k < 0 || k >= results.len() || v.closed {
        v
    } else {
        spec_apply_results_from(spec_apply_result(v, results[k].0, results[k].1, now), results, k + 1, now)
    }
}

} // verus!

verus! {

/// Replacing a connection by one with the same identifier, protocol, IP
/// version, open/closed flag and borrowed flag keeps the invariant.
pub proof fn lemma_inv_conn_touched(v: PoolView, i: int, c: Connection)
    requires
        pool_inv(v),
        0 <= i < v.conns.len(),
        c.id == v.conns[i].id,
        c.protocol == v.conns[i].protocol,
        c.ip_version == v.conns[i].ip_version,
        c.closed == v.conns[i].closed,
        c.in_use == v.conns[i].in_use,
    ensures
        pool_inv(PoolView { conns: v.conns.update(i, c), ..v }),
{
    let w = PoolView { conns: v.conns.update(i, c), ..v };
    lemma_count_update(v.conns, i, c);
    lemma_kind_counts_update(v.conns, i, c);
    assert forall|a: int, b: int|
        0 <= a < w.conns.len() && 0 <= b < w.conns.len() && a != b implies w.conns[a].id
        != w.conns[b].id by {
        assert(w.conns[a].id == v.conns[a].id);
        assert(w.conns[b].id == v.conns[b].id);
    }
    assert forall|a: int| 0 <= a < w.conns.len() implies !(#[trigger] w.conns[a]).closed by {
        assert(w.conns[a].closed == v.conns[a].closed);
    }
}

/// Changing only untracked statistics, without enabling or disabling them,
/// keeps the invariant.
pub proof fn lemma_inv_stats_changed(v: PoolView, s: Option<Stats>)
    requires
        pool_inv(v),
        s is Some <==> v.stats is Some,
        s matches Some(t) ==> same_tracked(t, v.stats->0),
    ensures
        pool_inv(PoolView { stats: s, ..v }),
{
}

/// Emptying a bucket keeps the invariant and the other buckets, and leaves
/// the pool's closed flag and configuration as they were.
pub proof fn lemma_drain_bucket(v: PoolView, b: int)
    requires
        pool_inv(v),
        0 <= b < BUCKET_COUNT,
    ensures
        ({
            let w = spec_drain_bucket(v, b);
            &&& pool_inv(w)
            &&& w.closed == v.closed
            &&& w.config == v.config
            &&& w.idle[b].len() == 0
            &&& forall|c: int| 0 <= c < BUCKET_COUNT && c != b ==> w.idle[c] == v.idle[c]
        }),
    decreases v.idle[b].len(),
{
    if v.idle[b].len() > 0 {
        let id = v.idle[b][0];
        lemma_inv_idle_popped(v, b);
        let v1 = spec_idle_popped(v, b);
        match spec_live_index(v1, id, b) {
            Some(i) => lemma_inv_removed(v1, i),
            None => {},
        }
        lemma_drain_bucket(spec_drop_entry(v1, id, b), b);
    }
}

} // verus!
