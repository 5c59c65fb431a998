//! Properties of the pool that span several operations.

use vstd::prelude::*;
use crate::connection::{Clock, spec_is_expired, spec_valid_for_borrow};
use crate::errors::NetConnPoolError;
use crate::ipversion::IPVersion;
use crate::pool_model::{
    BUCKET_COUNT, GetStep, PoolView, bucket_ip_version, bucket_protocol, conn_index, count_in_use,
    has_conn, ids_unique, lemma_conn_index, lemma_inv_idle_popped, lemma_inv_lent,
    lemma_inv_removed, lemma_inv_marked_returned, lemma_inv_placed_idle,
    matches_request, pool_inv, spec_acquire, spec_acquire_from, spec_bucket_index,
    spec_close_begin, lemma_drain_bucket, spec_create_begin, spec_create_failed, spec_drain_bucket, spec_drop_entry,
    spec_idle_popped, spec_live_index, spec_remove_all, spec_removed, spec_return,
    spec_target_buckets, spec_marked_returned, spec_placed_idle, idle_stats_exact,
    active_stats_exact, idle_entries, spec_check_borrowed, spec_leak_reported, spec_scan_from,
    spec_attempt_counted, spec_needs_health_check, spec_remove_ids, spec_cleanup_scan, conn_ids,
    spec_badly_leaked, lemma_inv_conn_touched, lemma_inv_stats_changed,
};
use crate::connection::Connection;
use crate::stats::spec_snapshot;
use crate::protocol::Protocol;
use crate::mode::PoolMode;
use crate::pool_model::{CreateAction, count_protocol, count_ip_version};

verus! {

/// A bucket holds exactly the connections of its protocol and IP version.
pub proof fn lemma_bucket_index_inverse(p: Protocol, ip: IPVersion, b: usize)
    requires
        spec_bucket_index(p, ip) == Some(b),
    ensures
        b < BUCKET_COUNT,
        p == bucket_protocol(b as int),
        ip == bucket_ip_version(b as int),
{
}

/// Every bucket a request looks in holds connections that satisfy it.
pub proof fn lemma_target_buckets_match(p: Option<Protocol>, ip: Option<IPVersion>)
    ensures
        forall|k: int|
            0 <= k < spec_target_buckets(p, ip).len() ==> {
                let b = #[trigger] spec_target_buckets(p, ip)[k];
                &&& b < BUCKET_COUNT
                &&& matches_request(bucket_protocol(b as int), bucket_ip_version(b as int), p, ip)
            },
{
}

/// A connection idle after another one was removed was already idle before.
proof fn lemma_idle_before_removal(conns: Seq<Connection>, i: int, id: u64)
    requires
        ids_unique(conns),
        0 <= i < conns.len(),
        has_conn(conns.remove(i), id),
        !conns.remove(i)[conn_index(conns.remove(i), id)].in_use,
    ensures
        has_conn(conns, id),
        !conns[conn_index(conns, id)].in_use,
{
    let r = conns.remove(i);
    let j = conn_index(r, id);
    let j0 = if j < i {
        j
    } else {
        j + 1
    };
    assert(r[j] == conns[j0]);
    lemma_conn_index(conns, j0);
}

/// Searching buckets that all satisfy a request keeps the invariant, and a
/// connection it lends was idle, is now borrowed and valid, and satisfies
/// the request; the request asks for its UDP read buffer to be drained
/// exactly when the configuration says so and the connection is UDP.
pub proof fn lemma_acquire_from_lends_matching(
    v: PoolView,
    buckets: Seq<usize>,
    k: int,
    now: Clock,
    p: Option<Protocol>,
    ip: Option<IPVersion>,
)
    requires
        pool_inv(v),
        0 <= k,
        forall|j: int|
            0 <= j < buckets.len() ==> {
                let b = #[trigger] buckets[j];
                &&& b < BUCKET_COUNT
                &&& matches_request(bucket_protocol(b as int), bucket_ip_version(b as int), p, ip)
            },
    ensures
        ({
            let (w, step) = spec_acquire_from(v, buckets, k, now);
            &&& pool_inv(w)
            &&& (step is Create || step is Borrowed)
            &&& w.config == v.config
            &&& step matches GetStep::Borrowed { id, reused, clear_udp_buffer } ==> {
                &&& reused
                &&& clear_udp_buffer == (v.config.clear_udp_buffer_on_return
                    && w.conns[conn_index(w.conns, id)].protocol == Protocol::UDP)
                &&& has_conn(v.conns, id)
                &&& !v.conns[conn_index(v.conns, id)].in_use
                &&& has_conn(w.conns, id)
                &&& w.conns[conn_index(w.conns, id)].in_use
                &&& matches_request(
                    w.conns[conn_index(w.conns, id)].protocol,
                    w.conns[conn_index(w.conns, id)].ip_version,
                    p,
                    ip,
                )
                &&& spec_valid_for_borrow(
                    w.conns[conn_index(w.conns, id)],
                    w.config.max_lifetime,
                    w.config.idle_timeout,
                    now,
                )
            }
        }),
    decreases buckets.len() - k,
{
    if k >= buckets.len() {
    } else {
        let b = buckets[k] as int;
        assert(buckets[k] < BUCKET_COUNT);
        if v.idle[b].len() == 0 {
            lemma_acquire_from_lends_matching(v, buckets, k + 1, now, p, ip);
        } else {
            let id = v.idle[b][0];
            lemma_inv_idle_popped(v, b);
            let v1 = spec_idle_popped(v, b);
            match spec_live_index(v1, id, b) {
                Some(i) => {
                    if crate::pool_model::spec_conn_valid(v1, i, now) {
                        lemma_inv_lent(v1, i, now);
                        let w = crate::pool_model::spec_lent_from_idle(v1, i, now);
                        lemma_conn_index(w.conns, i);
                        lemma_bucket_index_inverse(v1.conns[i].protocol, v1.conns[i].ip_version, b as usize);
                    } else {
                        lemma_inv_removed(v1, i);
                        lemma_acquire_from_lends_matching(spec_removed(v1, i), buckets, k + 1, now, p, ip);
                        let r = spec_acquire_from(spec_removed(v1, i), buckets, k + 1, now);
                        match r.1 {
                            GetStep::Borrowed { id: got, .. } => {
                                lemma_idle_before_removal(v1.conns, i, got);
                            },
                            _ => {},
                        }
                    }
                },
                None => {
                    lemma_acquire_from_lends_matching(v1, buckets, k + 1, now, p, ip);
                },
            }
        }
    }
}

/// A request for a protocol and IP version is only ever lent a connection
/// of that protocol and IP version (an unknown or missing choice matches
/// anything), and never one that is already borrowed; the connection is
/// then borrowed, and its UDP read buffer is to be drained exactly when the
/// configuration enables it and the connection is UDP; a closed pool refuses
/// every request.
pub proof fn lemma_get_lends_matching(
    v: PoolView,
    p: Option<Protocol>,
    ip: Option<IPVersion>,
    timeout: u128,
    elapsed: u128,
    now: Clock,
)
    requires
        pool_inv(v),
    ensures
        ({
            let (w, step) = spec_acquire(v, spec_target_buckets(p, ip), timeout, elapsed, now);
            &&& pool_inv(w)
            &&& v.closed ==> step == GetStep::Failed(NetConnPoolError::PoolClosed) && w == v
            &&& step matches GetStep::Borrowed { id, clear_udp_buffer, reused } ==> {
                &&& reused
                &&& clear_udp_buffer == (v.config.clear_udp_buffer_on_return
                    && w.conns[conn_index(w.conns, id)].protocol == Protocol::UDP)
                &&& has_conn(v.conns, id)
                &&& !v.conns[conn_index(v.conns, id)].in_use
                &&& has_conn(w.conns, id)
                &&& w.conns[conn_index(w.conns, id)].in_use
                &&& matches_request(
                    w.conns[conn_index(w.conns, id)].protocol,
                    w.conns[conn_index(w.conns, id)].ip_version,
                    p,
                    ip,
                )
            }
        }),
{
    lemma_target_buckets_match(p, ip);
    if !v.closed && elapsed <= timeout {
        lemma_acquire_from_lends_matching(v, spec_target_buckets(p, ip), 0, now, p, ip);
    }
}

/// A connection that comes back into an open pool, still healthy and within
/// its lifetime, while its bucket is empty, is put back in that bucket, and
/// the next request for its protocol and IP version gets that very
/// connection again, as a reuse.
pub proof fn lemma_return_then_get_reuses(
    v: PoolView,
    id: u64,
    timeout: u128,
    elapsed: u128,
    now: Clock,
)
    requires
        pool_inv(v),
        !v.closed,
        has_conn(v.conns, id),
        v.conns[conn_index(v.conns, id)].in_use,
        v.conns[conn_index(v.conns, id)].is_healthy,
        !spec_is_expired(v.conns[conn_index(v.conns, id)], v.config.max_lifetime, now),
        spec_bucket_index(
            v.conns[conn_index(v.conns, id)].protocol,
            v.conns[conn_index(v.conns, id)].ip_version,
        ) is Some,
        v.idle[spec_bucket_index(
            v.conns[conn_index(v.conns, id)].protocol,
            v.conns[conn_index(v.conns, id)].ip_version,
        )->0 as int].len() == 0,
        elapsed <= timeout,
    ensures
        ({
            let c = v.conns[conn_index(v.conns, id)];
            let (v1, out) = spec_return(v, id, now);
            let (v2, step) = spec_acquire(
                v1,
                spec_target_buckets(Some(c.protocol), Some(c.ip_version)),
                timeout,
                elapsed,
                now,
            );
            &&& out.notify && out.call_on_return && out.pooled
            &&& pool_inv(v1)
            &&& step matches GetStep::Borrowed { id: got, reused, .. } && got == id && reused
        }),
{
    let i = conn_index(v.conns, id);
    let c = v.conns[i];
    let b = spec_bucket_index(c.protocol, c.ip_version)->0;
    lemma_bucket_index_inverse(c.protocol, c.ip_version, b);
    lemma_inv_marked_returned(v, i, now);
    let vm = spec_marked_returned(v, i, now);
    assert(vm.conns[i].last_used_at == now.unix);
    assert(crate::pool_model::spec_conn_valid(vm, i, now));
    assert(vm.idle_counts[b as int] == 0);
    assert(crate::config::config_valid(vm.config));
    lemma_inv_placed_idle(vm, i);
    let v1 = spec_placed_idle(vm, i);
    assert(v1.idle[b as int] =~= seq![id]);
    assert(spec_target_buckets(Some(c.protocol), Some(c.ip_version)) =~= seq![b]);
    let vp = spec_idle_popped(v1, b as int);
    lemma_conn_index(vp.conns, i);
    assert(spec_live_index(vp, id, b as int) == Some(i));
    assert(crate::pool_model::spec_conn_valid(vp, i, now));
}

/// Closing a pool, open or already closed, keeps the invariant, leaves it
/// closed with every idle bucket empty (no idle entry counted), after which
/// every request is refused as closed; closing again changes nothing.
pub proof fn lemma_close(v: PoolView, buckets: Seq<usize>, timeout: u128, elapsed: u128, now: Clock)
    requires
        pool_inv(v),
    ensures
        ({
            let w = spec_close_begin(v);
            &&& pool_inv(w)
            &&& w.closed
            &&& forall|b: int|
                0 <= b < BUCKET_COUNT ==> #[trigger] w.idle[b].len() == 0 && w.idle_counts[b] == 0
            &&& spec_close_begin(w) == w
            &&& spec_acquire(w, buckets, timeout, elapsed, now) == (w, GetStep::Failed(NetConnPoolError::PoolClosed))
        }),
{
    if !v.closed {
        lemma_drain_bucket(v, 0);
        let v1 = spec_drain_bucket(v, 0);
        lemma_drain_bucket(v1, 1);
        let v2 = spec_drain_bucket(v1, 1);
        lemma_drain_bucket(v2, 2);
        let v3 = spec_drain_bucket(v2, 2);
        lemma_drain_bucket(v3, 3);
        let w = PoolView { closed: true, ..spec_drain_bucket(v3, 3) };
        assert(w.idle[0].len() == 0);
        assert(w.idle[1].len() == 0);
        assert(w.idle[2].len() == 0);
        assert(w.idle[3].len() == 0);
    }
}

/// Removing every connection keeps the invariant and leaves none, and none
/// borrowed.
pub proof fn lemma_remove_all(v: PoolView)
    requires
        pool_inv(v),
    ensures
        pool_inv(spec_remove_all(v)),
        spec_remove_all(v).conns.len() == 0,
        spec_remove_all(v).active_count == 0,
        spec_remove_all(v).closed == v.closed,
    decreases v.conns.len(),
{
    if v.conns.len() > 0 {
        lemma_inv_removed(v, 0);
        lemma_remove_all(spec_removed(v, 0));
    }
}

/// A full pool refuses to create a connection, and the request then fails at
/// once with the pool exhausted, without waiting for a return.
pub proof fn lemma_full_pool_fails_fast(v: PoolView, rp: Option<Protocol>)
    requires
        pool_inv(v),
        v.config.max_connections > 0,
        v.conns.len() == v.config.max_connections,
    ensures
        spec_create_begin(v, rp) == Err::<crate::pool_model::CreateAction, NetConnPoolError>(
            NetConnPoolError::MaxConnectionsReached {
                current: v.config.max_connections,
                max: v.config.max_connections,
            },
        ),
        spec_create_failed(v, spec_create_begin(v, rp)->Err_0).1 == (NetConnPoolError::PoolExhausted {
            current: v.config.max_connections,
            max: v.config.max_connections,
        }),
        pool_inv(spec_create_failed(v, spec_create_begin(v, rp)->Err_0).0),
{
}

/// The pool never holds more connections than allowed, no two of them share
/// an identifier, no bucket holds more idle entries than allowed, a closed
/// pool holds no idle entry, and the active count is the number of borrowed
/// connections.
pub proof fn lemma_pool_bounds(v: PoolView)
    requires
        pool_inv(v),
    ensures
        v.config.max_connections > 0 ==> v.conns.len() <= v.config.max_connections,
        forall|a: int, b: int|
            0 <= a < v.conns.len() && 0 <= b < v.conns.len() && a != b ==> #[trigger] v.conns[a].id
                != #[trigger] v.conns[b].id,
        forall|b: int| 0 <= b < BUCKET_COUNT ==> #[trigger] v.idle_counts[b] <= v.config.max_idle_connections,
        v.active_count == count_in_use(v.conns),
        v.active_count <= v.conns.len(),
        v.closed ==> forall|b: int|
            0 <= b < BUCKET_COUNT ==> #[trigger] v.idle[b].len() == 0 && v.idle_counts[b] == 0,
{
    crate::pool_model::lemma_count_le_len(v.conns);
}

/// The statistics agree with the pool: the idle counters (in all, by
/// protocol and by IP version) count the entries in the idle buckets, so
/// they never exceed the idle limit per bucket; the count of borrowed
/// connections is the number of connections lent out, and the current counts
/// are the numbers of live connections (in all, never above the limit, and
/// of each protocol and each IP version). This holds wherever
/// the limits keep the counters clear of the bounds of `i64`.
pub proof fn lemma_stats_match_pool(v: PoolView)
    requires
        pool_inv(v),
        v.stats is Some,
    ensures
        ({
            let s = spec_snapshot(v.stats->0);
            let max_idle = v.config.max_idle_connections;
            &&& idle_stats_exact(v.config) ==> {
                &&& s.current_idle_connections == idle_entries(v)
                &&& s.current_idle_connections <= 4 * max_idle
                &&& s.current_tcp_idle_connections == v.idle[0].len() + v.idle[1].len()
                &&& s.current_udp_idle_connections == v.idle[2].len() + v.idle[3].len()
                &&& s.current_ipv4_idle_connections == v.idle[0].len() + v.idle[2].len()
                &&& s.current_ipv6_idle_connections == v.idle[1].len() + v.idle[3].len()
                &&& s.current_tcp_idle_connections <= 2 * max_idle
                &&& s.current_udp_idle_connections <= 2 * max_idle
            }
            &&& active_stats_exact(v.config) ==> {
                &&& s.current_active_connections == count_in_use(v.conns)
                &&& s.current_connections == v.conns.len()
                &&& s.current_connections <= v.config.max_connections
                &&& s.current_tcp_connections == count_protocol(v.conns, Protocol::TCP)
                &&& s.current_udp_connections == count_protocol(v.conns, Protocol::UDP)
                &&& s.current_ipv4_connections == count_ip_version(v.conns, IPVersion::IPv4)
                &&& s.current_ipv6_connections == count_ip_version(v.conns, IPVersion::IPv6)
            }
        }),
{
    assert(v.idle_counts[0] <= v.config.max_idle_connections);
    assert(v.idle_counts[1] <= v.config.max_idle_connections);
    assert(v.idle_counts[2] <= v.config.max_idle_connections);
    assert(v.idle_counts[3] <= v.config.max_idle_connections);
}

/// Replacing the connection at `i` by one with the same identifier brings
/// in no identifier.
proof fn lemma_update_adds_no_id(conns: Seq<Connection>, i: int, c: Connection, x: u64)
    requires
        0 <= i < conns.len(),
        c.id == conns[i].id,
        !has_conn(conns, x),
    ensures
        !has_conn(conns.update(i, c), x),
{
    let w = conns.update(i, c);
    assert forall|a: int| 0 <= a < w.len() implies w[a].id != x by {
        assert(w[a].id == conns[a].id);
    }
}

/// Removing the connection at `i` brings in no identifier, and takes its
/// own away when identifiers are unique.
proof fn lemma_remove_adds_no_id(conns: Seq<Connection>, i: int, x: u64)
    requires
        0 <= i < conns.len(),
        !has_conn(conns, x) || (ids_unique(conns) && x == conns[i].id),
    ensures
        !has_conn(conns.remove(i), x),
{
    let w = conns.remove(i);
    assert forall|a: int| 0 <= a < w.len() implies w[a].id != x by {
        if a < i {
            assert(w[a] == conns[a]);
        } else {
            assert(w[a] == conns[a + 1]);
        }
    }
}

/// Checking a borrowed connection brings in no identifier.
proof fn lemma_check_borrowed_adds_no_id(v: PoolView, i: int, now: Clock, x: u64)
    requires
        0 <= i < v.conns.len(),
        !has_conn(v.conns, x),
    ensures
        !has_conn(spec_check_borrowed(v, i, now).conns, x),
{
    let c = v.conns[i];
    let lr = spec_leak_reported(v, i);
    lemma_update_adds_no_id(v.conns, i, Connection { leak_reported: true, ..c }, x);
    lemma_update_adds_no_id(lr.conns, i, Connection { is_healthy: false, ..lr.conns[i] }, x);
    lemma_remove_adds_no_id(lr.conns, i, x);
    lemma_update_adds_no_id(v.conns, i, Connection { is_healthy: false, ..c }, x);
}

/// Checking a borrowed connection keeps the invariant.
proof fn lemma_inv_check_borrowed(v: PoolView, i: int, now: Clock)
    requires
        pool_inv(v),
        0 <= i < v.conns.len(),
    ensures
        pool_inv(spec_check_borrowed(v, i, now)),
        spec_check_borrowed(v, i, now).config == v.config,
        spec_check_borrowed(v, i, now).conns.len() <= v.conns.len(),
{
    let c = v.conns[i];
    let lr = spec_leak_reported(v, i);
    let w1 = PoolView { conns: v.conns.update(i, Connection { leak_reported: true, ..c }), ..v };
    lemma_inv_conn_touched(v, i, Connection { leak_reported: true, ..c });
    lemma_inv_stats_changed(w1, lr.stats);
    assert(lr == PoolView { stats: lr.stats, ..w1 });
    lemma_inv_conn_touched(lr, i, Connection { is_healthy: false, ..lr.conns[i] });
    lemma_inv_removed(lr, i);
    lemma_inv_conn_touched(v, i, Connection { is_healthy: false, ..c });
}

/// The scan brings in no identifier, keeps the invariant, and never makes
/// the pool larger.
proof fn lemma_scan_adds_no_id(v: PoolView, ids: Seq<u64>, k: int, now: Clock, x: u64)
    requires
        pool_inv(v),
        !has_conn(v.conns, x),
    ensures
        !has_conn(spec_scan_from(v, ids, k, now).0.conns, x),
        pool_inv(spec_scan_from(v, ids, k, now).0),
        spec_scan_from(v, ids, k, now).0.conns.len() <= v.conns.len(),
    decreases ids.len() - k,
{
    if k < 0 || k >= ids.len() {
    } else {
        let id = ids[k];
        if !has_conn(v.conns, id) {
            lemma_scan_adds_no_id(v, ids, k + 1, now, x);
        } else {
            let i = conn_index(v.conns, id);
            let c = v.conns[i];
            if c.in_use {
                lemma_check_borrowed_adds_no_id(v, i, now, x);
                lemma_inv_check_borrowed(v, i, now);
                lemma_scan_adds_no_id(spec_check_borrowed(v, i, now), ids, k + 1, now, x);
            } else if spec_needs_health_check(v, c, now) {
                let w = spec_attempt_counted(v);
                lemma_inv_stats_changed(v, w.stats);
                assert(w == PoolView { stats: w.stats, ..v });
                lemma_scan_adds_no_id(w, ids, k + 1, now, x);
            } else {
                lemma_scan_adds_no_id(v, ids, k + 1, now, x);
            }
        }
    }
}

/// Removing listed connections brings in no identifier and never makes the
/// pool larger.
proof fn lemma_remove_ids_adds_no_id(v: PoolView, ids: Seq<u64>, x: u64)
    requires
        !has_conn(v.conns, x),
    ensures
        !has_conn(spec_remove_ids(v, ids).conns, x),
        spec_remove_ids(v, ids).conns.len() <= v.conns.len(),
    decreases ids.len(),
{
    if ids.len() > 0 {
        if has_conn(v.conns, ids[0]) {
            let i = conn_index(v.conns, ids[0]);
            lemma_remove_adds_no_id(v.conns, i, x);
            lemma_remove_ids_adds_no_id(spec_removed(v, i), ids.drop_first(), x);
        } else {
            lemma_remove_ids_adds_no_id(v, ids.drop_first(), x);
        }
    }
}

/// The scan of `ids[k..]`, which names the badly leaked connection `c` (at
/// position `j` of the pool) at `k0`, evicts it and leaves the pool smaller.
proof fn lemma_scan_evicts(v: PoolView, ids: Seq<u64>, k: int, k0: int, j: int, now: Clock, c: Connection)
    requires
        pool_inv(v),
        0 <= k <= k0 < ids.len(),
        ids[k0] == c.id,
        0 <= j < v.conns.len(),
        v.conns[j] == c,
        c.in_use,
        v.config.connection_leak_timeout != 0,
        spec_badly_leaked(c, v.config.connection_leak_timeout, now),
    ensures
        !has_conn(spec_scan_from(v, ids, k, now).0.conns, c.id),
        pool_inv(spec_scan_from(v, ids, k, now).0),
        spec_scan_from(v, ids, k, now).0.conns.len() < v.conns.len(),
    decreases ids.len() - k,
{
    lemma_conn_index(v.conns, j);
    let id = ids[k];
    if id == c.id {
        let i = conn_index(v.conns, id);
        assert(i == j);
        let lr = spec_leak_reported(v, i);
        lemma_inv_check_borrowed(v, i, now);
        assert(spec_check_borrowed(v, i, now) == spec_removed(lr, i));
        assert(lr.conns[i].id == c.id);
        assert(ids_unique(lr.conns)) by {
            lemma_inv_conn_touched(v, i, Connection { leak_reported: true, ..c });
        }
        lemma_remove_adds_no_id(lr.conns, i, c.id);
        lemma_scan_adds_no_id(spec_check_borrowed(v, i, now), ids, k + 1, now, c.id);
    } else if !has_conn(v.conns, id) {
        lemma_scan_evicts(v, ids, k + 1, k0, j, now, c);
    } else {
        let i = conn_index(v.conns, id);
        let d = v.conns[i];
        assert(i != j);
        if d.in_use {
            let w = spec_check_borrowed(v, i, now);
            lemma_inv_check_borrowed(v, i, now);
            let lr = spec_leak_reported(v, i);
            if w.conns.len() < v.conns.len() {
                // the connection at `i` was evicted; `c` moved down if it came after it
                assert(w == spec_removed(lr, i));
                let j1 = if j < i { j } else { j - 1 };
                assert(w.conns[j1] == lr.conns[j]);
                lemma_scan_evicts(w, ids, k + 1, k0, j1, now, c);
            } else {
                assert(w.conns[j] == v.conns[j]);
                lemma_scan_evicts(w, ids, k + 1, k0, j, now, c);
            }
        } else if spec_needs_health_check(v, d, now) {
            let w = spec_attempt_counted(v);
            lemma_inv_stats_changed(v, w.stats);
            assert(w == PoolView { stats: w.stats, ..v });
            lemma_scan_evicts(w, ids, k + 1, k0, j, now, c);
        } else {
            lemma_scan_evicts(v, ids, k + 1, k0, j, now, c);
        }
    }
}

/// A borrowed connection held more than twice the (nonzero) leak timeout is
/// evicted by the next cleanup of an open pool, which frees its place.
pub proof fn lemma_cleanup_evicts_badly_leaked(v: PoolView, j: int, now: Clock)
    requires
        pool_inv(v),
        !v.closed,
        0 <= j < v.conns.len(),
        v.conns[j].in_use,
        v.config.connection_leak_timeout != 0,
        spec_badly_leaked(v.conns[j], v.config.connection_leak_timeout, now),
    ensures
        !has_conn(spec_cleanup_scan(v, now).0.conns, v.conns[j].id),
        spec_cleanup_scan(v, now).0.conns.len() < v.conns.len(),
{
    let ids = conn_ids(v.conns);
    assert(ids[j] == v.conns[j].id);
    lemma_scan_evicts(v, ids, 0, j, j, now, v.conns[j]);
    let r = spec_scan_from(v, ids, 0, now);
    lemma_remove_ids_adds_no_id(r.0, r.2, v.conns[j].id);
}

/// A connection given back to a closed pool is not pooled: it leaves the
/// pool, its socket is queued for closing, and the borrow ends.
pub proof fn lemma_return_to_closed_pool(v: PoolView, id: u64, now: Clock)
    requires
        pool_inv(v),
        v.closed,
        has_conn(v.conns, id),
    ensures
        ({
            let (w, out) = spec_return(v, id, now);
            &&& pool_inv(w)
            &&& !out.pooled && !out.call_on_return
            &&& out.notify == v.conns[conn_index(v.conns, id)].in_use
            &&& !has_conn(w.conns, id)
            &&& w.pending_close == v.pending_close.push(id)
            &&& w.active_count == count_in_use(w.conns)
            &&& w.idle == v.idle
        }),
{
    let i = conn_index(v.conns, id);
    lemma_inv_marked_returned(v, i, now);
    let v1 = spec_marked_returned(v, i, now);
    lemma_inv_removed(v1, i);
    assert(v1.conns[i].id == id);
    lemma_remove_adds_no_id(v1.conns, i, id);
}

/// Buckets that are empty are passed over by the search.
proof fn lemma_skip_empty_buckets(v: PoolView, buckets: Seq<usize>, k: int, kb: int, now: Clock)
    requires
        0 <= k <= kb <= buckets.len(),
        forall|j: int| k <= j < kb ==> #[trigger] v.idle[buckets[j] as int].len() == 0,
    ensures
        spec_acquire_from(v, buckets, k, now) == spec_acquire_from(v, buckets, kb, now),
    decreases kb - k,
{
    if k < kb {
        assert(v.idle[buckets[k] as int].len() == 0);
        lemma_skip_empty_buckets(v, buckets, k + 1, kb, now);
    }
}

/// A valid borrowed connection given back to an open pool is lent again by
/// the next request it satisfies, when the buckets that request looks in
/// were empty: the request reuses it and creates nothing.
pub proof fn lemma_return_then_matching_get_reuses(
    v: PoolView,
    id: u64,
    p: Option<Protocol>,
    ip: Option<IPVersion>,
    timeout: u128,
    elapsed: u128,
    now: Clock,
)
    requires
        pool_inv(v),
        !v.closed,
        has_conn(v.conns, id),
        v.conns[conn_index(v.conns, id)].in_use,
        v.conns[conn_index(v.conns, id)].is_healthy,
        !spec_is_expired(v.conns[conn_index(v.conns, id)], v.config.max_lifetime, now),
        spec_bucket_index(
            v.conns[conn_index(v.conns, id)].protocol,
            v.conns[conn_index(v.conns, id)].ip_version,
        ) is Some,
        matches_request(
            v.conns[conn_index(v.conns, id)].protocol,
            v.conns[conn_index(v.conns, id)].ip_version,
            p,
            ip,
        ),
        forall|j: int|
            0 <= j < spec_target_buckets(p, ip).len() ==> #[trigger] v.idle[spec_target_buckets(p, ip)[j] as int].len()
                == 0,
        elapsed <= timeout,
    ensures
        ({
            let (v1, out) = spec_return(v, id, now);
            let (v2, step) = spec_acquire(v1, spec_target_buckets(p, ip), timeout, elapsed, now);
            &&& out.notify && out.call_on_return && out.pooled
            &&& step matches GetStep::Borrowed { id: got, reused, .. } && got == id && reused
        }),
{
    let i = conn_index(v.conns, id);
    let c = v.conns[i];
    let b = spec_bucket_index(c.protocol, c.ip_version)->0;
    lemma_bucket_index_inverse(c.protocol, c.ip_version, b);
    lemma_target_buckets_match(p, ip);
    let buckets = spec_target_buckets(p, ip);
    let any_p = p is None || p == Some(Protocol::Unknown);
    let any_v = ip is None || ip == Some(IPVersion::Unknown);
    let kb: int = if any_p && any_v {
        b as int
    } else if any_p {
        if c.protocol == Protocol::TCP { 0 } else { 1 }
    } else if any_v {
        if c.ip_version == IPVersion::IPv4 { 0 } else { 1 }
    } else {
        0
    };
    assert(buckets[kb] == b);
    assert(v.idle[b as int].len() == 0);
    lemma_inv_marked_returned(v, i, now);
    let vm = spec_marked_returned(v, i, now);
    assert(vm.conns[i].last_used_at == now.unix);
    assert(crate::pool_model::spec_conn_valid(vm, i, now));
    assert(vm.idle_counts[b as int] == 0);
    assert(crate::config::config_valid(vm.config));
    lemma_inv_placed_idle(vm, i);
    let v1 = spec_placed_idle(vm, i);
    assert(v1.idle[b as int] =~= seq![id]);
    assert forall|j: int| 0 <= j < kb implies #[trigger] v1.idle[buckets[j] as int].len() == 0 by {
        assert(buckets[j] != b);
        assert(v1.idle[buckets[j] as int] == v.idle[buckets[j] as int]);
    }
    lemma_skip_empty_buckets(v1, buckets, 0, kb, now);
    let vp = spec_idle_popped(v1, b as int);
    lemma_conn_index(vp.conns, i);
    assert(spec_live_index(vp, id, b as int) == Some(i));
    assert(crate::pool_model::spec_conn_valid(vp, i, now));
}

/// Creating a connection: a full pool refuses; a client pool with a dialer
/// and room dials, asking the dialer for exactly the protocol the request
/// required (none when it required none); a server pool with a listener, an
/// acceptor and room accepts.
pub proof fn lemma_create_dials_for_requested_protocol(v: PoolView, rp: Option<Protocol>)
    ensures
        ({
            let full = v.config.max_connections > 0 && v.conns.len() >= v.config.max_connections;
            let r = spec_create_begin(v, rp);
            &&& r matches Ok(CreateAction::Dial { protocol }) ==> protocol == rp
                && v.config.mode == PoolMode::Client && v.config.has_dialer && !full
            &&& r matches Ok(CreateAction::Accept) ==> v.config.mode == PoolMode::Server
                && v.config.has_listener && v.config.has_acceptor && !full
            &&& full ==> r is Err
            &&& (v.config.mode == PoolMode::Client && v.config.has_dialer && !full) ==> r == Ok::<
                CreateAction,
                NetConnPoolError,
            >(CreateAction::Dial { protocol: rp })
            &&& (v.config.mode == PoolMode::Server && v.config.has_listener && v.config.has_acceptor
                && !full) ==> r == Ok::<CreateAction, NetConnPoolError>(CreateAction::Accept)
        }),
{
}

/// A connection given back is pooled again only when it is still usable:
/// one that comes back to a closed pool, unhealthy, or past its lifetime is
/// closed instead (it leaves the pool, its socket is queued for closing, and
/// the on-return hook does not run). One that was borrowed and comes back
/// healthy, within its lifetime, to an open pool whose bucket for it has
/// room, joins the back of that bucket and the hook runs.
pub proof fn lemma_return_pools_only_usable(v: PoolView, id: u64, now: Clock)
    requires
        pool_inv(v),
        has_conn(v.conns, id),
    ensures
        ({
            let c = v.conns[conn_index(v.conns, id)];
            let (w, out) = spec_return(v, id, now);
            &&& pool_inv(w)
            &&& out.notify == c.in_use
            &&& (v.closed || !c.is_healthy || spec_is_expired(c, v.config.max_lifetime, now)) ==> {
                &&& !out.pooled
                &&& !out.call_on_return
                &&& !has_conn(w.conns, id)
                &&& w.pending_close == v.pending_close.push(id)
            }
            &&& (!v.closed && c.in_use && c.is_healthy && !spec_is_expired(c, v.config.max_lifetime, now)
                && spec_bucket_index(c.protocol, c.ip_version) is Some
                && v.idle_counts[spec_bucket_index(c.protocol, c.ip_version)->0 as int]
                < v.config.max_idle_connections) ==> {
                let b = spec_bucket_index(c.protocol, c.ip_version)->0;
                &&& out.pooled
                &&& out.call_on_return
                &&& has_conn(w.conns, id)
                &&& !w.conns[conn_index(w.conns, id)].in_use
                &&& w.idle[b as int] == v.idle[b as int].push(id)
            }
        }),
{
    let i = conn_index(v.conns, id);
    let c = v.conns[i];
    lemma_inv_marked_returned(v, i, now);
    let v1 = spec_marked_returned(v, i, now);
    assert(v1.conns[i].id == id);
    if v1.closed || !crate::pool_model::spec_conn_valid(v1, i, now) {
        lemma_inv_removed(v1, i);
        lemma_remove_adds_no_id(v1.conns, i, id);
    } else {
        lemma_inv_placed_idle(v1, i);
        let w = spec_placed_idle(v1, i);
        match spec_bucket_index(c.protocol, c.ip_version) {
            Some(b) => {
                if v1.idle_counts[b as int] < v1.config.max_idle_connections {
                    lemma_conn_index(w.conns, i);
                }
            },
            None => {},
        }
    }
}

/// Scanning a pool whose configuration disables health checks, or has no
/// health checker, lists no connection for a health check and counts no
/// attempt.
proof fn lemma_scan_lists_no_checks(v: PoolView, ids: Seq<u64>, k: int, now: Clock)
    requires
        pool_inv(v),
        !v.config.enable_health_check || !v.config.has_health_checker,
    ensures
        spec_scan_from(v, ids, k, now).1 == Seq::<u64>::empty(),
        spec_scan_from(v, ids, k, now).0.config == v.config,
        v.stats matches Some(s) ==> spec_scan_from(v, ids, k, now).0.stats matches Some(t)
            && t.health_check_attempts == s.health_check_attempts,
    decreases ids.len() - k,
{
    if k < 0 || k >= ids.len() {
    } else {
        let id = ids[k];
        if !has_conn(v.conns, id) {
            lemma_scan_lists_no_checks(v, ids, k + 1, now);
        } else {
            let i = conn_index(v.conns, id);
            let c = v.conns[i];
            if c.in_use {
                lemma_inv_check_borrowed(v, i, now);
                lemma_scan_lists_no_checks(spec_check_borrowed(v, i, now), ids, k + 1, now);
            } else {
                lemma_scan_lists_no_checks(v, ids, k + 1, now);
            }
        }
    }
}

/// When the configuration disables health checks (or names no health
/// checker), the periodic cleanup sends no connection for a health check and
/// counts no attempt.
pub proof fn lemma_cleanup_respects_disabled_health_checks(v: PoolView, now: Clock)
    requires
        pool_inv(v),
        !v.config.enable_health_check || !v.config.has_health_checker,
    ensures
        spec_cleanup_scan(v, now).1 == Seq::<u64>::empty(),
        v.stats matches Some(s) ==> spec_cleanup_scan(v, now).0.stats matches Some(t)
            && t.health_check_attempts == s.health_check_attempts,
{
    if !v.closed {
        lemma_scan_lists_no_checks(v, conn_ids(v.conns), 0, now);
        let r = spec_scan_from(v, conn_ids(v.conns), 0, now);
        lemma_remove_ids_keeps_attempts(r.0, r.2);
    }
}

/// Removing listed connections counts no health-check attempt.
proof fn lemma_remove_ids_keeps_attempts(v: PoolView, ids: Seq<u64>)
    ensures
        v.stats matches Some(s) ==> spec_remove_ids(v, ids).stats matches Some(t)
            && t.health_check_attempts == s.health_check_attempts,
    decreases ids.len(),
{
    if ids.len() > 0 {
        if has_conn(v.conns, ids[0]) {
            lemma_remove_ids_keeps_attempts(spec_removed(v, conn_index(v.conns, ids[0])), ids.drop_first());
        } else {
            lemma_remove_ids_keeps_attempts(v, ids.drop_first());
        }
    }
}

} // verus!
