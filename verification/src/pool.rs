//! The connection pool state machine. Every operation runs on exclusive
//! access to the state; the I/O layer serialises calls, performs the
//! actions the pool decides on (dialing, waiting, closing sockets, running
//! the user's callbacks), and hands the outcomes back.

use vstd::prelude::*;
use crossbeam::queue::SegQueue;
use crate::config::{Config, config_issue, config_valid, spec_apply_defaults};
use crate::connection::{Clock, Connection, ConnectionIdGenerator, spec_new_connection, spec_next_id};
use crate::errors::{ConfigIssue, IoErrorKind, NetConnPoolError};
use crate::idle_queue::{seg_queue_items, seg_queue_new, seg_queue_pop, seg_queue_push};
use crate::ipversion::IPVersion;
use crate::mode::PoolMode;
use crate::pool_model::{
    BUCKET_COUNT, PoolView, GetStep, CreateAction, spec_bucket_index, bucket_protocol, bucket_ip_version, spec_target_buckets, matches_request, count_in_use, has_conn, conn_index, ids_unique, pool_inv, stats_apply, stat_idle_pop, stat_idle_push, stat_removed, stat_created, stat_active_dec, stat_get_success, stat_get_time, stat_timeout, stat_create_failed, spec_idle_popped, spec_idle_pushed, spec_removed, spec_live_index, spec_conn_valid, spec_lent, spec_lent_from_idle, spec_acquire_from, spec_acquire, lemma_count_le_len, lemma_count_push, lemma_count_update, lemma_count_remove, lemma_count_lt_len_if_idle, lemma_count_pos_if_in_use, lemma_inv_idle_popped, lemma_inv_idle_pushed, lemma_inv_removed, lemma_inv_lent, lemma_conn_index, ReturnOutcome, spec_create_begin, spec_admit_refusal, spec_admitted, spec_lent_new, spec_create_failed, spec_marked_returned, spec_placed_idle, spec_place_fits, spec_return, lemma_inv_admitted, lemma_inv_lent_new, lemma_inv_marked_returned, lemma_inv_placed_idle, spec_added_idle, lemma_inv_touched_idle, spec_drop_entry, spec_drain_bucket, lemma_drain_bucket, spec_close_begin, spec_remove_all, spec_remove_ids, spec_leak_reported, spec_marked_unhealthy, spec_badly_leaked, spec_check_borrowed, spec_needs_health_check, spec_attempt_counted, spec_scan_from, conn_ids, spec_cleanup_scan, spec_apply_result, spec_apply_results_from, lemma_inv_conn_touched, lemma_inv_stats_changed,
};
use crate::protocol::Protocol;
use crate::stats::{Stats, StatsCollector, spec_snapshot, spec_zero_stats};

verus! {

/// A connection pool.
pub struct Pool {
    config: Config,
    connections: Vec<Connection>,
    idle_tcp_v4: SegQueue<u64>,
    idle_tcp_v6: SegQueue<u64>,
    idle_udp_v4: SegQueue<u64>,
    idle_udp_v6: SegQueue<u64>,
    idle_counts: Vec<usize>,
    closed: bool,
    active_count: usize,
    stats_collector: Option<StatsCollector>,
    pending_close: Vec<u64>,
}

impl View for Pool {
    type V = PoolView;

    closed spec fn view(&self) -> PoolView {
        PoolView {
            config: self.config,
            conns: self.connections@,
            idle: seq![
                seg_queue_items(self.idle_tcp_v4),
                seg_queue_items(self.idle_tcp_v6),
                seg_queue_items(self.idle_udp_v4),
                seg_queue_items(self.idle_udp_v6),
            ],
            idle_counts: self.idle_counts@,
            closed: self.closed,
            active_count: self.active_count,
            stats: match self.stats_collector {
                Some(c) => Some(c@),
                None => None,
            },
            pending_close: self.pending_close@,
        }
    }
}

/// How many steps it takes to reach identifier `x` from `drawn` counting
/// upward, wrapping from `u64::MAX` to 1 (0 is never an identifier).
pub open spec fn id_steps(drawn: u64, x: u64) -> int {
    if x > drawn {
        x - drawn
    } else {
        (u64::MAX - drawn) + x
    }
}

/// `id` is the first identifier not taken, counting upward from `drawn`
/// (itself included) and wrapping from `u64::MAX` to 1.
pub open spec fn first_free_after(conns: Seq<Connection>, drawn: u64, id: u64) -> bool {
    &&& id != 0
    &&& !has_conn(conns, id)
    &&& id != drawn ==> {
        &&& has_conn(conns, drawn)
        &&& forall|x: u64|
            x != 0 && x != drawn && id_steps(drawn, x) < id_steps(drawn, id) ==> #[trigger] has_conn(conns, x)
    }
}

/// Every identifier (all nonzero values) is taken.
pub open spec fn all_ids_taken(conns: Seq<Connection>) -> bool {
    forall|x: u64| x != 0 ==> #[trigger] has_conn(conns, x)
}

/// The state of a freshly created pool.
pub open spec fn spec_initial(config: Config) -> PoolView {
    PoolView {
        config,
        conns: Seq::empty(),
        idle: seq![Seq::empty(), Seq::empty(), Seq::empty(), Seq::empty()],
        idle_counts: seq![0usize, 0usize, 0usize, 0usize],
        closed: false,
        active_count: 0,
        stats: if config.enable_stats {
            Some(spec_zero_stats())
        } else {
            None
        },
        pending_close: Seq::empty(),
    }
}

/// The bucket of a (protocol, IP version) pair; none when either is unknown.
pub fn get_bucket_index(protocol: Protocol, ip_version: IPVersion) -> (r: Option<usize>)
    ensures
        r == spec_bucket_index(protocol, ip_version),
{
    let p_idx: usize = match protocol {
        Protocol::TCP => 0,
        Protocol::UDP => 1,
        Protocol::Unknown => {
            return None;
        },
    };
    let ip_idx: usize = match ip_version {
        IPVersion::IPv4 => 0,
        IPVersion::IPv6 => 1,
        IPVersion::Unknown => {
            return None;
        },
    };
    Some(p_idx * 2 + ip_idx)
}

/// The buckets a request for `protocol` and `ip_version` looks in, in order.
pub fn get_target_buckets(protocol: Option<Protocol>, ip_version: Option<IPVersion>) -> (r: Vec<
    usize,
>)
    ensures
        r@ == spec_target_buckets(protocol, ip_version),
        forall|k: int| 0 <= k < r@.len() ==> r@[k] < BUCKET_COUNT,
{
    let any_protocol = match protocol {
        Some(Protocol::TCP) => false,
        Some(Protocol::UDP) => false,
        _ => true,
    };
    let any_ip_version = match ip_version {
        Some(IPVersion::IPv4) => false,
        Some(IPVersion::IPv6) => false,
        _ => true,
    };
    if any_protocol && any_ip_version {
        vec![0usize, 1usize, 2usize, 3usize]
    } else if any_protocol {
        let v = match ip_version {
            Some(v) => v,
            None => IPVersion::IPv4,
        };
        let tcp = match get_bucket_index(Protocol::TCP, v) {
            Some(i) => i,
            None => 0,
        };
        let udp = match get_bucket_index(Protocol::UDP, v) {
            Some(i) => i,
            None => 0,
        };
        vec![tcp, udp]
    } else if any_ip_version {
        let p = match protocol {
            Some(p) => p,
            None => Protocol::TCP,
        };
        let v4 = match get_bucket_index(p, IPVersion::IPv4) {
            Some(i) => i,
            None => 0,
        };
        let v6 = match get_bucket_index(p, IPVersion::IPv6) {
            Some(i) => i,
            None => 0,
        };
        vec![v4, v6]
    } else {
        let p = match protocol {
            Some(p) => p,
            None => Protocol::TCP,
        };
        let v = match ip_version {
            Some(v) => v,
            None => IPVersion::IPv4,
        };
        let only = match get_bucket_index(p, v) {
            Some(i) => i,
            None => 0,
        };
        vec![only]
    }
}

impl Pool {
    /// The pool invariant holds.
    pub open spec fn wf(&self) -> bool {
        pool_inv(self@)
    }

    /// Creates a pool: the defaults are applied to the configuration, which
    /// must then pass validation.
    pub fn new(config: Config) -> (r: Result<Pool, NetConnPoolError>)
        ensures
            r is Ok <==> config_valid(spec_apply_defaults(config)),
            r matches Ok(p) ==> p@ == spec_initial(spec_apply_defaults(config)) && p.wf(),
            r matches Err(e) ==> e == (NetConnPoolError::InvalidConfig {
                reason: config_issue(spec_apply_defaults(config))->0,
            }),
    {
        let mut config = config;
        config.apply_defaults();
        match config.validate() {
            Ok(()) => {},
            Err(e) => {
                return Err(e);
            },
        }
        let stats_collector = if config.enable_stats {
            Some(StatsCollector::new())
        } else {
            None
        };
        let pool = Pool {
            config,
            connections: Vec::new(),
            idle_tcp_v4: seg_queue_new(),
            idle_tcp_v6: seg_queue_new(),
            idle_udp_v4: seg_queue_new(),
            idle_udp_v6: seg_queue_new(),
            idle_counts: vec![0usize, 0usize, 0usize, 0usize],
            closed: false,
            active_count: 0,
            stats_collector,
            pending_close: Vec::new(),
        };
        assert(pool@.idle_counts =~= seq![0usize, 0usize, 0usize, 0usize]);
        assert(pool@.idle =~= seq![Seq::<u64>::empty(), Seq::empty(), Seq::empty(), Seq::empty()]);
        assert(count_in_use(pool@.conns) == 0);
        Ok(pool)
    }


    // ------------------------------------------------------------------
    // Steps on connections and buckets.

    /// The position of the connection named `id`.
    fn find_conn(&self, id: u64) -> (r: Option<usize>)
        requires
            self.wf(),
        ensures
            r matches Some(i) ==> i < self@.conns.len() && self@.conns[i as int].id == id
                && has_conn(self@.conns, id) && conn_index(self@.conns, id) == i,
            r is None ==> !has_conn(self@.conns, id),
    {
        let mut i: usize = 0;
        while i < self.connections.len()
            invariant
                self.wf(),
                i <= self.connections@.len(),
                forall|j: int| 0 <= j < i ==> self.connections@[j].id != id,
            decreases self.connections@.len() - i,
        {
            if self.connections[i].id == id {
                proof {
                    lemma_conn_index(self@.conns, i as int);
                }
                return Some(i);
            }
            i = i + 1;
        }
        None
    }

    /// The position of the live connection an entry of bucket `b` names.
    fn find_live(&self, id: u64, b: usize) -> (r: Option<usize>)
        requires
            self.wf(),
            b < BUCKET_COUNT,
        ensures
            r == match spec_live_index(self@, id, b as int) {
                Some(i) => Some(i as usize),
                None => None::<usize>,
            },
            r matches Some(i) ==> i < self@.conns.len(),
    {
        match self.find_conn(id) {
            Some(i) => {
                let c = self.connections[i];
                if !c.in_use && get_bucket_index(c.protocol, c.ip_version) == Some(b) {
                    Some(i)
                } else {
                    None
                }
            },
            None => None,
        }
    }

    /// Pops the front entry of bucket `b`, with its size and statistics.
    fn pop_entry(&mut self, b: usize) -> (r: Option<u64>)
        requires
            old(self).wf(),
            b < BUCKET_COUNT,
        ensures
            final(self).wf(),
            old(self)@.idle[b as int].len() == 0 ==> r is None && final(self)@ == old(self)@,
            old(self)@.idle[b as int].len() > 0 ==> r == Some(old(self)@.idle[b as int][0])
                && final(self)@ == spec_idle_popped(old(self)@, b as int),
    {
        let r = self.queue_pop(b);
        match r {
            Some(id) => {
                let n = self.idle_counts[b];
                self.idle_counts.set(b, n - 1);
                self.stat_idle_pop(b);
                proof {
                    lemma_inv_idle_popped(old(self)@, b as int);
                }
                assert(self@ == spec_idle_popped(old(self)@, b as int));
            },
            None => {},
        }
        r
    }

    /// Pushes `id` onto bucket `b`, with its size and statistics.
    fn push_entry(&mut self, b: usize, id: u64)
        requires
            old(self).wf(),
            !old(self)@.closed,
            b < BUCKET_COUNT,
            old(self)@.idle_counts[b as int] < old(self)@.config.max_idle_connections,
        ensures
            final(self).wf(),
            final(self)@ == spec_idle_pushed(old(self)@, b as int, id),
    {
        self.queue_push(b, id);
        let n = self.idle_counts[b];
        self.idle_counts.set(b, n + 1);
        self.stat_idle_push(b);
        proof {
            lemma_inv_idle_pushed(old(self)@, b as int, id);
        }
        assert(self@ == spec_idle_pushed(old(self)@, b as int, id));
    }

    /// Removes the connection at position `i`: it stops counting as
    /// borrowed, is closed, leaves the pool, its socket is queued for
    /// closing, and it is counted as closed.
    fn remove_at(&mut self, i: usize)
        requires
            old(self).wf(),
            i < old(self)@.conns.len(),
        ensures
            final(self).wf(),
            final(self)@ == spec_removed(old(self)@, i as int),
    {
        let mut c = self.connections[i];
        let was_in_use = c.in_use;
        c.in_use = false;
        if was_in_use {
            proof {
                lemma_count_pos_if_in_use(self@.conns, i as int);
            }
            self.active_count = self.active_count - 1;
            self.stat_active_dec();
        }
        let _ = c.close(false);
        let _ = self.connections.remove(i);
        self.pending_close.push(c.id);
        self.stat_removed(c.protocol, c.ip_version);
        proof {
            lemma_inv_removed(old(self)@, i as int);
        }
        assert(self@ == spec_removed(old(self)@, i as int));
    }

    /// Lends the idle connection at position `i`.
    fn lend_idle(&mut self, i: usize, now: Clock)
        requires
            old(self).wf(),
            i < old(self)@.conns.len(),
            !old(self)@.conns[i as int].in_use,
        ensures
            final(self).wf(),
            final(self)@ == spec_lent_from_idle(old(self)@, i as int, now),
    {
        let mut c = self.connections[i];
        c.mark_in_use(now);
        c.increment_reuse_count();
        self.connections.set(i, c);
        proof {
            lemma_count_lt_len_if_idle(old(self)@.conns, i as int);
        }
        self.active_count = self.active_count + 1;
        self.stat_get_success(true);
        proof {
            lemma_inv_lent(old(self)@, i as int, now);
        }
        assert(self@ == spec_lent_from_idle(old(self)@, i as int, now));
    }

    // ------------------------------------------------------------------
    // Getting a connection.

    /// The first step of a request: a closed pool refuses it; otherwise it is
    /// counted.
    pub fn get_begin(&mut self) -> (r: Result<(), NetConnPoolError>)
        requires
            old(self).wf(),
        ensures
            final(self).wf(),
            old(self)@.closed ==> r == Err::<(), NetConnPoolError>(NetConnPoolError::PoolClosed)
                && final(self)@ == old(self)@,
            !old(self)@.closed ==> r is Ok && final(self)@ == (PoolView {
                stats: stats_apply(
                    old(self)@.stats,
                    |s: Stats| Stats { total_get_requests: crate::stats::sat_add_i64(s.total_get_requests, 1), ..s },
                ),
                ..old(self)@
            }),
    {
        if self.closed {
            return Err(NetConnPoolError::PoolClosed);
        }
        match &mut self.stats_collector {
            Some(c) => c.increment_total_get_requests(),
            None => {},
        }
        Ok(())
    }

    /// One attempt to lend an idle connection from `buckets`, `elapsed`
    /// nanoseconds into a request that may wait `timeout`: see
    /// `spec_acquire`.
    pub fn try_acquire_idle(&mut self, buckets: &Vec<usize>, timeout: u128, elapsed: u128, now: Clock) -> (step: GetStep)
        requires
            old(self).wf(),
            forall|k: int| 0 <= k < buckets@.len() ==> buckets@[k] < BUCKET_COUNT,
        ensures
            final(self).wf(),
            (final(self)@, step) == spec_acquire(old(self)@, buckets@, timeout, elapsed, now),
    {
        if self.closed {
            return GetStep::Failed(NetConnPoolError::PoolClosed);
        }
        if elapsed > timeout {
            match &mut self.stats_collector {
                Some(c) => {
                    c.increment_failed_gets();
                    c.increment_timeout_gets();
                },
                None => {},
            }
            return GetStep::Failed(NetConnPoolError::GetConnectionTimeout { timeout, waited: elapsed });
        }
        let mut k: usize = 0;
        while k < buckets.len()
            invariant
                self.wf(),
                !self@.closed,
                k <= buckets@.len(),
                forall|j: int| 0 <= j < buckets@.len() ==> buckets@[j] < BUCKET_COUNT,
                spec_acquire_from(self@, buckets@, k as int, now) == spec_acquire(
                    old(self)@,
                    buckets@,
                    timeout,
                    elapsed,
                    now,
                ),
            decreases buckets@.len() - k,
        {
            let b = buckets[k];
            match self.pop_entry(b) {
                None => {},
                Some(id) => {
                    match self.find_live(id, b) {
                        Some(i) => {
                            let c = self.connections[i];
                            if c.is_valid_for_borrow(self.config.max_lifetime, self.config.idle_timeout, now) {
                                let clear = self.config.clear_udp_buffer_on_return && c.protocol == Protocol::UDP;
                                self.lend_idle(i, now);
                                return GetStep::Borrowed { id, reused: true, clear_udp_buffer: clear };
                            } else {
                                self.remove_at(i);
                            }
                        },
                        None => {},
                    }
                },
            }
            k = k + 1;
        }
        GetStep::Create
    }


    // ------------------------------------------------------------------
    // Creating connections.

    /// How to obtain a new connection, or why none may be created now.
    pub fn create_begin(&self, required_protocol: Option<Protocol>) -> (r: Result<CreateAction, NetConnPoolError>)
        requires
            self.wf(),
        ensures
            r == spec_create_begin(self@, required_protocol),
    {
        if self.config.max_connections > 0 {
            let current = self.connections.len();
            if current >= self.config.max_connections {
                return Err(NetConnPoolError::MaxConnectionsReached { current, max: self.config.max_connections });
            }
        }
        match self.config.mode {
            PoolMode::Client => {
                if self.config.has_dialer {
                    Ok(CreateAction::Dial { protocol: required_protocol })
                } else {
                    Err(NetConnPoolError::InvalidConfig { reason: ConfigIssue::MissingDialer })
                }
            },
            PoolMode::Server => {
                if !self.config.has_listener {
                    Err(NetConnPoolError::InvalidConfig { reason: ConfigIssue::MissingListener })
                } else if !self.config.has_acceptor {
                    Err(NetConnPoolError::InvalidConfig { reason: ConfigIssue::MissingAcceptor })
                } else {
                    Ok(CreateAction::Accept)
                }
            },
        }
    }

    /// Lets a new connection join the pool, idle. An identifier is drawn from
    /// `ids` (the process-wide generator) first; then the
    /// connection is refused if it does not match the request or the pool is
    /// full; otherwise it joins under the drawn identifier, or, if another
    /// connection has it, under the next free one.
    fn join_pool(
        &mut self,
        ids: &mut ConnectionIdGenerator,
        protocol: Protocol,
        ip_version: IPVersion,
        required_protocol: Option<Protocol>,
        required_ip_version: Option<IPVersion>,
        now: Clock,
    ) -> (r: Result<usize, NetConnPoolError>)
        requires
            old(self).wf(),
        ensures
            final(self).wf(),
            final(ids).last == spec_next_id(old(ids).last, now.unix),
            ({
                let drawn = spec_next_id(old(ids).last, now.unix);
                let base = old(self)@;
                match spec_admit_refusal(old(self)@, protocol, ip_version, required_protocol, required_ip_version) {
                    Some(e) => r == Err::<usize, NetConnPoolError>(e) && final(self)@ == base,
                    None => match r {
                        Ok(i) => {
                            &&& i == old(self)@.conns.len()
                            &&& !has_conn(old(self)@.conns, final(self)@.conns[i as int].id)
                            &&& (!has_conn(old(self)@.conns, drawn) ==> final(self)@.conns[i as int].id == drawn)
                            &&& first_free_after(old(self)@.conns, drawn, final(self)@.conns[i as int].id)
                            &&& final(self)@ == spec_admitted(base, protocol, ip_version, final(self)@.conns[i as int].id, now)
                        },
                        Err(e) => {
                            &&& e is IoError
                            &&& all_ids_taken(old(self)@.conns)
                            &&& final(self)@ == base
                        },
                    },
                }
            }),
    {
        let drawn = ids.next_id(now.unix);
        if let Some(p) = required_protocol {
            if p != Protocol::Unknown && protocol != p {
                return Err(NetConnPoolError::NoConnectionForProtocol { required: p });
            }
        }
        if let Some(ip) = required_ip_version {
            if ip != IPVersion::Unknown && ip_version != ip {
                return Err(NetConnPoolError::NoConnectionForIPVersion { required: ip });
            }
        }
        let current = self.connections.len();
        if self.config.max_connections > 0 && current >= self.config.max_connections {
            return Err(NetConnPoolError::MaxConnectionsReached { current, max: self.config.max_connections });
        }
        let mut final_id = drawn;
        assert(drawn != 0) by {
            let t = now.unix;
            assert((t & 0x0000_FFFF_FFFF_FFFFu64) | 0x0001_0000_0000_0000u64 != 0) by (bit_vector);
        }
        if self.find_conn(final_id).is_some() {
            let mut tries: u64 = 0;
            loop
                invariant_except_break
                    has_conn(self@.conns, final_id),
                    forall|x: u64|
                        x != 0 && x != drawn && id_steps(drawn, x) <= tries ==> #[trigger] has_conn(
                            self@.conns,
                            x,
                        ),
                invariant
                    self.wf(),
                    self@ == old(self)@,
                    ids.last == drawn,
                    has_conn(self@.conns, drawn),
                    drawn == spec_next_id(old(ids).last, now.unix),
                    drawn != 0,
                    final_id != 0,
                    tries < u64::MAX,
                    tries == 0 ==> final_id == drawn,
                    tries > 0 ==> final_id != drawn && tries == id_steps(drawn, final_id),
                    spec_admit_refusal(old(self)@, protocol, ip_version, required_protocol, required_ip_version) is None,
                ensures
                    first_free_after(self@.conns, drawn, final_id),
                decreases u64::MAX - tries,
            {
                tries = tries + 1;
                if final_id == u64::MAX {
                    final_id = 1;
                } else {
                    final_id = final_id + 1;
                }
                if final_id == drawn {
                    assert forall|x: u64| x != 0 implies #[trigger] has_conn(old(self)@.conns, x) by {
                        if x != drawn {
                            assert(id_steps(drawn, x) <= tries - 1);
                        }
                    }
                    return Err(NetConnPoolError::IoError {
                        kind: IoErrorKind::Other,
                        message: crate::text::owned("连接 ID 冲突且无法解决"),
                    });
                }
                if self.find_conn(final_id).is_none() {
                    break;
                }
            }
        }
        let ghost base = self@;
        let c = Connection::new(final_id, protocol, ip_version, now);
        self.connections.push(c);
        // A vector's length is a `usize`: the pool held fewer than `usize::MAX`.
        let grown: usize = self.connections.len();
        assert(grown == base.conns.len() + 1);
        self.stat_created(protocol, ip_version);
        proof {
            lemma_inv_admitted(base, protocol, ip_version, final_id, now);
        }
        assert(self@ == spec_admitted(base, protocol, ip_version, final_id, now));
        Ok(current)
    }


    /// Lets a new connection of protocol `protocol` and IP version
    /// `ip_version` join the pool and lends it at once. Its identifier is drawn from `ids`, the
    /// generator shared by all pools, so identifiers rise across the process;
    /// it is refused when it does not match the request or the pool is full.
    pub fn lend_new_connection(
        &mut self,
        ids: &mut ConnectionIdGenerator,
        protocol: Protocol,
        ip_version: IPVersion,
        required_protocol: Option<Protocol>,
        required_ip_version: Option<IPVersion>,
        now: Clock,
    ) -> (r: Result<u64, NetConnPoolError>)
        requires
            old(self).wf(),
        ensures
            final(self).wf(),
            final(ids).last == spec_next_id(old(ids).last, now.unix),
            ({
                let drawn = spec_next_id(old(ids).last, now.unix);
                let base = old(self)@;
                match spec_admit_refusal(old(self)@, protocol, ip_version, required_protocol, required_ip_version) {
                    Some(e) => r == Err::<u64, NetConnPoolError>(e) && final(self)@ == base,
                    None => match r {
                        Ok(id) => {
                            &&& !has_conn(old(self)@.conns, id)
                            &&& (!has_conn(old(self)@.conns, drawn) ==> id == drawn)
                            &&& first_free_after(old(self)@.conns, drawn, id)
                            &&& final(self)@ == spec_lent_new(
                                spec_admitted(base, protocol, ip_version, id, now),
                                old(self)@.conns.len() as int,
                                now,
                            )
                        },
                        Err(e) => {
                            &&& e is IoError
                            &&& all_ids_taken(old(self)@.conns)
                            &&& final(self)@ == base
                        },
                    },
                }
            }),
    {
        match self.join_pool(ids, protocol, ip_version, required_protocol, required_ip_version, now) {
            Ok(i) => {
                let ghost joined = self@;
                let mut c = self.connections[i];
                let id = c.id;
                c.mark_in_use(now);
                self.connections.set(i, c);
                proof {
                    lemma_count_lt_len_if_idle(joined.conns, i as int);
                }
                self.active_count = self.active_count + 1;
                self.stat_get_success(false);
                proof {
                    lemma_inv_lent_new(joined, i as int, now);
                }
                assert(self@ == spec_lent_new(joined, i as int, now));
                Ok(id)
            },
            Err(e) => Err(e),
        }
    }

    /// Lets a new, pre-warmed connection join the pool (its identifier drawn
    /// from `ids`) and puts it in its idle bucket (it is removed again when the pool is closed or the bucket
    /// is unknown or full).
    pub fn add_prewarmed_connection(
        &mut self,
        ids: &mut ConnectionIdGenerator,
        protocol: Protocol,
        ip_version: IPVersion,
        now: Clock,
    ) -> (r: Result<u64, NetConnPoolError>)
        requires
            old(self).wf(),
        ensures
            final(self).wf(),
            final(ids).last == spec_next_id(old(ids).last, now.unix),
            ({
                let drawn = spec_next_id(old(ids).last, now.unix);
                let base = old(self)@;
                match spec_admit_refusal(old(self)@, protocol, ip_version, None, None) {
                    Some(e) => r == Err::<u64, NetConnPoolError>(e) && final(self)@ == base,
                    None => match r {
                        Ok(id) => {
                            &&& !has_conn(old(self)@.conns, id)
                            &&& (!has_conn(old(self)@.conns, drawn) ==> id == drawn)
                            &&& first_free_after(old(self)@.conns, drawn, id)
                            &&& final(self)@ == spec_added_idle(
                                spec_admitted(base, protocol, ip_version, id, now),
                                old(self)@.conns.len() as int,
                                now,
                            )
                        },
                        Err(e) => {
                            &&& e is IoError
                            &&& all_ids_taken(old(self)@.conns)
                            &&& final(self)@ == base
                        },
                    },
                }
            }),
    {
        match self.join_pool(ids, protocol, ip_version, None, None, now) {
            Ok(i) => {
                let id = self.connections[i].id;
                self.add_idle_connection(i, now);
                Ok(id)
            },
            Err(e) => Err(e),
        }
    }

    /// Puts the idle connection at `i` in its bucket, or removes it when the
    /// pool is closed or the bucket is unknown or full.
    fn add_idle_connection(&mut self, i: usize, now: Clock)
        requires
            old(self).wf(),
            i < old(self)@.conns.len(),
            !old(self)@.conns[i as int].in_use,
        ensures
            final(self).wf(),
            final(self)@ == spec_added_idle(old(self)@, i as int, now),
    {
        if self.closed {
            self.remove_at(i);
            return;
        }
        let mut c = self.connections[i];
        c.mark_idle(now);
        self.connections.set(i, c);
        proof {
            lemma_inv_touched_idle(old(self)@, i as int, now);
        }
        let _ = self.place_idle(i);
    }

    /// Puts the idle connection at `i` in its bucket, or removes it when the
    /// bucket is unknown or full; tells whether it found room.
    fn place_idle(&mut self, i: usize) -> (fits: bool)
        requires
            old(self).wf(),
            !old(self)@.closed,
            i < old(self)@.conns.len(),
        ensures
            final(self).wf(),
            final(self)@ == spec_placed_idle(old(self)@, i as int),
            fits == spec_place_fits(old(self)@, i as int),
    {
        let c = self.connections[i];
        match get_bucket_index(c.protocol, c.ip_version) {
            Some(b) => {
                let current = self.idle_counts[b];
                if current >= self.config.max_idle_connections {
                    self.remove_at(i);
                    false
                } else {
                    self.push_entry(b, c.id);
                    true
                }
            },
            None => {
                self.remove_at(i);
                false
            },
        }
    }

    /// Ends a request whose connection could not be created, giving the error
    /// it fails with: see `spec_create_failed`.
    pub fn create_failed(&mut self, err: NetConnPoolError) -> (e: NetConnPoolError)
        requires
            old(self).wf(),
        ensures
            final(self).wf(),
            (final(self)@, e) == spec_create_failed(old(self)@, err),
    {
        match err {
            NetConnPoolError::MaxConnectionsReached { .. } => {
                match &mut self.stats_collector {
                    Some(c) => c.increment_failed_gets(),
                    None => {},
                }
                NetConnPoolError::PoolExhausted {
                    current: self.connections.len(),
                    max: self.config.max_connections,
                }
            },
            _ => {
                match &mut self.stats_collector {
                    Some(c) => {
                        c.increment_failed_gets();
                        c.increment_connection_errors();
                    },
                    None => {},
                }
                err
            },
        }
    }

    // ------------------------------------------------------------------
    // Returning connections.

    /// A borrowed connection comes back: see `spec_return`. The caller
    /// passes the identifier it was lent with.
    pub fn return_connection(&mut self, id: u64, now: Clock) -> (out: ReturnOutcome)
        requires
            old(self).wf(),
        ensures
            final(self).wf(),
            (final(self)@, out) == spec_return(old(self)@, id, now),
    {
        match self.find_conn(id) {
            None => ReturnOutcome { notify: false, call_on_return: false, pooled: false },
            Some(i) => {
                let ghost v0 = self@;
                let mut c = self.connections[i];
                let notify = c.try_mark_idle(now);
                self.connections.set(i, c);
                if notify {
                    proof {
                        lemma_count_pos_if_in_use(v0.conns, i as int);
                    }
                    self.active_count = self.active_count - 1;
                    self.stat_active_dec();
                }
                proof {
                    lemma_inv_marked_returned(v0, i as int, now);
                }
                assert(self@.conns =~= spec_marked_returned(v0, i as int, now).conns);
                assert(self@ == spec_marked_returned(v0, i as int, now));
                if self.closed || !c.is_valid_for_borrow(self.config.max_lifetime, self.config.idle_timeout, now) {
                    self.remove_at(i);
                    return ReturnOutcome { notify, call_on_return: false, pooled: false };
                }
                let pooled = self.place_idle(i);
                ReturnOutcome { notify, call_on_return: true, pooled }
            },
        }
    }


    // ------------------------------------------------------------------
    // Closing.

    /// Drops a popped entry of bucket `b`.
    fn drop_entry(&mut self, id: u64, b: usize)
        requires
            old(self).wf(),
            b < BUCKET_COUNT,
        ensures
            final(self).wf(),
            final(self)@ == spec_drop_entry(old(self)@, id, b as int),
    {
        match self.find_live(id, b) {
            Some(i) => self.remove_at(i),
            None => {},
        }
    }

    /// Empties bucket `b`, dropping every entry.
    fn drain_bucket(&mut self, b: usize)
        requires
            old(self).wf(),
            b < BUCKET_COUNT,
        ensures
            final(self).wf(),
            final(self)@ == spec_drain_bucket(old(self)@, b as int),
    {
        loop
            invariant
                self.wf(),
                b < BUCKET_COUNT,
                spec_drain_bucket(self@, b as int) == spec_drain_bucket(old(self)@, b as int),
            ensures
                self.wf(),
                self@ == spec_drain_bucket(old(self)@, b as int),
            decreases self@.idle[b as int].len(),
        {
            match self.pop_entry(b) {
                None => {
                    break;
                },
                Some(id) => {
                    self.drop_entry(id, b);
                },
            }
        }
    }

    /// Starts closing the pool: see `spec_close_begin`. Tells whether this
    /// call closed it; closing a closed pool changes nothing.
    pub fn close_begin(&mut self) -> (first: bool)
        requires
            old(self).wf(),
        ensures
            final(self).wf(),
            first == !old(self)@.closed,
            final(self)@ == spec_close_begin(old(self)@),
    {
        if self.closed {
            return false;
        }
        let ghost v0 = self@;
        self.drain_bucket(0);
        let ghost v1 = self@;
        self.drain_bucket(1);
        let ghost v2 = self@;
        self.drain_bucket(2);
        let ghost v3 = self@;
        self.drain_bucket(3);
        proof {
            lemma_drain_bucket(v0, 0);
            lemma_drain_bucket(v1, 1);
            lemma_drain_bucket(v2, 2);
            lemma_drain_bucket(v3, 3);
        }
        self.closed = true;
        true
    }

    /// Finishes closing: once the pool is closed, every connection still in
    /// it, borrowed or not, is removed. An open pool is left as it is.
    pub fn close_finish(&mut self)
        requires
            old(self).wf(),
        ensures
            final(self).wf(),
            final(self)@ == if old(self)@.closed {
                spec_remove_all(old(self)@)
            } else {
                old(self)@
            },
    {
        if !self.closed {
            return;
        }
        while self.connections.len() > 0
            invariant
                self.wf(),
                spec_remove_all(self@) == spec_remove_all(old(self)@),
            decreases self@.conns.len(),
        {
            self.remove_at(0);
        }
    }

    // ------------------------------------------------------------------
    // Cleanup.

    /// Removes each listed connection that the pool still has.
    fn remove_ids(&mut self, ids: &Vec<u64>)
        requires
            old(self).wf(),
        ensures
            final(self).wf(),
            final(self)@ == spec_remove_ids(old(self)@, ids@),
    {
        let mut k: usize = 0;
        assert(ids@.skip(0) =~= ids@);
        while k < ids.len()
            invariant
                self.wf(),
                k <= ids@.len(),
                spec_remove_ids(self@, ids@.skip(k as int)) == spec_remove_ids(old(self)@, ids@),
            decreases ids@.len() - k,
        {
            assert(ids@.skip(k as int).drop_first() =~= ids@.skip(k + 1));
            match self.find_conn(ids[k]) {
                Some(i) => self.remove_at(i),
                None => {},
            }
            k = k + 1;
        }
        assert(ids@.skip(k as int) =~= Seq::<u64>::empty());
    }

    /// Checks the borrowed connection at `i` for a leak and its lifetime:
    /// see `spec_check_borrowed`.
    fn check_borrowed(&mut self, i: usize, now: Clock)
        requires
            old(self).wf(),
            i < old(self)@.conns.len(),
        ensures
            final(self).wf(),
            final(self)@ == spec_check_borrowed(old(self)@, i as int, now),
    {
        let c = self.connections[i];
        let leak_timeout = self.config.connection_leak_timeout;
        let expired = c.is_expired(self.config.max_lifetime, now);
        if c.is_leaked(leak_timeout, now) {
            let badly = match c.get_leaked_duration(now) {
                Some(d) => d as u128 > leak_timeout && d as u128 - leak_timeout > leak_timeout,
                None => false,
            };
            self.report_leak(i);
            if badly {
                self.remove_at(i);
            } else {
                self.mark_unhealthy_at(i);
            }
        } else if expired {
            self.mark_unhealthy_at(i);
        }
    }

    /// Records a leak report for the connection at `i`.
    fn report_leak(&mut self, i: usize)
        requires
            old(self).wf(),
            i < old(self)@.conns.len(),
        ensures
            final(self).wf(),
            final(self)@ == spec_leak_reported(old(self)@, i as int),
    {
        let mut c = self.connections[i];
        let first = c.report_leak_once();
        self.connections.set(i, c);
        proof {
            lemma_inv_conn_touched(old(self)@, i as int, c);
        }
        if first {
            let ghost mid = self@;
            match &mut self.stats_collector {
                Some(s) => s.increment_leaked_connections(),
                None => {},
            }
            proof {
                lemma_inv_stats_changed(mid, self@.stats);
            }
        }
        assert(self@ == spec_leak_reported(old(self)@, i as int));
    }

    /// Marks the connection at `i` unhealthy.
    fn mark_unhealthy_at(&mut self, i: usize)
        requires
            old(self).wf(),
            i < old(self)@.conns.len(),
        ensures
            final(self).wf(),
            final(self)@ == spec_marked_unhealthy(old(self)@, i as int),
    {
        let mut c = self.connections[i];
        c.mark_unhealthy();
        self.connections.set(i, c);
        proof {
            lemma_inv_conn_touched(old(self)@, i as int, c);
        }
    }

    /// The identifiers of the connections, in order.
    fn snapshot_ids(&self) -> (ids: Vec<u64>)
        ensures
            ids@ == conn_ids(self@.conns),
    {
        let mut ids: Vec<u64> = Vec::new();
        let mut i: usize = 0;
        while i < self.connections.len()
            invariant
                i <= self.connections@.len(),
                ids@ == conn_ids(self@.conns.take(i as int)),
            decreases self.connections@.len() - i,
        {
            ids.push(self.connections[i].id);
            assert(self@.conns.take(i + 1) =~= self@.conns.take(i as int).push(self@.conns[i as int]));
            i = i + 1;
        }
        assert(self@.conns.take(i as int) =~= self@.conns);
        ids
    }

    /// The first phase of the periodic cleanup: see `spec_cleanup_scan`.
    /// Hands back the connections due for a health check.
    pub fn cleanup_scan(&mut self, now: Clock) -> (checks: Vec<u64>)
        requires
            old(self).wf(),
        ensures
            final(self).wf(),
            (final(self)@, checks@) == spec_cleanup_scan(old(self)@, now),
    {
        if self.closed {
            return Vec::new();
        }
        let ids = self.snapshot_ids();
        let mut checks: Vec<u64> = Vec::new();
        let mut removes: Vec<u64> = Vec::new();
        let ghost start = self@;
        let mut k: usize = 0;
        while k < ids.len()
            invariant
                self.wf(),
                !self@.closed,
                k <= ids@.len(),
                start == old(self)@,
                ids@ == conn_ids(start.conns),
                ({
                    let r = spec_scan_from(self@, ids@, k as int, now);
                    (r.0, checks@ + r.1, removes@ + r.2)
                }) == spec_scan_from(start, ids@, 0, now),
            decreases ids@.len() - k,
        {
            let id = ids[k];
            let ghost before = self@;
            let ghost checks0 = checks@;
            let ghost removes0 = removes@;
            match self.find_conn(id) {
                None => {},
                Some(i) => {
                    let c = self.connections[i];
                    if c.in_use {
                        self.check_borrowed(i, now);
                    } else if self.config.enable_health_check && self.config.has_health_checker
                        && c.should_health_check(self.config.health_check_interval, now) {
                        let ghost mid = self@;
                        match &mut self.stats_collector {
                            Some(s) => s.increment_health_check_attempts(),
                            None => {},
                        }
                        proof {
                            lemma_inv_stats_changed(mid, self@.stats);
                        }
                        checks.push(id);
                        assert(checks0 + seq![id] + spec_scan_from(self@, ids@, k + 1, now).1
                            =~= checks0 + (seq![id] + spec_scan_from(self@, ids@, k + 1, now).1));
                    } else if !c.is_valid_for_borrow(self.config.max_lifetime, self.config.idle_timeout, now) {
                        removes.push(id);
                        assert(removes0 + seq![id] + spec_scan_from(self@, ids@, k + 1, now).2
                            =~= removes0 + (seq![id] + spec_scan_from(self@, ids@, k + 1, now).2));
                    }
                },
            }
            k = k + 1;
        }
        assert(checks@ + Seq::<u64>::empty() =~= checks@);
        assert(removes@ + Seq::<u64>::empty() =~= removes@);
        self.remove_ids(&removes);
        checks
    }

    /// The second phase of the cleanup: applies the health-check results in
    /// order; see `spec_apply_results_from`.
    pub fn cleanup_apply(&mut self, results: &Vec<(u64, bool)>, now: Clock)
        requires
            old(self).wf(),
        ensures
            final(self).wf(),
            final(self)@ == spec_apply_results_from(old(self)@, results@, 0, now),
    {
        let mut k: usize = 0;
        while k < results.len()
            invariant
                self.wf(),
                k <= results@.len(),
                spec_apply_results_from(self@, results@, k as int, now) == spec_apply_results_from(
                    old(self)@,
                    results@,
                    0,
                    now,
                ),
            decreases results@.len() - k,
        {
            if self.closed {
                return;
            }
            let (id, ok) = results[k];
            self.apply_result(id, ok, now);
            k = k + 1;
        }
    }

    /// Applies one health-check result: see `spec_apply_result`.
    fn apply_result(&mut self, id: u64, ok: bool, now: Clock)
        requires
            old(self).wf(),
        ensures
            final(self).wf(),
            final(self)@ == spec_apply_result(old(self)@, id, ok, now),
    {
        match self.find_conn(id) {
            None => {},
            Some(i) => {
                let mut c = self.connections[i];
                if c.in_use {
                    return;
                }
                if !ok {
                    c.update_health(false, now);
                    self.connections.set(i, c);
                    proof {
                        lemma_inv_conn_touched(old(self)@, i as int, c);
                    }
                    let ghost mid = self@;
                    match &mut self.stats_collector {
                        Some(s) => {
                            s.increment_health_check_failures();
                            s.increment_unhealthy_connections();
                        },
                        None => {},
                    }
                    proof {
                        lemma_inv_stats_changed(mid, self@.stats);
                    }
                    self.remove_at(i);
                } else {
                    c.update_health(true, now);
                    self.connections.set(i, c);
                    proof {
                        lemma_inv_conn_touched(old(self)@, i as int, c);
                    }
                    if !c.is_valid_for_borrow(self.config.max_lifetime, self.config.idle_timeout, now) {
                        self.remove_at(i);
                    }
                }
            },
        }
    }


    // ------------------------------------------------------------------
    // Queries.

    /// Whether the pool was closed.
    pub fn is_closed(&self) -> (b: bool)
        ensures
            b == self@.closed,
    {
        self.closed
    }

    /// The number of borrowed connections.
    pub fn active_count(&self) -> (n: usize)
        ensures
            n == self@.active_count,
    {
        self.active_count
    }

    /// The number of idle entries over all buckets (held at `usize::MAX`).
    pub fn idle_count(&self) -> (n: usize)
        requires
            self.wf(),
        ensures
            n == if self@.idle_counts[0] + self@.idle_counts[1] + self@.idle_counts[2]
                + self@.idle_counts[3] > usize::MAX {
                usize::MAX as int
            } else {
                self@.idle_counts[0] + self@.idle_counts[1] + self@.idle_counts[2]
                    + self@.idle_counts[3]
            },
    {
        let mut total: usize = 0;
        let mut b: usize = 0;
        while b < BUCKET_COUNT
            invariant
                self.wf(),
                b <= BUCKET_COUNT,
                total == if ({
                    let n: int = if b == 0 {
                        0
                    } else if b == 1 {
                        self@.idle_counts[0] as int
                    } else if b == 2 {
                        self@.idle_counts[0] + self@.idle_counts[1]
                    } else if b == 3 {
                        self@.idle_counts[0] + self@.idle_counts[1] + self@.idle_counts[2]
                    } else {
                        self@.idle_counts[0] + self@.idle_counts[1] + self@.idle_counts[2]
                            + self@.idle_counts[3]
                    };
                    n
                }) > usize::MAX {
                    usize::MAX as int
                } else if b == 0 {
                    0
                } else if b == 1 {
                    self@.idle_counts[0] as int
                } else if b == 2 {
                    self@.idle_counts[0] + self@.idle_counts[1]
                } else if b == 3 {
                    self@.idle_counts[0] + self@.idle_counts[1] + self@.idle_counts[2]
                } else {
                    self@.idle_counts[0] + self@.idle_counts[1] + self@.idle_counts[2]
                        + self@.idle_counts[3]
                },
            decreases BUCKET_COUNT - b,
        {
            total = total.saturating_add(self.idle_counts[b]);
            b = b + 1;
        }
        total
    }

    /// The number of connections in the pool.
    pub fn connection_count(&self) -> (n: usize)
        ensures
            n == self@.conns.len(),
    {
        self.connections.len()
    }

    /// The state of the connection named `id`, if the pool has it.
    pub fn connection(&self, id: u64) -> (r: Option<Connection>)
        requires
            self.wf(),
        ensures
            r is Some <==> has_conn(self@.conns, id),
            r matches Some(c) ==> c == self@.conns[conn_index(self@.conns, id)],
    {
        match self.find_conn(id) {
            Some(i) => Some(self.connections[i]),
            None => None,
        }
    }


    /// How long the cleanup task sleeps between rounds: the health-check
    /// interval, or one second when that is zero.
    pub fn reaper_interval(&self) -> (d: u128)
        ensures
            d == if self@.config.health_check_interval == 0 {
                1_000_000_000u128
            } else {
                self@.config.health_check_interval
            },
    {
        if self.config.health_check_interval == 0 {
            1_000_000_000
        } else {
            self.config.health_check_interval
        }
    }

    /// How many connections to create ahead of demand: `min_connections` in
    /// client mode, none in server mode (accepting would block).
    pub fn prewarm_target(&self) -> (n: usize)
        ensures
            n == if self@.config.mode == PoolMode::Client {
                self@.config.min_connections
            } else {
                0
            },
    {
        match self.config.mode {
            PoolMode::Client => self.config.min_connections,
            PoolMode::Server => 0,
        }
    }

    /// How long closing waits for borrowed connections to come back: the
    /// leak timeout (zero means no wait).
    pub fn close_wait_budget(&self) -> (d: u128)
        ensures
            d == self@.config.connection_leak_timeout,
    {
        self.config.connection_leak_timeout
    }

    /// Records how long a request that got a connection took, up to the moment
    /// the connection was handed out (after any draining of its UDP buffer
    /// and the borrow hook), in nanoseconds.
    pub fn record_get_time(&mut self, elapsed: u64)
        requires
            old(self).wf(),
        ensures
            final(self).wf(),
            final(self)@ == (PoolView {
                stats: stats_apply(old(self)@.stats, |s: Stats| stat_get_time(s, elapsed)),
                ..old(self)@
            }),
    {
        let ghost v = self@;
        match &mut self.stats_collector {
            Some(c) => c.record_get_time(elapsed),
            None => {},
        }
        proof {
            lemma_inv_stats_changed(v, self@.stats);
        }
    }

    /// Whether closing goes on waiting for borrowed connections to come back:
    /// some are still borrowed and the deadline (monotonic nanoseconds) is
    /// still ahead.
    pub fn close_wait_continues(&self, now_monotonic: u128, deadline: u128) -> (b: bool)
        ensures
            b == (self@.active_count > 0 && now_monotonic < deadline),
    {
        self.active_count > 0 && now_monotonic < deadline
    }

    /// The configuration in force.
    pub fn config(&self) -> (c: Config)
        ensures
            c == self@.config,
    {
        self.config
    }

    /// The statistics: a snapshot when enabled, all zero otherwise.
    pub fn stats(&self) -> (s: Stats)
        requires
            self.wf(),
        ensures
            s == match self@.stats {
                Some(t) => spec_snapshot(t),
                None => spec_zero_stats(),
            },
    {
        match &self.stats_collector {
            Some(c) => c.get_stats(),
            None => Stats::default(),
        }
    }

    /// Hands over the identifiers of removed connections whose sockets must
    /// now be closed, oldest first, and forgets them.
    pub fn take_pending_close(&mut self) -> (ids: Vec<u64>)
        requires
            old(self).wf(),
        ensures
            final(self).wf(),
            ids@ == old(self)@.pending_close,
            final(self)@ == (PoolView { pending_close: Seq::empty(), ..old(self)@ }),
    {
        let mut ids: Vec<u64> = Vec::new();
        std::mem::swap(&mut ids, &mut self.pending_close);
        ids
    }

    // ------------------------------------------------------------------
    // Elementary steps.

    /// Pops the front entry of bucket `b`'s queue, touching nothing else.
    fn queue_pop(&mut self, b: usize) -> (r: Option<u64>)
        requires
            b < BUCKET_COUNT,
        ensures
            old(self)@.idle[b as int].len() == 0 ==> r is None && final(self)@ == old(self)@,
            old(self)@.idle[b as int].len() > 0 ==> r == Some(old(self)@.idle[b as int][0])
                && final(self)@ == (PoolView {
                idle: old(self)@.idle.update(b as int, old(self)@.idle[b as int].drop_first()),
                ..old(self)@
            }),
    {
        let r = match b {
            0 => seg_queue_pop(&mut self.idle_tcp_v4),
            1 => seg_queue_pop(&mut self.idle_tcp_v6),
            2 => seg_queue_pop(&mut self.idle_udp_v4),
            _ => seg_queue_pop(&mut self.idle_udp_v6),
        };
        assert(self@.idle =~= old(self)@.idle.update(b as int, self@.idle[b as int]));
        r
    }

    /// Pushes `id` on the back of bucket `b`'s queue, touching nothing else.
    fn queue_push(&mut self, b: usize, id: u64)
        requires
            b < BUCKET_COUNT,
        ensures
            final(self)@ == (PoolView {
                idle: old(self)@.idle.update(b as int, old(self)@.idle[b as int].push(id)),
                ..old(self)@
            }),
    {
        match b {
            0 => seg_queue_push(&mut self.idle_tcp_v4, id),
            1 => seg_queue_push(&mut self.idle_tcp_v6, id),
            2 => seg_queue_push(&mut self.idle_udp_v4, id),
            _ => seg_queue_push(&mut self.idle_udp_v6, id),
        }
        assert(self@.idle =~= old(self)@.idle.update(b as int, old(self)@.idle[b as int].push(id)));
    }

    /// Counts an entry leaving bucket `b` in the statistics.
    fn stat_idle_pop(&mut self, b: usize)
        requires
            b < BUCKET_COUNT,
        ensures
            final(self)@ == (PoolView {
                stats: stats_apply(old(self)@.stats, |s: Stats| stat_idle_pop(s, b as int)),
                ..old(self)@
            }),
    {
        match &mut self.stats_collector {
            Some(c) => {
                c.increment_current_idle_connections(-1);
                if b % 2 == 0 {
                    c.increment_current_ipv4_idle_connections(-1);
                } else {
                    c.increment_current_ipv6_idle_connections(-1);
                }
                if b < 2 {
                    c.increment_current_tcp_idle_connections(-1);
                } else {
                    c.increment_current_udp_idle_connections(-1);
                }
            },
            None => {},
        }
    }

    /// Counts an entry joining bucket `b` in the statistics.
    fn stat_idle_push(&mut self, b: usize)
        requires
            b < BUCKET_COUNT,
        ensures
            final(self)@ == (PoolView {
                stats: stats_apply(old(self)@.stats, |s: Stats| stat_idle_push(s, b as int)),
                ..old(self)@
            }),
    {
        match &mut self.stats_collector {
            Some(c) => {
                c.increment_current_idle_connections(1);
                if b % 2 == 0 {
                    c.increment_current_ipv4_idle_connections(1);
                } else {
                    c.increment_current_ipv6_idle_connections(1);
                }
                if b < 2 {
                    c.increment_current_tcp_idle_connections(1);
                } else {
                    c.increment_current_udp_idle_connections(1);
                }
            },
            None => {},
        }
    }

    /// Counts a closed connection of protocol `p` and IP version `ip`.
    fn stat_removed(&mut self, p: Protocol, ip: IPVersion)
        ensures
            final(self)@ == (PoolView {
                stats: stats_apply(old(self)@.stats, |s: Stats| stat_removed(s, p, ip)),
                ..old(self)@
            }),
    {
        match &mut self.stats_collector {
            Some(c) => {
                c.increment_total_connections_closed();
                match ip {
                    IPVersion::IPv4 => c.increment_current_ipv4_connections(-1),
                    IPVersion::IPv6 => c.increment_current_ipv6_connections(-1),
                    IPVersion::Unknown => {},
                }
                match p {
                    Protocol::TCP => c.increment_current_tcp_connections(-1),
                    Protocol::UDP => c.increment_current_udp_connections(-1),
                    Protocol::Unknown => {},
                }
            },
            None => {},
        }
    }

    /// Counts a created connection of protocol `p` and IP version `ip`.
    fn stat_created(&mut self, p: Protocol, ip: IPVersion)
        ensures
            final(self)@ == (PoolView {
                stats: stats_apply(old(self)@.stats, |s: Stats| stat_created(s, p, ip)),
                ..old(self)@
            }),
    {
        match &mut self.stats_collector {
            Some(c) => {
                c.increment_total_connections_created();
                match ip {
                    IPVersion::IPv4 => c.increment_current_ipv4_connections(1),
                    IPVersion::IPv6 => c.increment_current_ipv6_connections(1),
                    IPVersion::Unknown => {},
                }
                match p {
                    Protocol::TCP => c.increment_current_tcp_connections(1),
                    Protocol::UDP => c.increment_current_udp_connections(1),
                    Protocol::Unknown => {},
                }
            },
            None => {},
        }
    }

    /// Counts a borrowed connection becoming idle.
    fn stat_active_dec(&mut self)
        ensures
            final(self)@ == (PoolView {
                stats: stats_apply(old(self)@.stats, |s: Stats| stat_active_dec(s)),
                ..old(self)@
            }),
    {
        match &mut self.stats_collector {
            Some(c) => c.increment_current_active_connections(-1),
            None => {},
        }
    }

    /// Counts a request that got a connection.
    fn stat_get_success(&mut self, reused: bool)
        ensures
            final(self)@ == (PoolView {
                stats: stats_apply(old(self)@.stats, |s: Stats| stat_get_success(s, reused)),
                ..old(self)@
            }),
    {
        match &mut self.stats_collector {
            Some(c) => {
                c.increment_successful_gets();
                c.increment_current_active_connections(1);
                if reused {
                    c.increment_total_connections_reused();
                }
            },
            None => {},
        }
    }
}

} // verus!
