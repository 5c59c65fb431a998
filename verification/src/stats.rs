//! Pool statistics: saturating counters and their snapshot.

use vstd::prelude::*;

verus! {

/// `a + d`, held at the bounds of `i64` instead of overflowing.
pub open spec fn sat_add_i64(a: i64, d: i64) -> i64 {
    if a + d > i64::MAX {
        i64::MAX
    } else if a + d < i64::MIN {
        i64::MIN
    } else {
        (a + d) as i64
    }
}

/// `a + d`, held at `u64::MAX` instead of overflowing.
pub open spec fn sat_add_u64(a: u64, d: u64) -> u64 {
    if a + d > u64::MAX {
        u64::MAX
    } else {
        (a + d) as u64
    }
}

/// Adds `delta` to `counter`, holding the result at the bounds of `i64`.
fn saturating_increment_i64(counter: i64, delta: i64) -> (r: i64)
    ensures
        r == sat_add_i64(counter, delta),
{
    match counter.checked_add(delta) {
        Some(v) => v,
        None => {
            if delta > 0 {
                i64::MAX
            } else {
                i64::MIN
            }
        },
    }
}

/// Adds `delta` to `counter`, holding the result at `u64::MAX`.
fn saturating_increment_u64(counter: u64, delta: u64) -> (r: u64)
    ensures
        r == sat_add_u64(counter, delta),
{
    match counter.checked_add(delta) {
        Some(v) => v,
        None => u64::MAX,
    }
}

/// A snapshot of the pool statistics. Times are in nanoseconds.
#[derive(Debug, Clone, Copy, PartialEq, Eq, Structural)]
pub struct Stats {
    /// Connections created so far.
    pub total_connections_created: i64,
    /// Connections closed so far.
    pub total_connections_closed: i64,
    /// Connections open now.
    pub current_connections: i64,
    /// Idle connections now.
    pub current_idle_connections: i64,
    /// Borrowed connections now.
    pub current_active_connections: i64,
    /// IPv4 connections now.
    pub current_ipv4_connections: i64,
    /// IPv6 connections now.
    pub current_ipv6_connections: i64,
    /// Idle IPv4 connections now.
    pub current_ipv4_idle_connections: i64,
    /// Idle IPv6 connections now.
    pub current_ipv6_idle_connections: i64,
    /// TCP connections now.
    pub current_tcp_connections: i64,
    /// UDP connections now.
    pub current_udp_connections: i64,
    /// Idle TCP connections now.
    pub current_tcp_idle_connections: i64,
    /// Idle UDP connections now.
    pub current_udp_idle_connections: i64,
    /// Requests for a connection so far.
    pub total_get_requests: i64,
    /// Requests that got a connection.
    pub successful_gets: i64,
    /// Requests that failed.
    pub failed_gets: i64,
    /// Requests that timed out.
    pub timeout_gets: i64,
    /// Health checks run.
    pub health_check_attempts: i64,
    /// Health checks failed.
    pub health_check_failures: i64,
    /// Connections found unhealthy.
    pub unhealthy_connections: i64,
    /// Errors while creating connections.
    pub connection_errors: i64,
    /// Connections reported as leaked.
    pub leaked_connections: i64,
    /// Borrows served from the idle buckets.
    pub total_connections_reused: i64,
    /// Mean time a successful request took.
    pub average_get_time: u64,
    /// Total time successful requests took.
    pub total_get_time: u64,
}

/// All counters at zero.
pub open spec fn spec_zero_stats() -> Stats {
    Stats {
        total_connections_created: 0,
        total_connections_closed: 0,
        current_connections: 0,
        current_idle_connections: 0,
        current_active_connections: 0,
        current_ipv4_connections: 0,
        current_ipv6_connections: 0,
        current_ipv4_idle_connections: 0,
        current_ipv6_idle_connections: 0,
        current_tcp_connections: 0,
        current_udp_connections: 0,
        current_tcp_idle_connections: 0,
        current_udp_idle_connections: 0,
        total_get_requests: 0,
        successful_gets: 0,
        failed_gets: 0,
        timeout_gets: 0,
        health_check_attempts: 0,
        health_check_failures: 0,
        unhealthy_connections: 0,
        connection_errors: 0,
        leaked_connections: 0,
        total_connections_reused: 0,
        average_get_time: 0,
        total_get_time: 0,
    }
}

impl Default for Stats {
    fn default() -> (s: Self)
        ensures
            s == spec_zero_stats(),
    {
        Stats {
            total_connections_created: 0,
            total_connections_closed: 0,
            current_connections: 0,
            current_idle_connections: 0,
            current_active_connections: 0,
            current_ipv4_connections: 0,
            current_ipv6_connections: 0,
            current_ipv4_idle_connections: 0,
            current_ipv6_idle_connections: 0,
            current_tcp_connections: 0,
            current_udp_connections: 0,
            current_tcp_idle_connections: 0,
            current_udp_idle_connections: 0,
            total_get_requests: 0,
            successful_gets: 0,
            failed_gets: 0,
            timeout_gets: 0,
            health_check_attempts: 0,
            health_check_failures: 0,
            unhealthy_connections: 0,
            connection_errors: 0,
            leaked_connections: 0,
            total_connections_reused: 0,
            average_get_time: 0,
            total_get_time: 0,
        }
    }
}

/// The mean time of a successful request: the total time over the number of
/// successful requests, or 0 before any.
pub open spec fn spec_average_get_time(total_get_time: u64, successful_gets: i64) -> u64 {
    if successful_gets > 0 {
        (total_get_time / (successful_gets as u64)) as u64
    } else {
        0
    }
}

/// The snapshot that `get_stats` hands out for the given counters.
pub open spec fn spec_snapshot(s: Stats) -> Stats {
    Stats { average_get_time: spec_average_get_time(s.total_get_time, s.successful_gets), ..s }
}

/// Collects the pool statistics. Every counter saturates at the bounds of its
/// integer type instead of overflowing.
pub struct StatsCollector {
    counters: Stats,
}

impl View for StatsCollector {
    type V = Stats;

    closed spec fn view(&self) -> Stats {
        self.counters
    }
}

/// The counters after one connection was created.
pub open spec fn spec_after_created(s: Stats) -> Stats {
    Stats {
        total_connections_created: sat_add_i64(s.total_connections_created, 1),
        current_connections: sat_add_i64(s.current_connections, 1),
        ..s
    }
}

/// The counters after one connection was closed.
pub open spec fn spec_after_closed(s: Stats) -> Stats {
    Stats {
        total_connections_closed: sat_add_i64(s.total_connections_closed, 1),
        current_connections: sat_add_i64(s.current_connections, -1i64),
        ..s
    }
}

impl StatsCollector {
    /// A collector with every counter at zero.
    pub fn new() -> (c: Self)
        ensures
            c@ == spec_zero_stats(),
    {
        StatsCollector { counters: Stats::default() }
    }

    /// Counts a created connection: the total created and the current count
    /// both go up by one.
    pub fn increment_total_connections_created(&mut self)
        ensures
            final(self)@ == spec_after_created(old(self)@),
    {
        self.counters.total_connections_created = saturating_increment_i64(
            self.counters.total_connections_created,
            1,
        );
        self.counters.current_connections = saturating_increment_i64(
            self.counters.current_connections,
            1,
        );
    }

    /// Counts a closed connection: the total closed goes up by one and the
    /// current count down by one.
    pub fn increment_total_connections_closed(&mut self)
        ensures
            final(self)@ == spec_after_closed(old(self)@),
    {
        self.counters.total_connections_closed = saturating_increment_i64(
            self.counters.total_connections_closed,
            1,
        );
        self.counters.current_connections = saturating_increment_i64(
            self.counters.current_connections,
            -1,
        );
    }


    /// Adds one to `total_get_requests`.
    pub fn increment_total_get_requests(&mut self)
        ensures
            final(self)@ == (Stats { total_get_requests: sat_add_i64(old(self)@.total_get_requests, 1), ..old(self)@ }),
    {
        self.counters.total_get_requests = saturating_increment_i64(self.counters.total_get_requests, 1);
    }

    /// Adds one to `successful_gets`.
    pub fn increment_successful_gets(&mut self)
        ensures
            final(self)@ == (Stats { successful_gets: sat_add_i64(old(self)@.successful_gets, 1), ..old(self)@ }),
    {
        self.counters.successful_gets = saturating_increment_i64(self.counters.successful_gets, 1);
    }

    /// Adds one to `failed_gets`.
    pub fn increment_failed_gets(&mut self)
        ensures
            final(self)@ == (Stats { failed_gets: sat_add_i64(old(self)@.failed_gets, 1), ..old(self)@ }),
    {
        self.counters.failed_gets = saturating_increment_i64(self.counters.failed_gets, 1);
    }

    /// Adds one to `timeout_gets`.
    pub fn increment_timeout_gets(&mut self)
        ensures
            final(self)@ == (Stats { timeout_gets: sat_add_i64(old(self)@.timeout_gets, 1), ..old(self)@ }),
    {
        self.counters.timeout_gets = saturating_increment_i64(self.counters.timeout_gets, 1);
    }

    /// Adds one to `health_check_attempts`.
    pub fn increment_health_check_attempts(&mut self)
        ensures
            final(self)@ == (Stats { health_check_attempts: sat_add_i64(old(self)@.health_check_attempts, 1), ..old(self)@ }),
    {
        self.counters.health_check_attempts = saturating_increment_i64(self.counters.health_check_attempts, 1);
    }

    /// Adds one to `health_check_failures`.
    pub fn increment_health_check_failures(&mut self)
        ensures
            final(self)@ == (Stats { health_check_failures: sat_add_i64(old(self)@.health_check_failures, 1), ..old(self)@ }),
    {
        self.counters.health_check_failures = saturating_increment_i64(self.counters.health_check_failures, 1);
    }

    /// Adds one to `unhealthy_connections`.
    pub fn increment_unhealthy_connections(&mut self)
        ensures
            final(self)@ == (Stats { unhealthy_connections: sat_add_i64(old(self)@.unhealthy_connections, 1), ..old(self)@ }),
    {
        self.counters.unhealthy_connections = saturating_increment_i64(self.counters.unhealthy_connections, 1);
    }

    /// Adds one to `connection_errors`.
    pub fn increment_connection_errors(&mut self)
        ensures
            final(self)@ == (Stats { connection_errors: sat_add_i64(old(self)@.connection_errors, 1), ..old(self)@ }),
    {
        self.counters.connection_errors = saturating_increment_i64(self.counters.connection_errors, 1);
    }

    /// Adds one to `leaked_connections`.
    pub fn increment_leaked_connections(&mut self)
        ensures
            final(self)@ == (Stats { leaked_connections: sat_add_i64(old(self)@.leaked_connections, 1), ..old(self)@ }),
    {
        self.counters.leaked_connections = saturating_increment_i64(self.counters.leaked_connections, 1);
    }

    /// Adds one to `total_connections_reused`.
    pub fn increment_total_connections_reused(&mut self)
        ensures
            final(self)@ == (Stats { total_connections_reused: sat_add_i64(old(self)@.total_connections_reused, 1), ..old(self)@ }),
    {
        self.counters.total_connections_reused = saturating_increment_i64(self.counters.total_connections_reused, 1);
    }

    /// Adds `delta` to `current_idle_connections`.
    pub fn increment_current_idle_connections(&mut self, delta: i64)
        ensures
            final(self)@ == (Stats { current_idle_connections: sat_add_i64(old(self)@.current_idle_connections, delta), ..old(self)@ }),
    {
        self.counters.current_idle_connections = saturating_increment_i64(self.counters.current_idle_connections, delta);
    }

    /// Adds `delta` to `current_active_connections`.
    pub fn increment_current_active_connections(&mut self, delta: i64)
        ensures
            final(self)@ == (Stats { current_active_connections: sat_add_i64(old(self)@.current_active_connections, delta), ..old(self)@ }),
    {
        self.counters.current_active_connections = saturating_increment_i64(self.counters.current_active_connections, delta);
    }

    /// Adds `delta` to `current_ipv4_connections`.
    pub fn increment_current_ipv4_connections(&mut self, delta: i64)
        ensures
            final(self)@ == (Stats { current_ipv4_connections: sat_add_i64(old(self)@.current_ipv4_connections, delta), ..old(self)@ }),
    {
        self.counters.current_ipv4_connections = saturating_increment_i64(self.counters.current_ipv4_connections, delta);
    }

    /// Adds `delta` to `current_ipv6_connections`.
    pub fn increment_current_ipv6_connections(&mut self, delta: i64)
        ensures
            final(self)@ == (Stats { current_ipv6_connections: sat_add_i64(old(self)@.current_ipv6_connections, delta), ..old(self)@ }),
    {
        self.counters.current_ipv6_connections = saturating_increment_i64(self.counters.current_ipv6_connections, delta);
    }

    /// Adds `delta` to `current_ipv4_idle_connections`.
    pub fn increment_current_ipv4_idle_connections(&mut self, delta: i64)
        ensures
            final(self)@ == (Stats { current_ipv4_idle_connections: sat_add_i64(old(self)@.current_ipv4_idle_connections, delta), ..old(self)@ }),
    {
        self.counters.current_ipv4_idle_connections = saturating_increment_i64(self.counters.current_ipv4_idle_connections, delta);
    }

    /// Adds `delta` to `current_ipv6_idle_connections`.
    pub fn increment_current_ipv6_idle_connections(&mut self, delta: i64)
        ensures
            final(self)@ == (Stats { current_ipv6_idle_connections: sat_add_i64(old(self)@.current_ipv6_idle_connections, delta), ..old(self)@ }),
    {
        self.counters.current_ipv6_idle_connections = saturating_increment_i64(self.counters.current_ipv6_idle_connections, delta);
    }

    /// Adds `delta` to `current_tcp_connections`.
    pub fn increment_current_tcp_connections(&mut self, delta: i64)
        ensures
            final(self)@ == (Stats { current_tcp_connections: sat_add_i64(old(self)@.current_tcp_connections, delta), ..old(self)@ }),
    {
        self.counters.current_tcp_connections = saturating_increment_i64(self.counters.current_tcp_connections, delta);
    }

    /// Adds `delta` to `current_udp_connections`.
    pub fn increment_current_udp_connections(&mut self, delta: i64)
        ensures
            final(self)@ == (Stats { current_udp_connections: sat_add_i64(old(self)@.current_udp_connections, delta), ..old(self)@ }),
    {
        self.counters.current_udp_connections = saturating_increment_i64(self.counters.current_udp_connections, delta);
    }

    /// Adds `delta` to `current_tcp_idle_connections`.
    pub fn increment_current_tcp_idle_connections(&mut self, delta: i64)
        ensures
            final(self)@ == (Stats { current_tcp_idle_connections: sat_add_i64(old(self)@.current_tcp_idle_connections, delta), ..old(self)@ }),
    {
        self.counters.current_tcp_idle_connections = saturating_increment_i64(self.counters.current_tcp_idle_connections, delta);
    }

    /// Adds `delta` to `current_udp_idle_connections`.
    pub fn increment_current_udp_idle_connections(&mut self, delta: i64)
        ensures
            final(self)@ == (Stats { current_udp_idle_connections: sat_add_i64(old(self)@.current_udp_idle_connections, delta), ..old(self)@ }),
    {
        self.counters.current_udp_idle_connections = saturating_increment_i64(self.counters.current_udp_idle_connections, delta);
    }

    /// Adds the time a successful request took (nanoseconds) to the total.
    pub fn record_get_time(&mut self, duration: u64)
        ensures
            final(self)@ == (Stats {
                total_get_time: sat_add_u64(old(self)@.total_get_time, duration),
                ..old(self)@
            }),
    {
        self.counters.total_get_time = saturating_increment_u64(self.counters.total_get_time, duration);
    }

    /// A snapshot of the counters, with the mean request time computed.
    pub fn get_stats(&self) -> (s: Stats)
        ensures
            s == spec_snapshot(self@),
    {
        let total_gets = self.counters.successful_gets;
        let total_time = self.counters.total_get_time;
        let avg_time: u64 = if total_gets > 0 {
            total_time / (total_gets as u64)
        } else {
            0
        };
        Stats { average_get_time: avg_time, ..self.counters }
    }
}

impl Default for StatsCollector {
    fn default() -> (c: Self)
        ensures
            c@ == spec_zero_stats(),
    {
        StatsCollector::new()
    }
}

/// The number of open connections stays the number created less the number
/// closed, across a creation and across a closing, as long as no counter
/// reaches the bounds of `i64`.
pub proof fn lemma_current_tracks_created_minus_closed(s: Stats)
    requires
        s.current_connections == s.total_connections_created - s.total_connections_closed,
        s.total_connections_created < i64::MAX,
        s.total_connections_closed < i64::MAX,
        i64::MIN < s.current_connections < i64::MAX,
    ensures
        spec_after_created(s).current_connections == spec_after_created(
            s,
        ).total_connections_created - spec_after_created(s).total_connections_closed,
        spec_after_closed(s).current_connections == spec_after_closed(
            s,
        ).total_connections_created - spec_after_closed(s).total_connections_closed,
{
}

} // verus!
