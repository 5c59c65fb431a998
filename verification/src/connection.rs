//! The lifecycle state of one pooled connection. The socket itself belongs to
//! the I/O layer; this record holds what the pool decides on.

use vstd::prelude::*;
use crate::ipversion::IPVersion;
use crate::protocol::Protocol;

verus! {

/// A reading of the two clocks the pool uses, in nanoseconds: a monotonic
/// clock for ages and the wall clock (since the UNIX epoch) for idle and
/// health-check times.
#[derive(Debug, Clone, Copy, PartialEq, Eq, Structural)]
pub struct Clock {
    /// Monotonic time.
    pub monotonic: u64,
    /// Wall-clock time since the UNIX epoch.
    pub unix: u64,
}

/// The time from `earlier` to `now`, or `None` when the clock went back.
pub open spec fn spec_elapsed(earlier: u64, now: u64) -> Option<u64> {
    if now >= earlier {
        Some((now - earlier) as u64)
    } else {
        None
    }
}

/// The lifecycle state of a connection.
#[derive(Debug, Clone, Copy, PartialEq, Eq, Structural)]
pub struct Connection {
    /// Identifier, unique within the pool.
    pub id: u64,
    /// Transport protocol.
    pub protocol: Protocol,
    /// IP version.
    pub ip_version: IPVersion,
    /// Monotonic time of creation.
    pub created_at: u64,
    /// Wall-clock time of the last borrow or return.
    pub last_used_at: u64,
    /// Wall-clock time of the last passed health check.
    pub last_health_check_at: u64,
    /// Whether the connection is healthy.
    pub is_healthy: bool,
    /// Whether the connection was closed.
    pub closed: bool,
    /// Whether the connection is borrowed.
    pub in_use: bool,
    /// How many times the connection was reused from the idle buckets.
    pub reuse_count: i64,
    /// Whether a leak of this connection was already reported.
    pub leak_reported: bool,
}

/// The generator of connection identifiers. Identifiers count up from 2;
/// once the counter is exhausted they continue from a value built from the
/// wall clock.
#[derive(Debug, Clone, Copy, PartialEq, Eq, Structural)]
pub struct ConnectionIdGenerator {
    /// The last identifier handed out (1 before the first).
    pub last: u64,
}

/// The identifier that follows `last`: `last + 1`, or, when `last` is
/// `u64::MAX`, the low 48 bits of the wall clock with bit 48 set.
pub open spec fn spec_next_id(last: u64, now_unix: u64) -> u64 {
    if last < u64::MAX {
        (last + 1) as u64
    } else {
        (now_unix & 0x0000_FFFF_FFFF_FFFFu64) | 0x0001_0000_0000_0000u64
    }
}

impl ConnectionIdGenerator {
    /// A generator whose first identifier is 2.
    pub fn new() -> (g: Self)
        ensures
            g.last == 1,
    {
        ConnectionIdGenerator { last: 1 }
    }

    /// Hands out the next identifier.
    pub fn next_id(&mut self, now_unix: u64) -> (id: u64)
        ensures
            id == spec_next_id(old(self).last, now_unix),
            final(self).last == id,
    {
        let id = match self.last.checked_add(1) {
            Some(n) => n,
            None => (now_unix & 0x0000_FFFF_FFFF_FFFFu64) | 0x0001_0000_0000_0000u64,
        };
        self.last = id;
        id
    }
}

/// Identifiers drawn one after another from one generator are nonzero, and
/// each is larger than the one before while the counter is below
/// `u64::MAX`; so all pools drawing from the process's single generator
/// hand out distinct, rising identifiers.
pub proof fn lemma_ids_rise(last: u64, t1: u64, t2: u64)
    requires
        last < u64::MAX - 1,
    ensures
        spec_next_id(last, t1) != 0,
        spec_next_id(last, t1) > last,
        spec_next_id(spec_next_id(last, t1), t2) > spec_next_id(last, t1),
{
}

/// A new connection: healthy, open, idle, never reused, both timestamps at `now`.
pub open spec fn spec_new_connection(
    id: u64,
    protocol: Protocol,
    ip_version: IPVersion,
    now: Clock,
) -> Connection {
    Connection {
        id,
        protocol,
        ip_version,
        created_at: now.monotonic,
        last_used_at: now.unix,
        last_health_check_at: now.unix,
        is_healthy: true,
        closed: false,
        in_use: false,
        reuse_count: 0,
        leak_reported: false,
    }
}

/// Whether a connection outlived `max_lifetime` (0 disables the limit).
pub open spec fn spec_is_expired(c: Connection, max_lifetime: u128, now: Clock) -> bool {
    max_lifetime != 0 && spec_age(c, now) > max_lifetime
}

/// The age of a connection; 0 when the monotonic reading precedes creation.
pub open spec fn spec_age(c: Connection, now: Clock) -> u64 {
    if now.monotonic >= c.created_at {
        (now.monotonic - c.created_at) as u64
    } else {
        0
    }
}

/// Whether an idle connection sat unused longer than `idle_timeout`
/// (0 disables; a clock that went back never expires it).
pub open spec fn spec_is_idle_expired(c: Connection, idle_timeout: u128, now: Clock) -> bool {
    idle_timeout != 0 && !c.in_use && match spec_elapsed(c.last_used_at, now.unix) {
        Some(d) => d > idle_timeout,
        None => false,
    }
}

/// Whether a borrowed connection was held longer than `leak_timeout`
/// (0 disables; a clock that went back never counts as a leak).
pub open spec fn spec_is_leaked(c: Connection, leak_timeout: u128, now: Clock) -> bool {
    leak_timeout != 0 && c.in_use && match spec_elapsed(c.last_used_at, now.unix) {
        Some(d) => d > leak_timeout,
        None => false,
    }
}

/// How long a borrowed connection has been held.
pub open spec fn spec_leaked_duration(c: Connection, now: Clock) -> Option<u64> {
    if !c.in_use {
        None
    } else {
        spec_elapsed(c.last_used_at, now.unix)
    }
}

/// Whether a health check is due (0 disables; a clock that went back makes
/// it due).
pub open spec fn spec_should_health_check(c: Connection, interval: u128, now: Clock) -> bool {
    interval != 0 && match spec_elapsed(c.last_health_check_at, now.unix) {
        Some(d) => d >= interval,
        None => true,
    }
}

/// Whether a connection may be handed out: open, healthy, within its
/// lifetime and not idle too long.
pub open spec fn spec_valid_for_borrow(
    c: Connection,
    max_lifetime: u128,
    idle_timeout: u128,
    now: Clock,
) -> bool {
    !c.closed && c.is_healthy && !spec_is_expired(c, max_lifetime, now) && !spec_is_idle_expired(
        c,
        idle_timeout,
        now,
    )
}

/// `now - earlier`, or `None` when the clock went back.
fn elapsed(earlier: u64, now: u64) -> (r: Option<u64>)
    ensures
        r == spec_elapsed(earlier, now),
{
    if now >= earlier {
        Some(now - earlier)
    } else {
        None
    }
}

impl Connection {
    /// A new connection record.
    pub fn new(id: u64, protocol: Protocol, ip_version: IPVersion, now: Clock) -> (c: Self)
        ensures
            c == spec_new_connection(id, protocol, ip_version, now),
    {
        Connection {
            id,
            protocol,
            ip_version,
            created_at: now.monotonic,
            last_used_at: now.unix,
            last_health_check_at: now.unix,
            is_healthy: true,
            closed: false,
            in_use: false,
            reuse_count: 0,
            leak_reported: false,
        }
    }

    /// The protocol.
    pub fn get_protocol(&self) -> (p: Protocol)
        ensures
            p == self.protocol,
    {
        self.protocol
    }

    /// The IP version.
    pub fn get_ip_version(&self) -> (v: IPVersion)
        ensures
            v == self.ip_version,
    {
        self.ip_version
    }

    /// Marks the connection borrowed at `now`.
    pub fn mark_in_use(&mut self, now: Clock)
        ensures
            *final(self) == (Connection { in_use: true, last_used_at: now.unix, ..*old(self) }),
    {
        self.in_use = true;
        self.last_used_at = now.unix;
    }

    /// Marks the connection idle at `now`.
    pub fn mark_idle(&mut self, now: Clock)
        ensures
            *final(self) == (Connection { in_use: false, last_used_at: now.unix, ..*old(self) }),
    {
        self.in_use = false;
        self.last_used_at = now.unix;
    }

    /// Marks the connection idle and tells whether it was borrowed; the
    /// last-used time moves to `now` only if it was.
    pub fn try_mark_idle(&mut self, now: Clock) -> (was_in_use: bool)
        ensures
            was_in_use == old(self).in_use,
            *final(self) == (Connection {
                in_use: false,
                last_used_at: if was_in_use {
                    now.unix
                } else {
                    old(self).last_used_at
                },
                ..*old(self)
            }),
    {
        let was_in_use = self.in_use;
        self.in_use = false;
        if was_in_use {
            self.last_used_at = now.unix;
        }
        was_in_use
    }

    /// Records a health-check result; a pass also records its time.
    pub fn update_health(&mut self, healthy: bool, now: Clock)
        ensures
            *final(self) == (Connection {
                is_healthy: healthy,
                last_health_check_at: if healthy {
                    now.unix
                } else {
                    old(self).last_health_check_at
                },
                ..*old(self)
            }),
    {
        self.is_healthy = healthy;
        if healthy {
            self.last_health_check_at = now.unix;
        }
    }

    /// Marks the connection unhealthy without closing it.
    pub fn mark_unhealthy(&mut self)
        ensures
            *final(self) == (Connection { is_healthy: false, ..*old(self) }),
    {
        self.is_healthy = false;
    }

    /// Whether a health check is due at `now`.
    pub fn should_health_check(&self, interval: u128, now: Clock) -> (b: bool)
        ensures
            b == spec_should_health_check(*self, interval, now),
    {
        if interval == 0 {
            return false;
        }
        match elapsed(self.last_health_check_at, now.unix) {
            Some(d) => d as u128 >= interval,
            None => true,
        }
    }

    /// Records a leak report and tells whether it is the first.
    pub fn report_leak_once(&mut self) -> (first: bool)
        ensures
            first == !old(self).leak_reported,
            *final(self) == (Connection { leak_reported: true, ..*old(self) }),
    {
        let first = !self.leak_reported;
        self.leak_reported = true;
        first
    }

    /// Whether the connection outlived `max_lifetime`.
    pub fn is_expired(&self, max_lifetime: u128, now: Clock) -> (b: bool)
        ensures
            b == spec_is_expired(*self, max_lifetime, now),
    {
        if max_lifetime == 0 {
            return false;
        }
        self.age(now) as u128 > max_lifetime
    }

    /// Whether the connection sat idle longer than `idle_timeout`.
    pub fn is_idle_expired(&self, idle_timeout: u128, now: Clock) -> (b: bool)
        ensures
            b == spec_is_idle_expired(*self, idle_timeout, now),
    {
        if idle_timeout == 0 {
            return false;
        }
        if self.in_use {
            return false;
        }
        match elapsed(self.last_used_at, now.unix) {
            Some(d) => d as u128 > idle_timeout,
            None => false,
        }
    }

    /// Whether the connection has been borrowed longer than `leak_timeout`.
    pub fn is_leaked(&self, leak_timeout: u128, now: Clock) -> (b: bool)
        ensures
            b == spec_is_leaked(*self, leak_timeout, now),
    {
        if leak_timeout == 0 || !self.in_use {
            return false;
        }
        match elapsed(self.last_used_at, now.unix) {
            Some(d) => d as u128 > leak_timeout,
            None => false,
        }
    }

    /// How long the connection has been borrowed; `None` when it is idle or
    /// the clock went back.
    pub fn get_leaked_duration(&self, now: Clock) -> (d: Option<u64>)
        ensures
            d == spec_leaked_duration(*self, now),
    {
        if !self.in_use {
            return None;
        }
        elapsed(self.last_used_at, now.unix)
    }

    /// Closes the connection. Only the first call has an effect: it marks the
    /// connection closed and, unless the close callback failed, unhealthy.
    /// Returns whether this call was the first.
    pub fn close(&mut self, close_callback_failed: bool) -> (first: bool)
        ensures
            first == !old(self).closed,
            final(self).closed,
            *final(self) == (Connection {
                closed: true,
                is_healthy: if first && !close_callback_failed {
                    false
                } else {
                    old(self).is_healthy
                },
                ..*old(self)
            }),
    {
        if self.closed {
            return false;
        }
        self.closed = true;
        if !close_callback_failed {
            self.is_healthy = false;
        }
        true
    }

    /// The age of the connection at `now`.
    pub fn age(&self, now: Clock) -> (a: u64)
        ensures
            a == spec_age(*self, now),
    {
        if now.monotonic >= self.created_at {
            now.monotonic - self.created_at
        } else {
            0
        }
    }

    /// How long the connection has been idle; 0 while borrowed or when the
    /// clock went back.
    pub fn idle_time(&self, now: Clock) -> (t: u64)
        ensures
            t == (if self.in_use {
                0
            } else {
                match spec_elapsed(self.last_used_at, now.unix) {
                    Some(d) => d,
                    None => 0,
                }
            }),
    {
        if self.in_use {
            return 0;
        }
        match elapsed(self.last_used_at, now.unix) {
            Some(d) => d,
            None => 0,
        }
    }

    /// Counts one more reuse (wrapping at the bounds of `i64`).
    pub fn increment_reuse_count(&mut self)
        ensures
            *final(self) == (Connection {
                reuse_count: if old(self).reuse_count == i64::MAX {
                    i64::MIN
                } else {
                    (old(self).reuse_count + 1) as i64
                },
                ..*old(self)
            }),
    {
        self.reuse_count = self.reuse_count.wrapping_add(1);
    }

    /// How many times the connection was reused.
    pub fn reuse_count(&self) -> (n: i64)
        ensures
            n == self.reuse_count,
    {
        self.reuse_count
    }

    /// Whether the connection is borrowed.
    pub fn is_in_use(&self) -> (b: bool)
        ensures
            b == self.in_use,
    {
        self.in_use
    }

    /// Whether the connection is healthy.
    pub fn health_status(&self) -> (b: bool)
        ensures
            b == self.is_healthy,
    {
        self.is_healthy
    }

    /// Whether the connection was closed.
    pub fn is_closed(&self) -> (b: bool)
        ensures
            b == self.closed,
    {
        self.closed
    }

    /// Whether the connection may be handed out at `now`.
    pub fn is_valid_for_borrow(&self, max_lifetime: u128, idle_timeout: u128, now: Clock) -> (b:
        bool)
        ensures
            b == spec_valid_for_borrow(*self, max_lifetime, idle_timeout, now),
    {
        !self.closed && self.is_healthy && !self.is_expired(max_lifetime, now)
            && !self.is_idle_expired(idle_timeout, now)
    }
}

} // verus!
