//! Errors of the connection pool.

use vstd::prelude::*;
use vstd::std_specs::cmp::PartialEqSpecImpl;
use crate::ipversion::IPVersion;
use crate::protocol::Protocol;

verus! {

/// Why a configuration was refused.
#[derive(Debug, Clone, Copy, PartialEq, Eq, Structural)]
pub enum ConfigIssue {
    /// Client mode needs a dialer.
    MissingDialer,
    /// Server mode needs a listener.
    MissingListener,
    /// Server mode needs an acceptor.
    MissingAcceptor,
    /// `min_connections` is larger than `max_connections`.
    MinExceedsMax { min: usize, max: usize },
    /// `max_idle_connections` is zero.
    ZeroMaxIdle,
    /// `connection_timeout` is zero.
    ZeroConnectionTimeout,
    /// `max_idle_connections` is larger than `max_connections`.
    MaxIdleExceedsMax { max_idle: usize, max: usize },
    /// `idle_timeout` is longer than `max_lifetime` (nanoseconds).
    IdleTimeoutExceedsLifetime { idle_timeout: u128, max_lifetime: u128 },
    /// `health_check_timeout` is longer than `health_check_interval` (nanoseconds).
    HealthCheckTimeoutExceedsInterval { timeout: u128, interval: u128 },
}

/// The kind of an I/O failure.
#[derive(Debug, Clone, Copy, PartialEq, Eq, Structural)]
pub enum IoErrorKind {
    NotFound,
    PermissionDenied,
    ConnectionRefused,
    ConnectionReset,
    ConnectionAborted,
    NotConnected,
    AddrInUse,
    AddrNotAvailable,
    BrokenPipe,
    AlreadyExists,
    WouldBlock,
    InvalidInput,
    InvalidData,
    TimedOut,
    WriteZero,
    Interrupted,
    Unsupported,
    UnexpectedEof,
    OutOfMemory,
    Other,
}

/// Errors of the connection pool. Durations are in nanoseconds.
#[allow(inconsistent_fields)]
#[derive(Debug, Clone)]
pub enum NetConnPoolError {
    /// The pool is closed.
    PoolClosed,
    /// The connection is closed.
    ConnectionClosed { connection_id: u64 },
    /// No connection could be had within the timeout.
    GetConnectionTimeout { timeout: u128, waited: u128 },
    /// The pool holds as many connections as it may.
    MaxConnectionsReached { current: usize, max: usize },
    /// The connection is not usable.
    InvalidConnection { connection_id: u64, reason: String },
    /// The connection failed its health check.
    ConnectionUnhealthy { connection_id: u64 },
    /// The configuration was refused.
    InvalidConfig { reason: ConfigIssue },
    /// The connection was not returned within the leak timeout.
    ConnectionLeaked { connection_id: u64, timeout: u128 },
    /// The pool is full and the caller would not wait.
    PoolExhausted { current: usize, max: usize },
    /// The IP version is not supported.
    UnsupportedIPVersion { version: String },
    /// A new connection did not have the IP version asked for.
    NoConnectionForIPVersion { required: IPVersion },
    /// The protocol is not supported.
    UnsupportedProtocol { protocol: String },
    /// A new connection did not have the protocol asked for.
    NoConnectionForProtocol { required: Protocol },
    /// An I/O operation failed.
    IoError { kind: IoErrorKind, message: String },
}

/// When two errors compare equal: the same variant with the same identifying
/// fields; timeouts always match each other, and I/O errors match by kind.
pub open spec fn errors_match(a: NetConnPoolError, b: NetConnPoolError) -> bool {
    match (a, b) {
        (NetConnPoolError::PoolClosed, NetConnPoolError::PoolClosed) => true,
        (
            NetConnPoolError::ConnectionClosed { connection_id: x },
            NetConnPoolError::ConnectionClosed { connection_id: y },
        ) => x == y,
        (
            NetConnPoolError::GetConnectionTimeout { .. },
            NetConnPoolError::GetConnectionTimeout { .. },
        ) => true,
        (
            NetConnPoolError::MaxConnectionsReached { current: c1, max: m1 },
            NetConnPoolError::MaxConnectionsReached { current: c2, max: m2 },
        ) => c1 == c2 && m1 == m2,
        (
            NetConnPoolError::InvalidConnection { connection_id: x, .. },
            NetConnPoolError::InvalidConnection { connection_id: y, .. },
        ) => x == y,
        (
            NetConnPoolError::ConnectionUnhealthy { connection_id: x },
            NetConnPoolError::ConnectionUnhealthy { connection_id: y },
        ) => x == y,
        (
            NetConnPoolError::InvalidConfig { reason: r1 },
            NetConnPoolError::InvalidConfig { reason: r2 },
        ) => r1 == r2,
        (
            NetConnPoolError::ConnectionLeaked { connection_id: x, .. },
            NetConnPoolError::ConnectionLeaked { connection_id: y, .. },
        ) => x == y,
        (
            NetConnPoolError::PoolExhausted { current: c1, max: m1 },
            NetConnPoolError::PoolExhausted { current: c2, max: m2 },
        ) => c1 == c2 && m1 == m2,
        (
            NetConnPoolError::UnsupportedIPVersion { version: v1 },
            NetConnPoolError::UnsupportedIPVersion { version: v2 },
        ) => v1@ == v2@,
        (
            NetConnPoolError::NoConnectionForIPVersion { required: r1 },
            NetConnPoolError::NoConnectionForIPVersion { required: r2 },
        ) => r1 == r2,
        (
            NetConnPoolError::UnsupportedProtocol { protocol: p1 },
            NetConnPoolError::UnsupportedProtocol { protocol: p2 },
        ) => p1@ == p2@,
        (
            NetConnPoolError::NoConnectionForProtocol { required: r1 },
            NetConnPoolError::NoConnectionForProtocol { required: r2 },
        ) => r1 == r2,
        (NetConnPoolError::IoError { kind: k1, .. }, NetConnPoolError::IoError { kind: k2, .. }) => k1
            == k2,
        _ => false,
    }
}

impl PartialEq for NetConnPoolError {
    fn eq(&self, other: &Self) -> (res: bool) {
        match (self, other) {
            (NetConnPoolError::PoolClosed, NetConnPoolError::PoolClosed) => true,
            (
                NetConnPoolError::ConnectionClosed { connection_id: x },
                NetConnPoolError::ConnectionClosed { connection_id: y },
            ) => *x == *y,
            (
                NetConnPoolError::GetConnectionTimeout { .. },
                NetConnPoolError::GetConnectionTimeout { .. },
            ) => true,
            (
                NetConnPoolError::MaxConnectionsReached { current: c1, max: m1 },
                NetConnPoolError::MaxConnectionsReached { current: c2, max: m2 },
            ) => *c1 == *c2 && *m1 == *m2,
            (
                NetConnPoolError::InvalidConnection { connection_id: x, .. },
                NetConnPoolError::InvalidConnection { connection_id: y, .. },
            ) => *x == *y,
            (
                NetConnPoolError::ConnectionUnhealthy { connection_id: x },
                NetConnPoolError::ConnectionUnhealthy { connection_id: y },
            ) => *x == *y,
            (
                NetConnPoolError::InvalidConfig { reason: r1 },
                NetConnPoolError::InvalidConfig { reason: r2 },
            ) => *r1 == *r2,
            (
                NetConnPoolError::ConnectionLeaked { connection_id: x, .. },
                NetConnPoolError::ConnectionLeaked { connection_id: y, .. },
            ) => *x == *y,
            (
                NetConnPoolError::PoolExhausted { current: c1, max: m1 },
                NetConnPoolError::PoolExhausted { current: c2, max: m2 },
            ) => *c1 == *c2 && *m1 == *m2,
            (
                NetConnPoolError::UnsupportedIPVersion { version: v1 },
                NetConnPoolError::UnsupportedIPVersion { version: v2 },
            ) => *v1 == *v2,
            (
                NetConnPoolError::NoConnectionForIPVersion { required: r1 },
                NetConnPoolError::NoConnectionForIPVersion { required: r2 },
            ) => *r1 == *r2,
            (
                NetConnPoolError::UnsupportedProtocol { protocol: p1 },
                NetConnPoolError::UnsupportedProtocol { protocol: p2 },
            ) => *p1 == *p2,
            (
                NetConnPoolError::NoConnectionForProtocol { required: r1 },
                NetConnPoolError::NoConnectionForProtocol { required: r2 },
            ) => *r1 == *r2,
            (
                NetConnPoolError::IoError { kind: k1, .. },
                NetConnPoolError::IoError { kind: k2, .. },
            ) => *k1 == *k2,
            _ => false,
        }
    }
}

impl PartialEqSpecImpl for NetConnPoolError {
    open spec fn obeys_eq_spec() -> bool {
        true
    }

    open spec fn eq_spec(&self, other: &NetConnPoolError) -> bool {
        errors_match(*self, *other)
    }
}

} // verus!
