//! Pool configuration: defaults, validation and the corrections applied
//! before a pool starts. All durations are in nanoseconds; the callbacks
//! (dialer, listener, acceptor, health checker, hooks) live with the I/O
//! layer, and the configuration records which of them are present.

use vstd::prelude::*;
use crate::errors::{ConfigIssue, NetConnPoolError};
use crate::mode::PoolMode;

verus! {

/// The number of packets drained from a UDP socket when the setting is zero.
pub const DEFAULT_MAX_BUFFER_CLEAR_PACKETS: usize = 100;

/// Pool configuration. Durations are in nanoseconds, held exactly.
#[derive(Debug, Clone, Copy, PartialEq, Eq, Structural)]
pub struct Config {
    /// Client (dial) or server (accept) mode.
    pub mode: PoolMode,
    /// Most connections the pool holds at once; 0 means no limit.
    pub max_connections: usize,
    /// Connections created ahead of demand (client mode).
    pub min_connections: usize,
    /// Most idle connections kept per (protocol, IP version) bucket.
    pub max_idle_connections: usize,
    /// Time allowed to create a connection.
    pub connection_timeout: u128,
    /// Idle connections older than this are closed; 0 disables.
    pub idle_timeout: u128,
    /// Connections older than this are closed; 0 disables.
    pub max_lifetime: u128,
    /// Time a `get` waits for a connection.
    pub get_connection_timeout: u128,
    /// Interval between health checks.
    pub health_check_interval: u128,
    /// Time allowed for one health check.
    pub health_check_timeout: u128,
    /// A borrowed connection held longer than this counts as leaked; 0 disables.
    pub connection_leak_timeout: u128,
    /// A dialer is configured.
    pub has_dialer: bool,
    /// A listener is configured.
    pub has_listener: bool,
    /// An acceptor is configured.
    pub has_acceptor: bool,
    /// A health checker is configured.
    pub has_health_checker: bool,
    /// A close callback is configured.
    pub has_close_conn: bool,
    /// An on-created hook is configured.
    pub has_on_created: bool,
    /// An on-borrow hook is configured.
    pub has_on_borrow: bool,
    /// An on-return hook is configured.
    pub has_on_return: bool,
    /// Statistics are collected.
    pub enable_stats: bool,
    /// Idle connections are health-checked.
    pub enable_health_check: bool,
    /// The read buffer of a reused UDP connection is drained.
    pub clear_udp_buffer_on_return: bool,
    /// Time allowed for draining a UDP buffer; 0 means 100 ms.
    pub udp_buffer_clear_timeout: u128,
    /// Most packets drained from a UDP buffer.
    pub max_buffer_clear_packets: usize,
}

/// The default client configuration.
pub open spec fn spec_default_config() -> Config {
    Config {
        mode: PoolMode::Client,
        max_connections: 10,
        min_connections: 2,
        max_idle_connections: 10,
        connection_timeout: 10_000_000_000,
        idle_timeout: 300_000_000_000,
        max_lifetime: 1_800_000_000_000,
        get_connection_timeout: 5_000_000_000,
        health_check_interval: 30_000_000_000,
        health_check_timeout: 3_000_000_000,
        connection_leak_timeout: 300_000_000_000,
        has_dialer: false,
        has_listener: false,
        has_acceptor: false,
        has_health_checker: false,
        has_close_conn: false,
        has_on_created: false,
        has_on_borrow: false,
        has_on_return: false,
        enable_stats: true,
        enable_health_check: true,
        clear_udp_buffer_on_return: true,
        udp_buffer_clear_timeout: 100_000_000,
        max_buffer_clear_packets: 100,
    }
}

/// The default server configuration: the client defaults in server mode,
/// with room for 100 connections, 50 idle, and no pre-warming.
pub open spec fn spec_default_server_config() -> Config {
    Config {
        mode: PoolMode::Server,
        max_connections: 100,
        min_connections: 0,
        max_idle_connections: 50,
        ..spec_default_config()
    }
}

/// The first rule a configuration breaks, in the order they are checked.
pub open spec fn config_issue(c: Config) -> Option<ConfigIssue> {
    if c.mode == PoolMode::Client && !c.has_dialer {
        Some(ConfigIssue::MissingDialer)
    } else if c.mode == PoolMode::Server && !c.has_listener {
        Some(ConfigIssue::MissingListener)
    } else if c.min_connections > 0 && c.max_connections > 0 && c.min_connections
        > c.max_connections {
        Some(ConfigIssue::MinExceedsMax { min: c.min_connections, max: c.max_connections })
    } else if c.max_idle_connections == 0 {
        Some(ConfigIssue::ZeroMaxIdle)
    } else if c.connection_timeout == 0 {
        Some(ConfigIssue::ZeroConnectionTimeout)
    } else if c.max_connections > 0 && c.max_idle_connections > c.max_connections {
        Some(
            ConfigIssue::MaxIdleExceedsMax {
                max_idle: c.max_idle_connections,
                max: c.max_connections,
            },
        )
    } else if c.idle_timeout > c.max_lifetime {
        Some(
            ConfigIssue::IdleTimeoutExceedsLifetime {
                idle_timeout: c.idle_timeout,
                max_lifetime: c.max_lifetime,
            },
        )
    } else if c.health_check_timeout > c.health_check_interval {
        Some(
            ConfigIssue::HealthCheckTimeoutExceedsInterval {
                timeout: c.health_check_timeout,
                interval: c.health_check_interval,
            },
        )
    } else {
        None
    }
}

/// A configuration that passes validation.
pub open spec fn config_valid(c: Config) -> bool {
    config_issue(c) is None
}

/// The configuration after the defaults are applied.
pub open spec fn spec_apply_defaults(c: Config) -> Config {
    Config {
        has_acceptor: if c.mode == PoolMode::Server {
            true
        } else {
            c.has_acceptor
        },
        max_idle_connections: if c.max_idle_connections > 0 && c.max_connections > 0
            && c.max_idle_connections > c.max_connections {
            c.max_connections
        } else {
            c.max_idle_connections
        },
        health_check_timeout: if c.health_check_interval != 0 && c.health_check_timeout
            > c.health_check_interval {
            c.health_check_interval / 2
        } else {
            c.health_check_timeout
        },
        max_buffer_clear_packets: if c.max_buffer_clear_packets == 0 {
            DEFAULT_MAX_BUFFER_CLEAR_PACKETS
        } else {
            c.max_buffer_clear_packets
        },
        ..c
    }
}

/// The default client configuration.
pub fn default_config() -> (c: Config)
    ensures
        c == spec_default_config(),
{
    Config::default_config()
}

/// The default server configuration.
pub fn default_server_config() -> (c: Config)
    ensures
        c == spec_default_server_config(),
{
    Config::default_server_config()
}

impl Config {
    /// The default client configuration: at most 10 connections, 2
    /// pre-warmed, 10 idle per bucket, 10 s to connect, 5 min idle timeout,
    /// 30 min lifetime, 5 s to get, health checks every 30 s taking at most
    /// 3 s, 5 min leak timeout, statistics and health checks on, UDP buffers
    /// drained on reuse (100 ms, 100 packets).
    pub fn default_config() -> (c: Config)
        ensures
            c == spec_default_config(),
    {
        Config {
            mode: PoolMode::Client,
            max_connections: 10,
            min_connections: 2,
            max_idle_connections: 10,
            connection_timeout: 10_000_000_000,
            idle_timeout: 300_000_000_000,
            max_lifetime: 1_800_000_000_000,
            get_connection_timeout: 5_000_000_000,
            health_check_interval: 30_000_000_000,
            health_check_timeout: 3_000_000_000,
            connection_leak_timeout: 300_000_000_000,
            has_dialer: false,
            has_listener: false,
            has_acceptor: false,
            has_health_checker: false,
            has_close_conn: false,
            has_on_created: false,
            has_on_borrow: false,
            has_on_return: false,
            enable_stats: true,
            enable_health_check: true,
            clear_udp_buffer_on_return: true,
            udp_buffer_clear_timeout: 100_000_000,
            max_buffer_clear_packets: 100,
        }
    }

    /// The default server configuration: server mode, at most 100
    /// connections, none pre-warmed, 50 idle per bucket; the rest as in
    /// client mode.
    pub fn default_server_config() -> (c: Config)
        ensures
            c == spec_default_server_config(),
    {
        Config {
            mode: PoolMode::Server,
            max_connections: 100,
            min_connections: 0,
            max_idle_connections: 50,
            ..Config::default_config()
        }
    }

    /// Checks the configuration; the error names the first rule broken.
    pub fn validate(&self) -> (r: Result<(), NetConnPoolError>)
        ensures
            r is Ok <==> config_issue(*self) is None,
            r matches Err(e) ==> e == (NetConnPoolError::InvalidConfig {
                reason: config_issue(*self)->0,
            }),
    {
        let issue = match self.mode {
            PoolMode::Client => {
                if !self.has_dialer {
                    Some(ConfigIssue::MissingDialer)
                } else {
                    None
                }
            },
            PoolMode::Server => {
                if !self.has_listener {
                    Some(ConfigIssue::MissingListener)
                } else {
                    None
                }
            },
        };
        if let Some(reason) = issue {
            return Err(NetConnPoolError::InvalidConfig { reason });
        }
        if self.min_connections > 0 && self.max_connections > 0 && self.min_connections
            > self.max_connections {
            return Err(
                NetConnPoolError::InvalidConfig {
                    reason: ConfigIssue::MinExceedsMax {
                        min: self.min_connections,
                        max: self.max_connections,
                    },
                },
            );
        }
        if self.max_idle_connections == 0 {
            return Err(NetConnPoolError::InvalidConfig { reason: ConfigIssue::ZeroMaxIdle });
        }
        if self.connection_timeout == 0 {
            return Err(
                NetConnPoolError::InvalidConfig { reason: ConfigIssue::ZeroConnectionTimeout },
            );
        }
        if self.max_idle_connections > 0 && self.max_connections > 0 && self.max_idle_connections
            > self.max_connections {
            return Err(
                NetConnPoolError::InvalidConfig {
                    reason: ConfigIssue::MaxIdleExceedsMax {
                        max_idle: self.max_idle_connections,
                        max: self.max_connections,
                    },
                },
            );
        }
        if self.idle_timeout > self.max_lifetime {
            return Err(
                NetConnPoolError::InvalidConfig {
                    reason: ConfigIssue::IdleTimeoutExceedsLifetime {
                        idle_timeout: self.idle_timeout,
                        max_lifetime: self.max_lifetime,
                    },
                },
            );
        }
        if self.health_check_timeout > self.health_check_interval {
            return Err(
                NetConnPoolError::InvalidConfig {
                    reason: ConfigIssue::HealthCheckTimeoutExceedsInterval {
                        timeout: self.health_check_timeout,
                        interval: self.health_check_interval,
                    },
                },
            );
        }
        Ok(())
    }

    /// Applies defaults and corrects settings that cannot work together:
    /// server mode gets the default acceptor if it has none, the idle limit
    /// is cut to the connection limit, a health-check timeout longer than a
    /// nonzero interval becomes half the interval, and a zero packet limit
    /// for draining UDP buffers becomes 100.
    pub fn apply_defaults(&mut self)
        ensures
            *final(self) == spec_apply_defaults(*old(self)),
    {
        if self.mode == PoolMode::Server && !self.has_acceptor {
            self.has_acceptor = true;
        }
        if self.max_idle_connections > 0 && self.max_connections > 0 && self.max_idle_connections
            > self.max_connections {
            self.max_idle_connections = self.max_connections;
        }
        if self.health_check_interval != 0 && self.health_check_timeout
            > self.health_check_interval {
            self.health_check_timeout = self.health_check_interval / 2;
        }
        if self.max_buffer_clear_packets == 0 {
            self.max_buffer_clear_packets = DEFAULT_MAX_BUFFER_CLEAR_PACKETS;
        }
    }
}

impl Default for Config {
    fn default() -> (c: Self)
        ensures
            c == spec_default_config(),
    {
        Config::default_config()
    }
}

/// Applying the defaults twice changes nothing more than applying them once.
pub proof fn lemma_apply_defaults_idempotent(c: Config)
    ensures
        spec_apply_defaults(spec_apply_defaults(c)) == spec_apply_defaults(c),
{
}

/// After the defaults are applied, the idle limit never exceeds a nonzero
/// connection limit, and the health-check timeout exceeds the interval only
/// when the interval is zero.
pub proof fn lemma_apply_defaults_repairs(c: Config)
    ensures
        ({
            let d = spec_apply_defaults(c);
            &&& d.max_connections > 0 ==> d.max_idle_connections <= d.max_connections
            &&& d.health_check_timeout > d.health_check_interval ==> d.health_check_interval == 0
            &&& d.max_buffer_clear_packets > 0
            &&& d.mode == PoolMode::Server ==> d.has_acceptor
            &&& config_issue(d) != Some(
                ConfigIssue::MaxIdleExceedsMax {
                    max_idle: d.max_idle_connections,
                    max: d.max_connections,
                },
            )
        }),
{
}

/// The default client configuration is refused only for want of a dialer,
/// and the default server configuration only for want of a listener.
pub proof fn lemma_defaults_need_only_endpoint()
    ensures
        config_issue(spec_default_config()) == Some(ConfigIssue::MissingDialer),
        config_valid(Config { has_dialer: true, ..spec_default_config() }),
        config_issue(spec_default_server_config()) == Some(ConfigIssue::MissingListener),
        config_valid(Config { has_listener: true, ..spec_default_server_config() }),
{
}

} // verus!
