use netconnpool::config::{default_config, default_server_config, Config};
use netconnpool::errors::{ConfigIssue, NetConnPoolError};
use netconnpool::mode::PoolMode;

fn invalid(reason: ConfigIssue) -> Result<(), NetConnPoolError> {
    Err(NetConnPoolError::InvalidConfig { reason })
}

#[test]
fn pool_test_test_config_validation() {
    let mut config = default_config();
    assert!(config.validate().is_err());
    config.has_dialer = true;
    assert!(config.validate().is_ok());
}

#[test]
fn config_defaults() {
    let c = default_config();
    assert_eq!(c.mode, PoolMode::Client);
    assert_eq!(c.max_connections, 10);
    assert_eq!(c.min_connections, 2);
    assert_eq!(c.max_idle_connections, 10);
    assert_eq!(c.connection_timeout, 10_000_000_000);
    assert_eq!(c.idle_timeout, 300_000_000_000);
    assert_eq!(c.max_lifetime, 1_800_000_000_000);
    assert_eq!(c.get_connection_timeout, 5_000_000_000);
    assert_eq!(c.health_check_interval, 30_000_000_000);
    assert_eq!(c.health_check_timeout, 3_000_000_000);
    assert_eq!(c.connection_leak_timeout, 300_000_000_000);
    assert_eq!(c.udp_buffer_clear_timeout, 100_000_000);
    assert_eq!(c.max_buffer_clear_packets, 100);
    assert!(c.enable_stats && c.enable_health_check && c.clear_udp_buffer_on_return);
    assert_eq!(Config::default(), c);
    let s = default_server_config();
    assert_eq!(s.mode, PoolMode::Server);
    assert_eq!(s.max_connections, 100);
    assert_eq!(s.min_connections, 0);
    assert_eq!(s.max_idle_connections, 50);
    assert_eq!(s.idle_timeout, c.idle_timeout);
    assert_eq!(Config::default_server_config(), s);
}

#[test]
fn config_validation_errors_in_order() {
    let base = Config { has_dialer: true, ..default_config() };
    assert_eq!(Config { has_dialer: false, ..base }.validate(), invalid(ConfigIssue::MissingDialer));
    let server = default_server_config();
    assert_eq!(server.validate(), invalid(ConfigIssue::MissingListener));
    assert_eq!(Config { has_listener: true, ..server }.validate(), Ok(()));
    assert_eq!(
        Config { min_connections: 11, ..base }.validate(),
        invalid(ConfigIssue::MinExceedsMax { min: 11, max: 10 })
    );
    assert_eq!(Config { min_connections: 11, max_connections: 0, ..base }.validate(), Ok(()));
    assert_eq!(Config { max_idle_connections: 0, ..base }.validate(), invalid(ConfigIssue::ZeroMaxIdle));
    assert_eq!(
        Config { connection_timeout: 0, ..base }.validate(),
        invalid(ConfigIssue::ZeroConnectionTimeout)
    );
    assert_eq!(
        Config { max_idle_connections: 11, ..base }.validate(),
        invalid(ConfigIssue::MaxIdleExceedsMax { max_idle: 11, max: 10 })
    );
    assert_eq!(
        Config { idle_timeout: 5, max_lifetime: 4, ..base }.validate(),
        invalid(ConfigIssue::IdleTimeoutExceedsLifetime { idle_timeout: 5, max_lifetime: 4 })
    );
    assert_eq!(
        Config { health_check_timeout: 7, health_check_interval: 6, ..base }.validate(),
        invalid(ConfigIssue::HealthCheckTimeoutExceedsInterval { timeout: 7, interval: 6 })
    );
}

#[test]
fn config_apply_defaults_repairs() {
    let mut c = Config {
        max_idle_connections: 40,
        max_connections: 20,
        health_check_timeout: 10,
        health_check_interval: 7,
        max_buffer_clear_packets: 0,
        ..default_server_config()
    };
    c.apply_defaults();
    assert!(c.has_acceptor);
    assert_eq!(c.max_idle_connections, 20);
    assert_eq!(c.health_check_timeout, 3);
    assert_eq!(c.max_buffer_clear_packets, 100);
    let once = c;
    c.apply_defaults();
    assert_eq!(c, once);

    let mut zero_interval = Config { health_check_timeout: 10, health_check_interval: 0, ..default_config() };
    zero_interval.apply_defaults();
    assert_eq!(zero_interval.health_check_timeout, 10);
    assert!(!zero_interval.has_acceptor);
}

#[test]
fn durations_beyond_u64_nanoseconds_are_held_exactly() {
    let base = Config { has_dialer: true, ..default_config() };
    let long = u64::MAX as u128;
    // one nanosecond more than the lifetime is still too long for the idle timeout
    let c = Config { max_lifetime: long, idle_timeout: long + 1, ..base };
    assert_eq!(
        c.validate(),
        Err(NetConnPoolError::InvalidConfig {
            reason: ConfigIssue::IdleTimeoutExceedsLifetime { idle_timeout: long + 1, max_lifetime: long },
        })
    );
    let ok = Config { max_lifetime: long + 1, idle_timeout: long + 1, ..base };
    assert_eq!(ok.validate(), Ok(()));
}
