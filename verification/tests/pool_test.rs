use netconnpool::config::{default_config, default_server_config, Config};
use netconnpool::connection::{Clock, ConnectionIdGenerator};
use netconnpool::errors::{ConfigIssue, NetConnPoolError};
use netconnpool::ipversion::IPVersion;
use netconnpool::pool::{get_bucket_index, get_target_buckets, Pool};
use netconnpool::pool_model::{CreateAction, GetStep, ReturnOutcome};
use netconnpool::protocol::Protocol;

fn at(t: u64) -> Clock {
    Clock { monotonic: t, unix: t }
}

fn client(max: usize) -> Config {
    Config { has_dialer: true, max_connections: max, min_connections: 0, ..default_config() }
}

fn all() -> Vec<usize> {
    get_target_buckets(None, None)
}

#[test]
fn pool_test_test_pool_creation() {
    let pool = Pool::new(client(5));
    assert!(pool.is_ok());
}

#[test]
fn pool_test_test_server_config() {
    let config = Config { has_listener: true, max_connections: 10, min_connections: 0, ..default_server_config() };
    let pool = Pool::new(config);
    assert!(pool.is_ok());
    assert!(pool.unwrap().config().has_acceptor);
}

#[test]
fn pool_test_test_pool_close() {
    let mut pool = Pool::new(client(5)).unwrap();
    assert!(pool.close_begin());
    pool.close_finish();
    assert!(pool.is_closed());
}

#[test]
fn pool_test_test_stats() {
    let pool = Pool::new(Config { enable_stats: true, ..client(5) }).unwrap();
    let stats = pool.stats();
    assert_eq!(stats.total_connections_created, 0);
    assert_eq!(stats.current_connections, 0);
}

#[test]
fn pool_new_refuses_invalid_config() {
    match Pool::new(default_config()) {
        Err(e) => assert_eq!(e, NetConnPoolError::InvalidConfig { reason: ConfigIssue::MissingDialer }),
        Ok(_) => panic!("a client pool needs a dialer"),
    }
    // the idle limit is cut to the connection limit before validation
    let p = Pool::new(Config { max_idle_connections: 50, ..client(5) }).unwrap();
    assert_eq!(p.config().max_idle_connections, 5);
}

#[test]
fn target_buckets_follow_the_request() {
    assert_eq!(get_target_buckets(None, None), vec![0, 1, 2, 3]);
    assert_eq!(get_target_buckets(Some(Protocol::UDP), None), vec![2, 3]);
    assert_eq!(get_target_buckets(None, Some(IPVersion::IPv6)), vec![1, 3]);
    assert_eq!(get_target_buckets(Some(Protocol::TCP), Some(IPVersion::IPv6)), vec![1]);
    assert_eq!(get_target_buckets(Some(Protocol::Unknown), Some(IPVersion::Unknown)), vec![0, 1, 2, 3]);
    assert_eq!(get_bucket_index(Protocol::UDP, IPVersion::IPv4), Some(2));
    assert_eq!(get_bucket_index(Protocol::Unknown, IPVersion::IPv4), None);
    assert_eq!(get_bucket_index(Protocol::TCP, IPVersion::Unknown), None);
}

#[test]
fn get_creates_then_reuses() {
    let mut g = ConnectionIdGenerator::new();
    let mut pool = Pool::new(client(5)).unwrap();
    assert!(pool.get_begin().is_ok());
    assert!(matches!(pool.try_acquire_idle(&all(), 1000, 0, at(1)), GetStep::Create));
    assert_eq!(pool.create_begin(None), Ok(CreateAction::Dial { protocol: None }));
    let id = pool.lend_new_connection(&mut g, Protocol::TCP, IPVersion::IPv4, None, None, at(1)).unwrap();
    pool.record_get_time(5);
    assert_eq!(id, 2);
    assert_eq!(pool.active_count(), 1);
    assert_eq!(pool.connection_count(), 1);
    let out = pool.return_connection(id, at(2));
    assert_eq!(out, ReturnOutcome { notify: true, call_on_return: true, pooled: true });
    assert_eq!(pool.active_count(), 0);
    assert_eq!(pool.idle_count(), 1);
    match pool.try_acquire_idle(&all(), 1000, 7, at(3)) {
        GetStep::Borrowed { id: got, reused, clear_udp_buffer } => {
            assert_eq!(got, id);
            assert!(reused);
            assert!(!clear_udp_buffer);
        }
        other => panic!("expected a reuse, got {:?}", other),
    }
    // the time is recorded when the connection is handed out, not during the search
    assert_eq!(pool.stats().total_get_time, 5);
    pool.record_get_time(7);
    assert_eq!(pool.connection(id).unwrap().reuse_count(), 1);
    let s = pool.stats();
    assert_eq!(s.total_get_requests, 1);
    assert_eq!(s.successful_gets, 2);
    assert_eq!(s.total_connections_reused, 1);
    assert_eq!(s.total_connections_created, 1);
    assert_eq!(s.current_active_connections, 1);
    assert_eq!(s.total_get_time, 12);
    assert_eq!(s.average_get_time, 6);
}

#[test]
fn udp_reuse_asks_for_buffer_clearing() {
    let mut g = ConnectionIdGenerator::new();
    let mut pool = Pool::new(client(5)).unwrap();
    let id = pool.lend_new_connection(&mut g, Protocol::UDP, IPVersion::IPv6, Some(Protocol::UDP), None, at(1)).unwrap();
    pool.return_connection(id, at(2));
    match pool.try_acquire_idle(&get_target_buckets(Some(Protocol::UDP), None), 10, 0, at(3)) {
        GetStep::Borrowed { id: got, clear_udp_buffer, .. } => {
            assert_eq!(got, id);
            assert!(clear_udp_buffer);
        }
        other => panic!("expected a reuse, got {:?}", other),
    }
    // a TCP request does not see the UDP bucket
    let id2 = pool.lend_new_connection(&mut g, Protocol::UDP, IPVersion::IPv4, None, None, at(4)).unwrap();
    pool.return_connection(id2, at(5));
    assert!(matches!(
        pool.try_acquire_idle(&get_target_buckets(Some(Protocol::TCP), None), 10, 0, at(6)),
        GetStep::Create
    ));
}

#[test]
fn full_pool_fails_fast() {
    let mut g = ConnectionIdGenerator::new();
    let mut pool = Pool::new(Config { enable_stats: true, ..client(2) }).unwrap();
    pool.lend_new_connection(&mut g, Protocol::TCP, IPVersion::IPv4, None, None, at(1)).unwrap();
    pool.lend_new_connection(&mut g, Protocol::TCP, IPVersion::IPv4, None, None, at(1)).unwrap();
    let err = pool.create_begin(None).unwrap_err();
    assert_eq!(err, NetConnPoolError::MaxConnectionsReached { current: 2, max: 2 });
    // the request fails at once, whatever time it had left
    assert_eq!(pool.create_failed(err), NetConnPoolError::PoolExhausted { current: 2, max: 2 });
    assert_eq!(
        pool.lend_new_connection(&mut g, Protocol::TCP, IPVersion::IPv4, None, None, at(1)),
        Err(NetConnPoolError::MaxConnectionsReached { current: 2, max: 2 })
    );
    assert_eq!(pool.connection_count(), 2);
    let s = pool.stats();
    assert_eq!(s.failed_gets, 1);
    assert_eq!(s.connection_errors, 0);
}

#[test]
fn timed_out_request_fails() {
    let mut pool = Pool::new(client(2)).unwrap();
    match pool.try_acquire_idle(&all(), 10, 11, at(1)) {
        GetStep::Failed(e) => assert_eq!(e, NetConnPoolError::GetConnectionTimeout { timeout: 10, waited: 11 }),
        other => panic!("expected a timeout, got {:?}", other),
    }
    let s = pool.stats();
    assert_eq!(s.failed_gets, 1);
    assert_eq!(s.timeout_gets, 1);
}

#[test]
fn mismatched_new_connection_is_refused() {
    let mut g = ConnectionIdGenerator::new();
    let mut pool = Pool::new(client(5)).unwrap();
    let err = pool.lend_new_connection(&mut g, Protocol::UDP, IPVersion::IPv4, Some(Protocol::TCP), None, at(1)).unwrap_err();
    assert_eq!(err, NetConnPoolError::NoConnectionForProtocol { required: Protocol::TCP });
    let err2 = pool.lend_new_connection(&mut g, Protocol::TCP, IPVersion::IPv4, None, Some(IPVersion::IPv6), at(1)).unwrap_err();
    assert_eq!(err2, NetConnPoolError::NoConnectionForIPVersion { required: IPVersion::IPv6 });
    assert_eq!(pool.connection_count(), 0);
    assert_eq!(pool.create_failed(err), NetConnPoolError::NoConnectionForProtocol { required: Protocol::TCP });
    let s = pool.stats();
    assert_eq!(s.failed_gets, 1);
    assert_eq!(s.connection_errors, 1);
    // identifiers were drawn for the refused connections
    assert_eq!(pool.lend_new_connection(&mut g, Protocol::TCP, IPVersion::IPv4, None, None, at(1)), Ok(4));
}

#[test]
fn idle_limit_is_kept() {
    let mut g = ConnectionIdGenerator::new();
    let mut pool = Pool::new(Config { max_idle_connections: 1, ..client(10) }).unwrap();
    let a = pool.lend_new_connection(&mut g, Protocol::TCP, IPVersion::IPv4, None, None, at(1)).unwrap();
    let b = pool.lend_new_connection(&mut g, Protocol::TCP, IPVersion::IPv4, None, None, at(1)).unwrap();
    assert!(pool.return_connection(a, at(2)).pooled);
    let out = pool.return_connection(b, at(2));
    assert_eq!(out, ReturnOutcome { notify: true, call_on_return: true, pooled: false });
    assert_eq!(pool.idle_count(), 1);
    assert_eq!(pool.connection_count(), 1);
    assert_eq!(pool.take_pending_close(), vec![b]);
    assert!(pool.take_pending_close().is_empty());
    // another bucket has its own room
    let c = pool.lend_new_connection(&mut g, Protocol::UDP, IPVersion::IPv4, None, None, at(1)).unwrap();
    assert!(pool.return_connection(c, at(2)).pooled);
    assert_eq!(pool.idle_count(), 2);
}

#[test]
fn unknown_ip_version_is_never_pooled() {
    let mut g = ConnectionIdGenerator::new();
    let mut pool = Pool::new(client(10)).unwrap();
    let a = pool.lend_new_connection(&mut g, Protocol::TCP, IPVersion::Unknown, None, None, at(1)).unwrap();
    let out = pool.return_connection(a, at(2));
    assert_eq!(out, ReturnOutcome { notify: true, call_on_return: true, pooled: false });
    assert_eq!(pool.connection_count(), 0);
}

#[test]
fn closing_drains_and_refuses() {
    let mut g = ConnectionIdGenerator::new();
    let mut pool = Pool::new(client(10)).unwrap();
    let a = pool.lend_new_connection(&mut g, Protocol::TCP, IPVersion::IPv4, None, None, at(1)).unwrap();
    let b = pool.lend_new_connection(&mut g, Protocol::TCP, IPVersion::IPv6, None, None, at(1)).unwrap();
    pool.return_connection(a, at(2));
    assert!(pool.close_begin());
    assert!(!pool.close_begin());
    assert_eq!(pool.idle_count(), 0);
    assert_eq!(pool.connection_count(), 1);
    assert_eq!(pool.take_pending_close(), vec![a]);
    assert_eq!(pool.get_begin(), Err(NetConnPoolError::PoolClosed));
    match pool.try_acquire_idle(&all(), 10, 0, at(3)) {
        GetStep::Failed(e) => assert_eq!(e, NetConnPoolError::PoolClosed),
        other => panic!("expected refusal, got {:?}", other),
    }
    // a connection returned to a closed pool is removed
    let out = pool.return_connection(b, at(4));
    assert_eq!(out, ReturnOutcome { notify: true, call_on_return: false, pooled: false });
    assert_eq!(pool.active_count(), 0);
    pool.close_finish();
    assert_eq!(pool.connection_count(), 0);
    let s = pool.stats();
    assert_eq!(s.total_connections_closed, 2);
    assert_eq!(s.current_connections, 0);
}

#[test]
fn close_finish_removes_borrowed_connections() {
    let mut g = ConnectionIdGenerator::new();
    let mut pool = Pool::new(client(10)).unwrap();
    pool.lend_new_connection(&mut g, Protocol::TCP, IPVersion::IPv4, None, None, at(1)).unwrap();
    pool.close_finish();
    assert_eq!(pool.connection_count(), 1);
    pool.close_begin();
    pool.close_finish();
    assert_eq!(pool.connection_count(), 0);
    assert_eq!(pool.active_count(), 0);
}

#[test]
fn cleanup_reports_and_evicts_leaks() {
    let mut g = ConnectionIdGenerator::new();
    let config = Config { connection_leak_timeout: 10, ..client(10) };
    let mut pool = Pool::new(config).unwrap();
    let id = pool.lend_new_connection(&mut g, Protocol::TCP, IPVersion::IPv4, None, None, at(100)).unwrap();
    assert!(pool.cleanup_scan(at(105)).is_empty());
    assert!(pool.connection(id).unwrap().health_status());
    pool.cleanup_scan(at(115));
    assert!(!pool.connection(id).unwrap().health_status());
    assert_eq!(pool.stats().leaked_connections, 1);
    pool.cleanup_scan(at(121));
    assert!(pool.connection(id).is_none());
    assert_eq!(pool.active_count(), 0);
    assert_eq!(pool.stats().leaked_connections, 1);
    assert_eq!(pool.take_pending_close(), vec![id]);
    // the evicted connection coming back changes no statistic
    let before = pool.stats();
    let out = pool.return_connection(id, at(130));
    assert_eq!(out, ReturnOutcome { notify: false, call_on_return: false, pooled: false });
    let after = pool.stats();
    assert_eq!(after.total_connections_closed, 1);
    assert_eq!(after.current_connections, 0);
    assert_eq!(after.total_connections_closed, before.total_connections_closed);
    assert_eq!(after.current_connections, before.current_connections);
}

#[test]
fn cleanup_health_checks_idle_connections() {
    let mut g = ConnectionIdGenerator::new();
    let config = Config { has_health_checker: true, health_check_interval: 50, health_check_timeout: 5, ..client(10) };
    let mut pool = Pool::new(config).unwrap();
    let a = pool.lend_new_connection(&mut g, Protocol::TCP, IPVersion::IPv4, None, None, at(0)).unwrap();
    let b = pool.lend_new_connection(&mut g, Protocol::TCP, IPVersion::IPv4, None, None, at(0)).unwrap();
    pool.return_connection(a, at(1));
    pool.return_connection(b, at(1));
    assert!(pool.cleanup_scan(at(20)).is_empty());
    let due = pool.cleanup_scan(at(60));
    assert_eq!(due, vec![a, b]);
    assert_eq!(pool.stats().health_check_attempts, 2);
    pool.cleanup_apply(&vec![(a, false), (b, true)], at(61));
    assert!(pool.connection(a).is_none());
    assert_eq!(pool.connection(b).unwrap().last_health_check_at, 61);
    let s = pool.stats();
    assert_eq!(s.health_check_failures, 1);
    assert_eq!(s.unhealthy_connections, 1);
}

#[test]
fn cleanup_removes_expired_idle_connections() {
    let mut g = ConnectionIdGenerator::new();
    let config = Config { max_lifetime: 100, idle_timeout: 50, ..client(10) };
    let mut pool = Pool::new(config).unwrap();
    let a = pool.lend_new_connection(&mut g, Protocol::TCP, IPVersion::IPv4, None, None, at(0)).unwrap();
    pool.return_connection(a, at(10));
    pool.cleanup_scan(at(40));
    assert!(pool.connection(a).is_some());
    pool.cleanup_scan(at(61));
    assert!(pool.connection(a).is_none());
    // its entry is still queued: popping it drops it as stale, counting
    // nothing as closed again
    assert_eq!(pool.idle_count(), 1);
    assert!(matches!(pool.try_acquire_idle(&all(), 100, 0, at(62)), GetStep::Create));
    assert_eq!(pool.idle_count(), 0);
    let s = pool.stats();
    assert_eq!(s.total_connections_closed, 1);
    assert_eq!(s.current_connections, 0);
    assert_eq!(s.current_idle_connections, 0);
}

#[test]
fn expired_idle_connection_is_not_lent() {
    let mut g = ConnectionIdGenerator::new();
    let config = Config { max_lifetime: 100, idle_timeout: 50, ..client(10) };
    let mut pool = Pool::new(config).unwrap();
    let a = pool.lend_new_connection(&mut g, Protocol::TCP, IPVersion::IPv4, None, None, at(0)).unwrap();
    pool.return_connection(a, at(10));
    assert!(matches!(pool.try_acquire_idle(&all(), 100, 0, at(70)), GetStep::Create));
    assert!(pool.connection(a).is_none());
    assert_eq!(pool.take_pending_close(), vec![a]);
}

#[test]
fn prewarmed_connections_wait_idle() {
    let mut g = ConnectionIdGenerator::new();
    let mut pool = Pool::new(Config { min_connections: 2, ..client(10) }).unwrap();
    assert_eq!(pool.prewarm_target(), 2);
    let a = pool.add_prewarmed_connection(&mut g, Protocol::TCP, IPVersion::IPv4, at(0)).unwrap();
    assert_eq!(pool.idle_count(), 1);
    assert_eq!(pool.active_count(), 0);
    match pool.try_acquire_idle(&all(), 100, 0, at(1)) {
        GetStep::Borrowed { id, reused, .. } => {
            assert_eq!(id, a);
            assert!(reused);
        }
        other => panic!("expected a reuse, got {:?}", other),
    }
    let server = Pool::new(Config { has_listener: true, ..default_server_config() }).unwrap();
    assert_eq!(server.prewarm_target(), 0);
    assert_eq!(server.create_begin(None), Ok(CreateAction::Accept));
}

#[test]
fn pool_timing_settings() {
    let pool = Pool::new(Config { health_check_interval: 0, health_check_timeout: 0, ..client(3) }).unwrap();
    assert_eq!(pool.reaper_interval(), 1_000_000_000);
    assert_eq!(pool.close_wait_budget(), 300_000_000_000);
    let stats_off = Pool::new(Config { enable_stats: false, ..client(3) }).unwrap();
    assert_eq!(stats_off.stats().total_get_requests, 0);
}

#[test]
fn stats_follow_idle_entries_and_borrows() {
    let mut g = ConnectionIdGenerator::new();
    let mut pool = Pool::new(Config { enable_stats: true, max_idle_connections: 2, ..client(5) }).unwrap();
    let mut ids = Vec::new();
    for t in 0..4u64 {
        assert!(pool.get_begin().is_ok());
        let id = pool.lend_new_connection(&mut g, Protocol::TCP, IPVersion::IPv4, None, None, at(t + 1)).unwrap();
        ids.push(id);
    }
    assert_eq!(pool.stats().current_active_connections, 4);
    assert_eq!(pool.active_count(), 4);
    for id in &ids {
        let _ = pool.return_connection(*id, at(10));
    }
    let stats = pool.stats();
    assert_eq!(pool.idle_count(), 2);
    assert_eq!(stats.current_idle_connections, 2);
    assert_eq!(stats.current_tcp_idle_connections, 2);
    assert_eq!(stats.current_ipv4_idle_connections, 2);
    assert_eq!(stats.current_udp_idle_connections, 0);
    assert_eq!(stats.current_active_connections, 0);
    // two of the four went back to the bucket, the other two were closed
    assert_eq!(stats.current_connections, pool.connection_count() as i64);
    assert_eq!(stats.current_connections, 2);
}

#[test]
fn evicting_a_leaked_connection_frees_its_place() {
    let mut g = ConnectionIdGenerator::new();
    let config = Config { connection_leak_timeout: 100, enable_stats: true, ..client(1) };
    let mut pool = Pool::new(config).unwrap();
    let id = pool.lend_new_connection(&mut g, Protocol::TCP, IPVersion::IPv4, None, None, at(1_000)).unwrap();
    assert!(matches!(pool.create_begin(None), Err(NetConnPoolError::MaxConnectionsReached { current: 1, max: 1 })));
    pool.cleanup_scan(at(1_500));
    assert!(pool.connection(id).is_none());
    assert_eq!(pool.connection_count(), 0);
    assert!(pool.stats().leaked_connections >= 1);
    assert_eq!(pool.create_begin(None), Ok(CreateAction::Dial { protocol: None }));
}

/// One request for any connection at time `t`, dialing a TCP/IPv4
/// connection when no idle one can be lent.
fn get_any(pool: &mut Pool, g: &mut ConnectionIdGenerator, t: u64) -> Option<(u64, bool)> {
    if pool.get_begin().is_err() {
        return None;
    }
    match pool.try_acquire_idle(&all(), 5_000_000_000, 0, at(t)) {
        GetStep::Borrowed { id, clear_udp_buffer, .. } => Some((id, clear_udp_buffer)),
        GetStep::Create => match pool.create_begin(None) {
            Ok(_) => pool
                .lend_new_connection(g, Protocol::TCP, IPVersion::IPv4, None, None, at(t))
                .ok()
                .map(|id| (id, false)),
            Err(e) => {
                let _ = pool.create_failed(e);
                None
            }
        },
        _ => None,
    }
}

#[test]
fn test_security_and_stability_suite() {
    let mut g = ConnectionIdGenerator::new();
    // idle counts stay within the idle limit
    let mut pool = Pool::new(Config { max_idle_connections: 50, enable_stats: true, ..client(100) }).unwrap();
    let mut requests = 0i64;
    let mut successes = 0i64;
    let mut held = Vec::new();
    for round in 0..100u64 {
        for _ in 0..10 {
            requests += 1;
            if let Some((id, _)) = get_any(&mut pool, &mut g, round + 1) {
                successes += 1;
                held.push(id);
            }
        }
        for id in held.drain(..) {
            pool.return_connection(id, at(round + 1));
        }
    }
    let stats = pool.stats();
    assert!(stats.current_idle_connections <= 50);
    // every request and every success is counted
    assert_eq!(stats.total_get_requests, requests);
    assert_eq!(stats.successful_gets, successes);

    // identifiers of live connections are unique
    let mut pool = Pool::new(client(1000)).unwrap();
    let mut ids = Vec::new();
    for t in 0..500u64 {
        if let Some((id, _)) = get_any(&mut pool, &mut g, t + 1) {
            assert!(!ids.contains(&id));
            ids.push(id);
        }
    }
    assert_eq!(ids.len(), 500);

    // a badly leaked connection is evicted and frees its place
    let mut pool = Pool::new(Config {
        connection_leak_timeout: 100_000_000,
        health_check_interval: 50_000_000,
        health_check_timeout: 10_000_000,
        enable_stats: true,
        ..client(1)
    })
    .unwrap();
    let (leaked, _) = get_any(&mut pool, &mut g, 1_000).unwrap();
    pool.cleanup_scan(at(1_000 + 500_000_000));
    assert!(pool.stats().leaked_connections >= 1);
    assert!(pool.connection(leaked).is_none());
    assert!(get_any(&mut pool, &mut g, 1_000 + 500_000_001).is_some());

    // a reused UDP connection has its read buffer drained
    let mut pool = Pool::new(client(10)).unwrap();
    assert!(pool.get_begin().is_ok());
    let udp = pool.lend_new_connection(&mut g, Protocol::UDP, IPVersion::IPv4, Some(Protocol::UDP), None, at(1)).unwrap();
    pool.return_connection(udp, at(2));
    assert!(pool.get_begin().is_ok());
    let udp_buckets = get_target_buckets(Some(Protocol::UDP), None);
    match pool.try_acquire_idle(&udp_buckets, 1_000, 0, at(3)) {
        GetStep::Borrowed { id, reused, clear_udp_buffer } => {
            assert_eq!(id, udp);
            assert!(reused && clear_udp_buffer);
        }
        other => panic!("expected the UDP connection, got {:?}", other),
    }

    // closing is immediate and final
    let mut pool = Pool::new(client(10)).unwrap();
    assert!(pool.close_begin());
    pool.close_finish();
    assert!(pool.is_closed());
    assert_eq!(pool.get_begin(), Err(NetConnPoolError::PoolClosed));
}

#[test]
fn pools_sharing_the_generator_hand_out_distinct_rising_ids() {
    let mut g = ConnectionIdGenerator::new();
    let mut first = Pool::new(client(5)).unwrap();
    let mut second = Pool::new(client(5)).unwrap();
    let a = first.lend_new_connection(&mut g, Protocol::TCP, IPVersion::IPv4, None, None, at(1)).unwrap();
    let b = second.lend_new_connection(&mut g, Protocol::TCP, IPVersion::IPv4, None, None, at(1)).unwrap();
    let c = first.lend_new_connection(&mut g, Protocol::TCP, IPVersion::IPv4, None, None, at(1)).unwrap();
    assert!(a != 0 && a < b && b < c);
}

#[test]
fn returned_connection_serves_any_matching_request() {
    let mut g = ConnectionIdGenerator::new();
    let mut pool = Pool::new(client(5)).unwrap();
    let id = pool.lend_new_connection(&mut g, Protocol::UDP, IPVersion::IPv6, None, None, at(1)).unwrap();
    assert!(pool.return_connection(id, at(2)).pooled);
    assert!(pool.get_begin().is_ok());
    match pool.try_acquire_idle(&all(), 1_000, 0, at(3)) {
        GetStep::Borrowed { id: got, reused, .. } => assert!(got == id && reused),
        other => panic!("expected the returned connection, got {:?}", other),
    }
}

#[test]
fn closing_waits_only_while_borrowed_and_before_deadline() {
    let mut g = ConnectionIdGenerator::new();
    let mut pool = Pool::new(client(5)).unwrap();
    assert!(!pool.close_wait_continues(0, 100));
    let id = pool.lend_new_connection(&mut g, Protocol::TCP, IPVersion::IPv4, None, None, at(1)).unwrap();
    assert!(pool.close_wait_continues(50, 100));
    assert!(!pool.close_wait_continues(100, 100));
    pool.return_connection(id, at(2));
    assert!(!pool.close_wait_continues(50, 100));
}
