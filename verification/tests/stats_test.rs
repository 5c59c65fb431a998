use netconnpool::stats::{Stats, StatsCollector};

#[test]
fn test_stats_collector() {
    let mut collector = StatsCollector::new();
    collector.increment_total_connections_created();
    collector.increment_total_connections_created();
    let stats = collector.get_stats();
    assert_eq!(stats.total_connections_created, 2);
    assert_eq!(stats.current_connections, 2);
}

#[test]
fn test_stats_increment() {
    let mut collector = StatsCollector::new();
    collector.increment_successful_gets();
    collector.increment_failed_gets();
    collector.increment_connection_errors();
    let stats = collector.get_stats();
    assert_eq!(stats.successful_gets, 1);
    assert_eq!(stats.failed_gets, 1);
    assert_eq!(stats.connection_errors, 1);
}

#[test]
fn stats_current_is_created_minus_closed() {
    let mut c = StatsCollector::new();
    for _ in 0..5 {
        c.increment_total_connections_created();
    }
    c.increment_total_connections_closed();
    c.increment_total_connections_closed();
    let s = c.get_stats();
    assert_eq!(s.total_connections_created, 5);
    assert_eq!(s.total_connections_closed, 2);
    assert_eq!(s.current_connections, 3);
}

#[test]
fn stats_average_get_time() {
    let mut c = StatsCollector::new();
    assert_eq!(c.get_stats().average_get_time, 0);
    c.increment_successful_gets();
    c.increment_successful_gets();
    c.increment_successful_gets();
    c.record_get_time(100);
    c.record_get_time(200);
    c.record_get_time(1);
    let s = c.get_stats();
    assert_eq!(s.total_get_time, 301);
    assert_eq!(s.average_get_time, 100);
}

#[test]
fn stats_counters_saturate() {
    let mut c = StatsCollector::new();
    c.increment_current_idle_connections(i64::MAX);
    c.increment_current_idle_connections(5);
    assert_eq!(c.get_stats().current_idle_connections, i64::MAX);
    c.increment_current_active_connections(i64::MIN);
    c.increment_current_active_connections(-1);
    assert_eq!(c.get_stats().current_active_connections, i64::MIN);
    c.record_get_time(u64::MAX);
    c.record_get_time(7);
    assert_eq!(c.get_stats().total_get_time, u64::MAX);
}

#[test]
fn stats_every_counter_moves() {
    let mut c = StatsCollector::default();
    c.increment_total_get_requests();
    c.increment_timeout_gets();
    c.increment_health_check_attempts();
    c.increment_health_check_failures();
    c.increment_unhealthy_connections();
    c.increment_leaked_connections();
    c.increment_total_connections_reused();
    c.increment_current_ipv4_connections(2);
    c.increment_current_ipv6_connections(3);
    c.increment_current_ipv4_idle_connections(4);
    c.increment_current_ipv6_idle_connections(5);
    c.increment_current_tcp_connections(6);
    c.increment_current_udp_connections(7);
    c.increment_current_tcp_idle_connections(8);
    c.increment_current_udp_idle_connections(-9);
    let s = c.get_stats();
    assert_eq!(s.total_get_requests, 1);
    assert_eq!(s.timeout_gets, 1);
    assert_eq!(s.health_check_attempts, 1);
    assert_eq!(s.health_check_failures, 1);
    assert_eq!(s.unhealthy_connections, 1);
    assert_eq!(s.leaked_connections, 1);
    assert_eq!(s.total_connections_reused, 1);
    assert_eq!(s.current_ipv4_connections, 2);
    assert_eq!(s.current_ipv6_connections, 3);
    assert_eq!(s.current_ipv4_idle_connections, 4);
    assert_eq!(s.current_ipv6_idle_connections, 5);
    assert_eq!(s.current_tcp_connections, 6);
    assert_eq!(s.current_udp_connections, 7);
    assert_eq!(s.current_tcp_idle_connections, 8);
    assert_eq!(s.current_udp_idle_connections, -9);
    assert_eq!(Stats::default().total_connections_created, 0);
}
