use netconnpool::connection::{Clock, Connection, ConnectionIdGenerator};
use netconnpool::ipversion::IPVersion;
use netconnpool::protocol::Protocol;

fn at(monotonic: u64, unix: u64) -> Clock {
    Clock { monotonic, unix }
}

#[test]
fn connection_new_is_idle_and_healthy() {
    let c = Connection::new(7, Protocol::TCP, IPVersion::IPv4, at(10, 1000));
    assert_eq!(c.id, 7);
    assert_eq!(c.get_protocol(), Protocol::TCP);
    assert_eq!(c.get_ip_version(), IPVersion::IPv4);
    assert!(!c.is_in_use());
    assert!(c.health_status());
    assert!(!c.is_closed());
    assert_eq!(c.reuse_count(), 0);
    assert_eq!(c.age(at(15, 0)), 5);
    assert_eq!(c.age(at(5, 0)), 0);
}

#[test]
fn connection_lifetime_and_idle_expiry() {
    let mut c = Connection::new(1, Protocol::UDP, IPVersion::IPv6, at(0, 1000));
    assert!(!c.is_expired(0, at(1_000_000, 0)));
    assert!(!c.is_expired(100, at(100, 0)));
    assert!(c.is_expired(100, at(101, 0)));
    assert!(!c.is_idle_expired(0, at(0, 5000)));
    assert!(!c.is_idle_expired(50, at(0, 1050)));
    assert!(c.is_idle_expired(50, at(0, 1051)));
    assert!(!c.is_idle_expired(50, at(0, 10)));
    assert_eq!(c.idle_time(at(0, 1300)), 300);
    assert_eq!(c.idle_time(at(0, 900)), 0);
    c.mark_in_use(at(0, 2000));
    assert!(!c.is_idle_expired(50, at(0, 9000)));
    assert_eq!(c.idle_time(at(0, 9000)), 0);
    assert!(c.is_valid_for_borrow(0, 50, at(0, 9000)));
}

#[test]
fn connection_leaks() {
    let mut c = Connection::new(1, Protocol::TCP, IPVersion::IPv4, at(0, 100));
    assert!(!c.is_leaked(10, at(0, 1000)));
    assert_eq!(c.get_leaked_duration(at(0, 1000)), None);
    c.mark_in_use(at(0, 200));
    assert!(!c.is_leaked(0, at(0, 1000)));
    assert!(!c.is_leaked(10, at(0, 210)));
    assert!(c.is_leaked(10, at(0, 211)));
    assert_eq!(c.get_leaked_duration(at(0, 250)), Some(50));
    assert_eq!(c.get_leaked_duration(at(0, 150)), None);
    assert!(c.report_leak_once());
    assert!(!c.report_leak_once());
}

#[test]
fn connection_idle_marking() {
    let mut c = Connection::new(1, Protocol::TCP, IPVersion::IPv4, at(0, 100));
    assert!(!c.try_mark_idle(at(0, 500)));
    assert_eq!(c.last_used_at, 100);
    c.mark_in_use(at(0, 600));
    assert!(c.try_mark_idle(at(0, 700)));
    assert_eq!(c.last_used_at, 700);
    assert!(!c.is_in_use());
    c.mark_in_use(at(0, 800));
    c.mark_idle(at(0, 900));
    assert!(!c.is_in_use());
    assert_eq!(c.last_used_at, 900);
}

#[test]
fn connection_health_checks() {
    let mut c = Connection::new(1, Protocol::TCP, IPVersion::IPv4, at(0, 100));
    assert!(!c.should_health_check(0, at(0, 10_000)));
    assert!(!c.should_health_check(50, at(0, 149)));
    assert!(c.should_health_check(50, at(0, 150)));
    assert!(c.should_health_check(50, at(0, 50)));
    c.update_health(false, at(0, 300));
    assert!(!c.health_status());
    assert_eq!(c.last_health_check_at, 100);
    c.update_health(true, at(0, 300));
    assert!(c.health_status());
    assert_eq!(c.last_health_check_at, 300);
    c.mark_unhealthy();
    assert!(!c.health_status());
    assert!(!c.is_valid_for_borrow(0, 0, at(0, 300)));
}

#[test]
fn connection_close_is_idempotent() {
    let mut c = Connection::new(1, Protocol::TCP, IPVersion::IPv4, at(0, 0));
    assert!(c.close(false));
    assert!(c.is_closed());
    assert!(!c.health_status());
    assert!(!c.close(false));
    let mut d = Connection::new(2, Protocol::TCP, IPVersion::IPv4, at(0, 0));
    assert!(d.close(true));
    assert!(d.is_closed());
    assert!(d.health_status());
    assert!(!d.is_valid_for_borrow(0, 0, at(0, 0)));
}

#[test]
fn connection_reuse_count_wraps() {
    let mut c = Connection::new(1, Protocol::TCP, IPVersion::IPv4, at(0, 0));
    c.increment_reuse_count();
    c.increment_reuse_count();
    assert_eq!(c.reuse_count(), 2);
    c.reuse_count = i64::MAX;
    c.increment_reuse_count();
    assert_eq!(c.reuse_count(), i64::MIN);
}

#[test]
fn connection_ids_count_up_then_fall_back_to_the_clock() {
    let mut g = ConnectionIdGenerator::new();
    assert_eq!(g.next_id(0), 2);
    assert_eq!(g.next_id(0), 3);
    g.last = u64::MAX;
    let id = g.next_id(0xABCD_1234_5678_9ABC);
    assert_eq!(id, 0x0001_1234_5678_9ABC);
    assert_eq!(g.next_id(0), 0x0001_1234_5678_9ABD);
}
