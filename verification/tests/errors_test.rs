use netconnpool::errors::{ConfigIssue, IoErrorKind, NetConnPoolError};
use netconnpool::protocol::Protocol;

#[test]
fn errors_compare_by_identifying_fields() {
    assert_eq!(NetConnPoolError::PoolClosed, NetConnPoolError::PoolClosed);
    assert_ne!(NetConnPoolError::PoolClosed, NetConnPoolError::ConnectionClosed { connection_id: 1 });
    assert_eq!(
        NetConnPoolError::GetConnectionTimeout { timeout: 1, waited: 2 },
        NetConnPoolError::GetConnectionTimeout { timeout: 3, waited: 4 }
    );
    assert_eq!(
        NetConnPoolError::InvalidConnection { connection_id: 5, reason: "a".to_string() },
        NetConnPoolError::InvalidConnection { connection_id: 5, reason: "b".to_string() }
    );
    assert_ne!(
        NetConnPoolError::ConnectionLeaked { connection_id: 5, timeout: 1 },
        NetConnPoolError::ConnectionLeaked { connection_id: 6, timeout: 1 }
    );
    assert_eq!(
        NetConnPoolError::IoError { kind: IoErrorKind::Other, message: "x".to_string() },
        NetConnPoolError::IoError { kind: IoErrorKind::Other, message: "y".to_string() }
    );
    assert_ne!(
        NetConnPoolError::IoError { kind: IoErrorKind::Other, message: "x".to_string() },
        NetConnPoolError::IoError { kind: IoErrorKind::TimedOut, message: "x".to_string() }
    );
    assert_ne!(
        NetConnPoolError::UnsupportedProtocol { protocol: "a".to_string() },
        NetConnPoolError::UnsupportedProtocol { protocol: "b".to_string() }
    );
    assert_eq!(
        NetConnPoolError::NoConnectionForProtocol { required: Protocol::UDP },
        NetConnPoolError::NoConnectionForProtocol { required: Protocol::UDP }
    );
    assert_ne!(
        NetConnPoolError::InvalidConfig { reason: ConfigIssue::ZeroMaxIdle },
        NetConnPoolError::InvalidConfig { reason: ConfigIssue::MissingDialer }
    );
    assert_ne!(
        NetConnPoolError::PoolExhausted { current: 1, max: 2 },
        NetConnPoolError::MaxConnectionsReached { current: 1, max: 2 }
    );
}
