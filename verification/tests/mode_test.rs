use netconnpool::mode::{parse_pool_mode, pool_mode_from_lowered, PoolMode};

#[test]
fn test_pool_mode_display() {
    assert_eq!(PoolMode::Client.to_string(), "client");
    assert_eq!(PoolMode::Server.to_string(), "server");
}

#[test]
fn mode_test_parse_pool_mode() {
    assert_eq!(parse_pool_mode("client"), PoolMode::Client);
    assert_eq!(parse_pool_mode("server"), PoolMode::Server);
    assert_eq!(parse_pool_mode("CLIENT"), PoolMode::Client);
    assert_eq!(parse_pool_mode("SERVER"), PoolMode::Server);
    assert_eq!(parse_pool_mode("unknown"), PoolMode::Client);
}

#[test]
fn test_pool_mode() {
    assert_eq!(PoolMode::Client.to_string(), "client");
    assert_eq!(PoolMode::Server.to_string(), "server");
}

#[test]
fn mode_test_test_parse_pool_mode() {
    assert_eq!(parse_pool_mode("client"), PoolMode::Client);
    assert_eq!(parse_pool_mode("server"), PoolMode::Server);
    assert_eq!(parse_pool_mode("CLIENT"), PoolMode::Client);
    assert_eq!(parse_pool_mode("unknown"), PoolMode::Client);
}

#[test]
fn pool_mode_lowered_names() {
    assert_eq!(pool_mode_from_lowered("server"), PoolMode::Server);
    assert_eq!(pool_mode_from_lowered("Server"), PoolMode::Client);
    assert_eq!(pool_mode_from_lowered(""), PoolMode::Client);
    assert_eq!(PoolMode::default(), PoolMode::Client);
}

#[test]
fn printed_pool_mode_parses_back() {
    for m in [PoolMode::Client, PoolMode::Server] {
        assert_eq!(parse_pool_mode(&m.to_string()), m);
    }
}
