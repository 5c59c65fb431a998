//! A connection pool core: configuration rules, connection lifecycle state,
//! idle-bucket bookkeeping, statistics, and the pool state machine whose
//! decisions the I/O layer carries out.

pub mod text;
pub mod mode;
pub mod protocol;
pub mod ipversion;
pub mod errors;
pub mod config;
pub mod stats;
pub mod connection;
pub mod idle_queue;
pub mod pool_model;
pub mod pool;
pub mod udp;
pub mod laws;
