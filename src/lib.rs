//! Sharded RPC serving: round-robin dispatch of accepted connections to a
//! pool of core-pinned workers, the lifecycle of one RPC session, and the
//! per-request transform that a session applies.

pub mod dispatch;
pub mod handler;
pub mod pool;
pub mod session;
pub mod turn;
