//! The session layer in front of the store: one shared connection, checked
//! before every use and replaced when it has gone stale.

pub mod command;
pub mod config;
pub mod laws;
pub mod operations;
pub mod pool;
pub mod reply;

pub use command::Command;
pub use config::RedisConfig;
pub use operations::RedisOperations;
pub use pool::Action;
pub use pool::Decoded;
pub use pool::Event;
pub use pool::Expect;
pub use pool::Outcome;
pub use pool::Phase;
pub use pool::Purpose;
pub use pool::RedisPool;
pub use pool::Request;
pub use reply::Reply;
