//! A key-value store session layer with a single shared connection, together
//! with the error vocabulary and the student record that its service uses.
//!
//! The network itself is driven by the program around this library: the pool
//! decides, step by step, what has to happen next on the wire, and the
//! program reports back what happened.

pub mod http;
pub mod redis;
pub mod student;
pub mod text;
