//! Task lifecycle and multi-party access-control core of a confidential
//! computing platform: typed entities with a prefix-tagged key space and a
//! stable binary codec, a task approval/assignment state machine, and a
//! management service that enforces ownership and status invariants over a
//! key/value store with a FIFO staging queue.

pub mod errors;
pub mod status;
pub mod trusted;
pub mod value;
pub mod wire;
pub mod strmap;
pub mod owners;
pub mod file;
pub mod function;
pub mod task;
pub mod storage;
pub mod service;
pub mod common;
pub mod file_agent;
