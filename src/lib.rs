//! A rate-limited pool of API keys, scoped to access domains.

pub mod domain;
pub mod guarantees;
pub mod key;
pub mod retry;
pub mod storage;
pub mod user;
