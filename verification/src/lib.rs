//! Verified core of a synchronous proxy in front of Meilisearch.

pub mod config;
pub mod headers;
pub mod logs;
pub mod proxy;
pub mod supervisor;
pub mod task;
pub mod text;
pub mod verbs;
