//! A sandboxed case-generation engine: per-language runners that resolve a
//! container image and an isolated network, and an execution pipeline that
//! runs user generator code in a fresh container and classifies what it
//! printed.

pub mod config;
pub mod langs;
pub mod request;
pub mod runner;
pub mod views;
