//! Supervision of long-running services: restart delays, lifecycles, and the
//! loop that ties them together.

pub mod backoff;
pub mod collectors;
pub mod config;
pub mod fleet;
pub mod lifecycle;
pub mod metrics;
pub mod runner;
pub mod service;
