//! A harness that intercepts the outbound calls of a system under test and
//! answers them from registered, one-shot rules.

pub mod config;
pub mod envelope;
pub mod error;
pub mod laws;
pub mod registry;
pub mod scheduler;
pub mod service;
pub mod wire;
