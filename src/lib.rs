//! Layered configuration resolution and the subscriber intake write path
//! of a newsletter service.

pub mod coerce;
pub mod configuration;
pub mod subscriptions;
