//! Core of a small temperature-forwarding service.
//!
//! The service exposes one endpoint: a request triggers a short processing
//! delay, then a single GET to a downstream temperature service whose base
//! address comes from the environment, and the downstream body is returned
//! verbatim as plain text. Failures are answered with a fixed error text.
//!
//! This crate holds the decisions of that flow — URL composition, response
//! selection, and the order of the steps — as a verified state machine.
//! The surrounding server performs the delay and the network call and feeds
//! their outcomes back in as events.

pub mod config;
pub mod handler;
pub mod response;
