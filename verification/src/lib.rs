//! Solving practice exercises with a text-completion service and submitting
//! the answers for a list of accounts.
//!
//! The library holds every decision of a run: how an exercise page is read,
//! what is asked of the completion service, which forms are posted, and in
//! which order the network calls are made. The caller performs the calls.

pub mod model;
pub mod page;
pub mod prompt;
pub mod site;
pub mod config;
pub mod pipeline;
pub mod laws;
