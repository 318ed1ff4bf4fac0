//! Member onboarding for a chat community, as an engine that does no I/O.
//!
//! The engine never talks to the chat platform or to the key-value store
//! itself. Every event starts a workflow, a state machine that hands out one
//! [`engine::Request`] at a time and is resumed with the
//! [`engine::Response`] that the outside gave:
//!
//! ```text
//! let (mut workflow, mut request) = events::listener(event);
//! while request is not Request::Finish(outcome) {
//!     let response = /* carry the request out */;
//!     (workflow, request) = events::step(workflow, response);
//! }
//! ```
//!
//! Whoever drives a workflow keeps the store locked from its first request
//! to its last, so that no other workflow reads or writes in between.
//!
//! - [`events`] and [`commands`] hold the workflows: what each one asks
//!   for, in which order, and what it concludes from the answers.
//! - [`store`] names the records that the engine keeps and renders their
//!   keys; [`notices`] puts the engine's messages into words.
//! - [`world`] models the store and an arbitrary platform, and defines the
//!   run of a workflow against them; [`sessions`] says what it means for
//!   the records of verifications to agree.
//! - [`laws`] proves what holds of every run.
//! - [`platform`] is the only place that calls the platform's own library.

pub mod commands;
pub mod engine;
pub mod errors;
pub mod events;
pub mod identifiers;
pub mod laws;
pub mod models;
pub mod notices;
pub mod platform;
pub mod sessions;
pub mod store;
pub mod text;
pub mod world;
