//! Core of a CI-failure webhook relay.
//!
//! The library holds every decision the relay makes: classifying an inbound
//! pipeline event, filtering the jobs that did not succeed, resolving a
//! username to a chat mention, composing the notification text, and mapping
//! every outcome of an outbound call to the next step of the request. The
//! network itself (HTTP server, CI and chat API clients) lives outside the
//! library and only carries plain values in and out.

pub mod event;
pub mod handler;
pub mod identity;
pub mod jobs;
pub mod merge_request;
pub mod message;
