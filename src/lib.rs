//! A client library for an exchange's streaming market feed: endpoint
//! resolution, JSON envelope unwrapping, event classification, the session
//! state machine with its liveness watchdog, and the request descriptions of
//! the margin and user-stream REST calls.
pub mod endpoint;
pub mod envelope;
pub mod errors;
pub mod events;
pub mod json;
pub mod margin;
pub mod request;
pub mod session;
pub mod text;
pub mod userstream;
