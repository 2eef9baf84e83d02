//! Request-scoped context propagation with correlated observability.
//!
//! Every inbound request carries a correlation token in a designated header;
//! the token is reused when the caller supplies one and generated otherwise,
//! an immutable per-request [`context::Context`] carries it to the handler,
//! and every log record and trace span emitted while handling the request is
//! tagged with it. The token is mirrored onto the outbound response so a
//! caller can correlate the exchange end to end.

pub mod context;
pub mod extensions;
pub mod pipeline;
pub mod provider;
pub mod telemetry;
pub mod users;
