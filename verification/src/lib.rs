//! A verified core for a CORS reverse proxy.
//!
//! The library decides, for each inbound request, whether it is a CORS
//! preflight to be answered locally or a request to be rewritten and
//! forwarded to a single configured upstream origin, and it computes the
//! CORS headers that decorate each kind of response.

pub mod engine;
pub mod error;
pub mod policy;
pub mod strutil;
pub mod target;
