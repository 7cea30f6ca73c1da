//! Request-handling and configuration errors of the proxy core.

use vstd::prelude::*;

verus! {

/// Why the proxy core refuses an input.
#[derive(Clone, Copy, Debug, PartialEq, Eq, Structural)]
pub enum ProxyError {
    /// The configured upstream base is not an absolute URI with a plain
    /// or encrypted HTTP scheme and a non-empty host (fatal at startup).
    InvalidUpstream,
    /// The inbound request has no path-and-query, or the rewritten target
    /// does not parse as a URI (fails that single request).
    MalformedTarget,
}

} // verus!
