//! What the layers of the connector stack share: the readiness signal and
//! the construction-time switches.

use vstd::prelude::*;

verus! {

/// The answer to a readiness probe of a service.
#[derive(Debug, PartialEq, Eq)]
pub enum Readiness<E> {
    /// A request may be made now.
    Ready,
    /// No request may be made yet; probe again later.
    Pending,
    /// The service has failed for good.
    Failed(E),
}

/// The switches that are fixed when a resolver or a connector is built.
#[derive(Clone, Copy, Debug, PartialEq, Eq, Structural)]
pub struct Features {
    /// Validate lookups with DNSSEC.
    pub dnssec: bool,
    /// Offer HTTP/1.1 to TLS peers.
    pub http1: bool,
    /// Offer HTTP/2 to TLS peers.
    pub http2: bool,
    /// Refuse targets that do not ask for an encrypted transport.
    pub https_only: bool,
}

/// The switches of a build that asks for nothing special: both HTTP
/// versions are offered, plain targets are let through, and lookups are not
/// validated.
pub open spec fn default_features() -> Features {
    Features { dnssec: false, http1: true, http2: true, https_only: false }
}

impl Default for Features {
    fn default() -> (features: Self)
        ensures
            features == default_features(),
    {
        Features { dnssec: false, http1: true, http2: true, https_only: false }
    }
}

} // verus!
