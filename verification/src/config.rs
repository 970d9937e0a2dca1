use vstd::prelude::*;

verus! {

/// A TLS configuration as the accept path sees it: an opaque value named by
/// the position at which the feed delivered it. Its certificate material and
/// policy are compiled outside the accept path; the accept path only decides
/// which delivery to compile and when to install the result.
#[derive(Clone, Copy, PartialEq, Eq, Structural, Debug)]
pub struct TlsConfig {
    /// Position of this configuration in the feed's delivery order.
    pub id: u64,
}

/// A compiled server context: the shareable, immutable handle that each
/// handshake captures at birth. Replacing the acceptor's active context never
/// alters a context already captured. `id` names the configuration the
/// context was compiled from, so contracts can say which configuration a
/// handshake runs against.
#[derive(Clone, Copy, PartialEq, Eq, Structural, Debug)]
pub struct ServerContext {
    /// The `TlsConfig::id` of the configuration this context was compiled from.
    pub id: u64,
}

} // verus!
