use vstd::prelude::*;

use crate::acceptor::RustlsAcceptor;

verus! {

/// A lazily bound TCP listener: it records the address to bind and defers
/// the binding itself, so that constructing a listener can never fail.
pub struct TcpListener<T> {
    /// The address the listener will bind when materialized.
    pub addr: T,
}

impl<T> TcpListener<T> {
    /// Record the address to bind; binding is deferred until the listener is
    /// materialized into an acceptor.
    pub fn bind(addr: T) -> (r: TcpListener<T>)
        ensures
            r.addr == addr,
    {
        TcpListener { addr }
    }
}

/// The bind-time composition: a configuration source paired with an inner
/// listener, waiting to be materialized into a `RustlsAcceptor`.
pub struct RustlsListener<C, T> {
    /// The configuration source; it is lazy and cannot fail at this point.
    pub config_stream: C,
    /// The inner listener whose connections will be TLS-wrapped.
    pub inner: T,
}

impl<C, T> RustlsListener<C, T> {
    /// Create a new `RustlsListener` pairing a configuration source with an
    /// inner listener.
    pub fn new(config_stream: C, inner: T) -> (r: RustlsListener<C, T>)
        ensures
            r.config_stream == config_stream,
            r.inner == inner,
    {
        RustlsListener { config_stream, inner }
    }

    /// Pair the configuration source with the materialized form of the inner
    /// listener. Materializing is the only step that can fail and is done by
    /// the caller beforehand; the acceptor starts with no active context.
    pub fn into_acceptor<A>(self, materialized: A) -> (r: RustlsAcceptor<C, A>)
        ensures
            r.config_stream == self.config_stream,
            r.inner == materialized,
            r.active_context is None,
    {
        RustlsAcceptor::new(self.config_stream, materialized)
    }
}

impl<C, T> RustlsListener<C, TcpListener<T>> {
    /// Pair a configuration source with a TCP listener that will bind to
    /// `addr` when materialized. The address is not validated here; a bad
    /// address surfaces when the listener is materialized.
    pub fn bind(config: C, addr: T) -> (r: RustlsListener<C, TcpListener<T>>)
        ensures
            r.config_stream == config,
            r.inner.addr == addr,
    {
        RustlsListener { config_stream: config, inner: TcpListener::bind(addr) }
    }
}

} // verus!
