use vstd::prelude::*;

use crate::config::{ServerContext, TlsConfig};
use crate::handshake::{spec_context, TlsHandshake};

verus! {

/// One accepted connection: the stream together with the inner acceptor's
/// addressing, which the adapter preserves verbatim.
pub struct Accepted<S, A> {
    /// The connection's byte stream.
    pub stream: S,
    /// The local address the inner acceptor reported.
    pub local_addr: A,
    /// The peer address the inner acceptor reported.
    pub remote_addr: A,
}

/// The event emitted when a freshly built context is installed.
#[derive(Clone, Copy, PartialEq, Eq, Structural, Debug)]
pub enum ConfigEvent {
    /// The active context went from absent to present.
    Loaded,
    /// The active context was replaced.
    Changed,
}

/// Why an accept round failed after the inner acceptor answered. A failed
/// configuration build is not listed here: it surfaces the builder's own
/// error unchanged, before the inner acceptor is consulted.
#[derive(Debug, PartialEq, Eq)]
pub enum AcceptError<E> {
    /// The inner acceptor failed; its error is passed through verbatim.
    Inner(E),
    /// No configuration has ever been installed, so no handshake can start.
    MissingConfig,
}

impl<E> AcceptError<E> {
    /// The message an I/O error carrying this failure reports.
    pub fn message(&self) -> (r: &'static str)
        ensures
            *self is MissingConfig ==> r@ == "no valid tls config."@,
            *self is Inner ==> r@ == "inner accept failed."@,
    {
        match self {
            AcceptError::Inner(_) => "inner accept failed.",
            AcceptError::MissingConfig => "no valid tls config.",
        }
    }
}

/// The build candidate left by a drain that found `pending` ready, in
/// delivery order: nothing when nothing was pending, otherwise the most
/// recent delivery. Earlier deliveries are discarded unbuilt.
pub open spec fn coalesced(pending: Seq<TlsConfig>) -> Option<TlsConfig> {
    if pending.len() == 0 {
        None
    } else {
        Some(pending[pending.len() - 1])
    }
}

/// The active context after one accept round's configuration step: `build`
/// is `None` when the drain left no candidate, otherwise the result of
/// building the candidate. Only a successful build changes the slot, and no
/// step ever clears it.
pub open spec fn round_active<B>(
    active: Option<ServerContext>,
    build: Option<Result<ServerContext, B>>,
) -> Option<ServerContext> {
    match build {
        Some(b) => match b {
            Ok(ctx) => Some(ctx),
            Err(_) => active,
        },
        None => active,
    }
}

/// The active context after a whole run of accept rounds, each described by
/// its configuration step as in `round_active`.
pub open spec fn run_rounds<B>(
    active: Option<ServerContext>,
    rounds: Seq<Option<Result<ServerContext, B>>>,
) -> Option<ServerContext>
    decreases rounds.len(),
{
    if rounds.len() == 0 {
        active
    } else {
        run_rounds(round_active(active, rounds[0]), rounds.drop_first())
    }
}

/// What an accept round returns once the inner acceptor has answered: an
/// inner error passes through verbatim; with no active context the
/// connection is dropped and the round fails; otherwise the connection is
/// wrapped in a handshake capturing the current context, addresses kept.
pub open spec fn spec_accept_outcome<S, A, E>(
    active: Option<ServerContext>,
    inner_result: Result<Accepted<S, A>, E>,
) -> Result<Accepted<TlsHandshake<S>, A>, AcceptError<E>> {
    match inner_result {
        Err(e) => Err(AcceptError::Inner(e)),
        Ok(conn) => match active {
            None => Err(AcceptError::MissingConfig),
            Some(ctx) => Ok(
                Accepted {
                    stream: TlsHandshake::Handshaking { inner: conn.stream, context: ctx },
                    local_addr: conn.local_addr,
                    remote_addr: conn.remote_addr,
                },
            ),
        },
    }
}

/// Coalesce the batch of configurations a drain found ready: only the most
/// recently delivered one becomes the build candidate; at most one context
/// is built per accept round.
pub fn take_candidate(pending: Vec<TlsConfig>) -> (r: Option<TlsConfig>)
    ensures
        r == coalesced(pending@),
{
    let mut candidate: Option<TlsConfig> = None;
    let mut i: usize = 0;
    while i < pending.len()
        invariant
            i <= pending.len(),
            candidate == coalesced(pending@.take(i as int)),
        decreases pending.len() - i,
    {
        candidate = Some(pending[i]);
        i = i + 1;
    }
    proof {
        assert(pending@.take(pending@.len() as int) =~= pending@);
    }
    candidate
}

/// The TLS-enabling acceptor: pairs a configuration feed with an inner
/// acceptor and keeps the context compiled from the most recently applied
/// configuration. The slot is empty until the feed's first usable delivery
/// and is never cleared afterwards.
pub struct RustlsAcceptor<C, T> {
    /// The configuration feed, consumed only via non-blocking polls.
    pub config_stream: C,
    /// The inner acceptor yielding plain streams plus addressing.
    pub inner: T,
    /// The context handshakes capture; empty until the first install.
    pub active_context: Option<ServerContext>,
}

impl<C, T> RustlsAcceptor<C, T> {
    /// Create a new `RustlsAcceptor` with no active context: the first
    /// configuration the feed delivers installs one.
    pub fn new(config_stream: C, inner: T) -> (r: RustlsAcceptor<C, T>)
        ensures
            r.config_stream == config_stream,
            r.inner == inner,
            r.active_context is None,
    {
        RustlsAcceptor { config_stream, inner, active_context: None }
    }

    /// Apply one round's configuration step: install the context built from
    /// the drained candidate, or pass the builder's error back unchanged. A
    /// failed build never disturbs the active context, and the event of a
    /// successful install distinguishes the first load from a replacement.
    pub fn apply_update<B>(&mut self, build: Result<ServerContext, B>) -> (r: Result<
        ConfigEvent,
        B,
    >)
        ensures
            final(self).config_stream == old(self).config_stream,
            final(self).inner == old(self).inner,
            final(self).active_context == round_active(old(self).active_context, Some(build)),
            build matches Ok(ctx) ==> final(self).active_context == Some(ctx) && r == Ok::<
                ConfigEvent,
                B,
            >(
                if old(self).active_context is Some {
                    ConfigEvent::Changed
                } else {
                    ConfigEvent::Loaded
                },
            ),
            build matches Err(e) ==> final(self).active_context == old(self).active_context && r
                == Err::<ConfigEvent, B>(e),
    {
        match build {
            Ok(ctx) => {
                let event = if self.active_context.is_some() {
                    ConfigEvent::Changed
                } else {
                    ConfigEvent::Loaded
                };
                self.active_context = Some(ctx);
                Ok(event)
            }
            Err(e) => Err(e),
        }
    }

    /// Finish one accept round once the inner acceptor has answered: inner
    /// errors pass through verbatim; with no active context the connection is
    /// dropped and the round fails loudly; otherwise the connection is
    /// wrapped in a handshake that captures the current context, with both
    /// addresses preserved bitwise.
    pub fn accept_outcome<S, A, E>(&self, inner_result: Result<Accepted<S, A>, E>) -> (r: Result<
        Accepted<TlsHandshake<S>, A>,
        AcceptError<E>,
    >)
        ensures
            r == spec_accept_outcome(self.active_context, inner_result),
            inner_result matches Ok(conn) ==> (self.active_context matches Some(ctx) ==> (r
                matches Ok(acc) && acc.local_addr == conn.local_addr && acc.remote_addr
                == conn.remote_addr && acc.stream == (TlsHandshake::Handshaking {
                inner: conn.stream,
                context: ctx,
            }))),
            inner_result is Ok && self.active_context is None ==> r == Err::<
                Accepted<TlsHandshake<S>, A>,
                AcceptError<E>,
            >(AcceptError::MissingConfig),
            inner_result matches Err(e) ==> r == Err::<
                Accepted<TlsHandshake<S>, A>,
                AcceptError<E>,
            >(AcceptError::Inner(e)),
    {
        match inner_result {
            Err(e) => Err(AcceptError::Inner(e)),
            Ok(conn) => match &self.active_context {
                None => Err(AcceptError::MissingConfig),
                Some(ctx) => Ok(
                    Accepted {
                        stream: TlsHandshake::Handshaking { inner: conn.stream, context: *ctx },
                        local_addr: conn.local_addr,
                        remote_addr: conn.remote_addr,
                    },
                ),
            },
        }
    }
}

/// Law: once a context is present it stays present. No round clears the
/// slot; a failed build and an empty drain both leave it as it was.
pub proof fn lemma_context_presence_monotonic<B>(
    active: Option<ServerContext>,
    rounds: Seq<Option<Result<ServerContext, B>>>,
)
    ensures
        active is Some ==> run_rounds(active, rounds) is Some,
    decreases rounds.len(),
{
    if rounds.len() > 0 {
        lemma_context_presence_monotonic(round_active(active, rounds[0]), rounds.drop_first());
    }
}

/// Law: a failed build is local to its round. Every later round runs from
/// exactly the state it would have run from had the failing round never
/// drained a candidate.
pub proof fn lemma_build_error_local<B>(
    active: Option<ServerContext>,
    e: B,
    later: Seq<Option<Result<ServerContext, B>>>,
)
    ensures
        run_rounds(round_active(active, Some(Err(e))), later) == run_rounds(active, later),
{
    assert(round_active(active, Some(Err::<ServerContext, B>(e))) == active);
}

/// Law (freshness): when the feed has delivered `pending` before a round's
/// drain, only the last delivery is the build candidate; and when building
/// it succeeds, the handshake returned by that round captures exactly the
/// resulting context — never one derived from an earlier delivery.
pub proof fn lemma_freshness<S, A, E, B>(
    active: Option<ServerContext>,
    pending: Seq<TlsConfig>,
    built: ServerContext,
    conn: Accepted<S, A>,
)
    requires
        pending.len() > 0,
    ensures
        coalesced(pending) == Some(pending[pending.len() - 1]),
        round_active::<B>(active, Some(Ok(built))) == Some(built),
        spec_accept_outcome::<S, A, E>(Some(built), Ok(conn)) matches Ok(acc) && acc.stream == (
        TlsHandshake::Handshaking { inner: conn.stream, context: built }),
{
}

/// Law (ordering): the configuration step of a round completes before its
/// inner accept, so the handshake a round returns captures exactly the
/// round's active context — the one present after the configuration step —
/// and is never older than the last update seen at the start of the call.
pub proof fn lemma_round_captures_current_context<S, A, E, B>(
    active: Option<ServerContext>,
    build: Option<Result<ServerContext, B>>,
    conn: Accepted<S, A>,
)
    ensures
        spec_accept_outcome::<S, A, E>(round_active(active, build), Ok(conn)) matches Ok(acc)
            ==> spec_context(acc.stream) == round_active(active, build),
{
}

} // verus!
