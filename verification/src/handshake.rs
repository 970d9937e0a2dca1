use vstd::prelude::*;

use crate::config::ServerContext;

verus! {

/// The per-connection TLS handshake wrapper: a state machine over one inner
/// byte stream. It starts in `Handshaking` holding the stream and the server
/// context captured when the connection was accepted; byte-stream operations
/// drive the exchange until it completes (`Established`) or fails (`Failed`).
/// The failing operation reports the handshake error itself, so the `Failed`
/// state keeps no payload and every later operation reports a broken pipe.
pub enum TlsHandshake<S> {
    /// The TLS exchange is still in progress over `inner`, driven by the
    /// context captured at birth.
    Handshaking { inner: S, context: ServerContext },
    /// The exchange completed; operations pass through to the TLS session
    /// over `inner`.
    Established { inner: S, context: ServerContext },
    /// The exchange failed and its error has already been reported.
    Failed,
}

/// What one step of the underlying handshake driver observed.
#[derive(Debug)]
pub enum DriveEvent<F> {
    /// The exchange needs more bytes from the peer before it can advance.
    NotReady,
    /// The exchange completed and the session is ready.
    Completed,
    /// The exchange failed with the given error.
    Failed(F),
}

/// What a byte-stream operation on the wrapper reports to its caller.
#[derive(Debug, PartialEq, Eq)]
pub enum OpReport<F> {
    /// Still handshaking: the operation is pending.
    Pending,
    /// The session is established: the operation passes through to TLS
    /// record I/O over the inner stream.
    PassThrough,
    /// The handshake failed now; the captured error is handed out once.
    Failed(F),
    /// The handshake failed earlier and its error was already reported.
    BrokenPipe,
}

/// The wrapper's transition relation: the state after one driver step,
/// paired with what the byte-stream operation that triggered the step
/// reports. Terminal states never change again.
pub open spec fn spec_drive<S, F>(h: TlsHandshake<S>, ev: DriveEvent<F>) -> (TlsHandshake<S>, OpReport<F>) {
    match h {
        TlsHandshake::Handshaking { inner, context } => match ev {
            DriveEvent::NotReady => (TlsHandshake::Handshaking { inner, context }, OpReport::Pending),
            DriveEvent::Completed => (TlsHandshake::Established { inner, context }, OpReport::PassThrough),
            DriveEvent::Failed(e) => (TlsHandshake::Failed, OpReport::Failed(e)),
        },
        TlsHandshake::Established { inner, context } => (
            TlsHandshake::Established { inner, context },
            OpReport::PassThrough,
        ),
        TlsHandshake::Failed => (TlsHandshake::Failed, OpReport::BrokenPipe),
    }
}

/// The context a wrapper currently holds: present until the exchange fails.
pub open spec fn spec_context<S>(h: TlsHandshake<S>) -> Option<ServerContext> {
    match h {
        TlsHandshake::Handshaking { context, .. } => Some(context),
        TlsHandshake::Established { context, .. } => Some(context),
        TlsHandshake::Failed => None,
    }
}

/// The state after a whole sequence of driver steps.
pub open spec fn run_drive<S, F>(h: TlsHandshake<S>, evs: Seq<DriveEvent<F>>) -> TlsHandshake<S>
    decreases evs.len(),
{
    if evs.len() == 0 {
        h
    } else {
        run_drive(spec_drive(h, evs[0]).0, evs.drop_first())
    }
}

impl<S> TlsHandshake<S> {
    /// Wrap one inner stream; the TLS exchange begins lazily on first use,
    /// driven by `context`.
    pub fn new(inner: S, context: ServerContext) -> (r: TlsHandshake<S>)
        ensures
            r == (TlsHandshake::Handshaking { inner, context }),
    {
        TlsHandshake::Handshaking { inner, context }
    }

    /// The context this wrapper captured at birth, while it still holds one.
    pub fn context(&self) -> (r: Option<ServerContext>)
        ensures
            r == spec_context(*self),
    {
        match self {
            TlsHandshake::Handshaking { context, .. } => Some(*context),
            TlsHandshake::Established { context, .. } => Some(*context),
            TlsHandshake::Failed => None,
        }
    }

    /// Advance the state machine by one observed driver step and report what
    /// the byte-stream operation that triggered the step sees.
    pub fn drive<F>(self, ev: DriveEvent<F>) -> (r: (TlsHandshake<S>, OpReport<F>))
        ensures
            r == spec_drive(self, ev),
    {
        match self {
            TlsHandshake::Handshaking { inner, context } => match ev {
                DriveEvent::NotReady => (TlsHandshake::Handshaking { inner, context }, OpReport::Pending),
                DriveEvent::Completed => (
                    TlsHandshake::Established { inner, context },
                    OpReport::PassThrough,
                ),
                DriveEvent::Failed(e) => (TlsHandshake::Failed, OpReport::Failed(e)),
            },
            TlsHandshake::Established { inner, context } => (
                TlsHandshake::Established { inner, context },
                OpReport::PassThrough,
            ),
            TlsHandshake::Failed => (TlsHandshake::Failed, OpReport::BrokenPipe),
        }
    }
}

/// A terminal state never changes again, whatever the driver reports.
pub proof fn lemma_run_drive_terminal<S, F>(h: TlsHandshake<S>, evs: Seq<DriveEvent<F>>)
    ensures
        h is Established ==> run_drive(h, evs) == h,
        h is Failed ==> run_drive(h, evs) == h,
    decreases evs.len(),
{
    if evs.len() > 0 {
        lemma_run_drive_terminal(spec_drive(h, evs[0]).0, evs.drop_first());
    }
}

/// Law: a handshake uses the context captured at its birth. However driver
/// steps are interleaved with context replacements in the acceptor, a wrapper
/// born over `inner` with context `context` that is still handshaking, or
/// that has established its session, holds exactly that stream and that
/// context.
pub proof fn lemma_handshake_keeps_birth_context<S, F>(
    inner: S,
    context: ServerContext,
    evs: Seq<DriveEvent<F>>,
)
    ensures
        ({
            let end = run_drive(TlsHandshake::Handshaking { inner, context }, evs);
            &&& end matches TlsHandshake::Handshaking { inner: i2, context: c2 } ==> i2 == inner
                && c2 == context
            &&& end matches TlsHandshake::Established { inner: i2, context: c2 } ==> i2 == inner
                && c2 == context
        }),
    decreases evs.len(),
{
    let start = TlsHandshake::Handshaking { inner, context };
    if evs.len() > 0 {
        let next = spec_drive(start, evs[0]).0;
        match evs[0] {
            DriveEvent::NotReady => {
                lemma_handshake_keeps_birth_context(inner, context, evs.drop_first());
            }
            DriveEvent::Completed => {
                lemma_run_drive_terminal(next, evs.drop_first());
            }
            DriveEvent::Failed(_) => {
                lemma_run_drive_terminal(next, evs.drop_first());
            }
        }
    }
}

} // verus!
