//! The stream that an accepted connection is handed out as: its handshake
//! runs when the stream is first used, not when the connection is accepted.
//!
//! [`TlsConnStream`] holds where the stream stands and decides what a read or
//! a write has to do first. Whoever drives it polls the handshake and moves
//! the bytes.

use crate::listener::PendingHandshake;
use openssl::error::ErrorStack;
use openssl::ssl::{Ssl, SslAcceptor};
use vstd::prelude::*;

verus! {

/// `openssl::ssl::Ssl`: the state of one TLS session. Nothing is known of
/// what it holds; it is only carried.
#[verifier::external_type_specification]
#[verifier::external_body]
pub struct ExSsl(openssl::ssl::Ssl);

/// `openssl::error::ErrorStack`: the errors that an openssl call left
/// behind. Nothing is known of what it holds.
#[verifier::external_type_specification]
#[verifier::external_body]
pub struct ExErrorStack(openssl::error::ErrorStack);

/// `Ssl::new` of openssl on the context inside `acceptor`: a fresh session
/// under that context, or the errors openssl reported. Which of the two
/// comes back is openssl's to decide; nothing is claimed of it.
#[verifier::external_body]
fn new_session(acceptor: &SslAcceptor) -> (session: Result<Ssl, ErrorStack>) {
    Ssl::new(acceptor.context())
}

/// The `Display` text of an openssl `ErrorStack`. Nothing is claimed of it.
#[verifier::external_body]
fn error_text(errors: &ErrorStack) -> (text: String) {
    errors.to_string()
}

impl<S> PendingHandshake<S> {
    /// Opens the TLS session that the handshake will run in, under the
    /// context this connection was bound to. The raw stream comes back
    /// untouched beside the session; on failure it is dropped and openssl's
    /// words are returned.
    pub fn open_session(self) -> (opened: Result<(Ssl, S), String>)
        ensures
            opened matches Ok(pair) ==> pair.1 == self.stream,
    {
        let session = match new_session(&self.acceptor) {
            Ok(session) => Ok(session),
            Err(errors) => Err(error_text(&errors)),
        };
        self.with_session(session)
    }

    /// Takes what came of opening a session for this connection: a session
    /// is paired with the raw stream, which is handed on untouched; a
    /// failure is passed on in the same words and the raw stream is dropped.
    pub fn with_session(self, session: Result<Ssl, String>) -> (opened: Result<(Ssl, S), String>)
        ensures
            opened == (match session {
                Ok(ssl) => Ok::<(Ssl, S), String>((ssl, self.stream)),
                Err(reason) => Err::<(Ssl, S), String>(reason),
            }),
    {
        match session {
            Ok(ssl) => Ok((ssl, self.stream)),
            Err(reason) => Err(reason),
        }
    }
}

/// Where a stream stands. `H` is the handshake still to be run, `S` the
/// negotiated session.
pub enum TlsConnStream<H, S> {
    /// The handshake has not finished; no payload has moved.
    Handshaking(H),
    /// The handshake succeeded; payload moves through the session.
    Ready(S),
    /// The handshake failed, for the reason held. The stream stays so.
    Failed(String),
}

/// What a read or a write has to do first.
#[derive(Clone, Copy, PartialEq, Eq, Structural, Debug)]
pub enum NextIo {
    /// Run the handshake further; no payload may move yet.
    DriveHandshake,
    /// Pass the operation to the negotiated session.
    UseSession,
    /// Fail the operation: the handshake failed.
    Refuse,
}

impl<H, S> TlsConnStream<H, S> {
    /// What a read or a write has to do first.
    pub open spec fn spec_next_io(&self) -> NextIo {
        match self {
            TlsConnStream::Handshaking(_) => NextIo::DriveHandshake,
            TlsConnStream::Ready(_) => NextIo::UseSession,
            TlsConnStream::Failed(_) => NextIo::Refuse,
        }
    }

    /// The stream after its handshake ended with `outcome`. Only a stream
    /// that is still negotiating changes.
    pub open spec fn spec_finish(self, outcome: Result<S, String>) -> Self {
        match self {
            TlsConnStream::Handshaking(_) => match outcome {
                Ok(session) => TlsConnStream::Ready(session),
                Err(reason) => TlsConnStream::Failed(reason),
            },
            _ => self,
        }
    }

    /// A stream whose handshake has not begun.
    pub fn new(handshake: H) -> (stream: Self)
        ensures
            stream == TlsConnStream::<H, S>::Handshaking(handshake),
    {
        TlsConnStream::Handshaking(handshake)
    }

    /// What a read or a write has to do first.
    pub fn next_io(&self) -> (next: NextIo)
        ensures
            next == self.spec_next_io(),
    {
        match self {
            TlsConnStream::Handshaking(_) => NextIo::DriveHandshake,
            TlsConnStream::Ready(_) => NextIo::UseSession,
            TlsConnStream::Failed(_) => NextIo::Refuse,
        }
    }

    /// Records how the handshake ended.
    pub fn finish(self, outcome: Result<S, String>) -> (stream: Self)
        ensures
            stream == self.spec_finish(outcome),
    {
        match self {
            TlsConnStream::Handshaking(_) => match outcome {
                Ok(session) => TlsConnStream::Ready(session),
                Err(reason) => TlsConnStream::Failed(reason),
            },
            TlsConnStream::Ready(session) => TlsConnStream::Ready(session),
            TlsConnStream::Failed(reason) => TlsConnStream::Failed(reason),
        }
    }
}

} // verus!
