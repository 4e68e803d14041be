//! The listener that accepts raw connections and binds each one to the TLS
//! context that is current at that moment, while new contexts may be
//! installed at any time.
//!
//! The listener itself never waits: whoever drives it waits for the next
//! configuration or the next raw connection, hands the event to [`OpensslListener::step`],
//! and acts on the reply.

use openssl::ssl::{SslAcceptor, SslAcceptorBuilder};
use std::sync::Arc;
use vstd::prelude::*;

verus! {

/// `openssl::ssl::SslAcceptor`: a finished TLS server context. Nothing is
/// known of what it holds; it is only carried.
#[verifier::external_type_specification]
#[verifier::external_body]
pub struct ExSslAcceptor(openssl::ssl::SslAcceptor);

/// `openssl::ssl::SslAcceptorBuilder`: a TLS server context that can still
/// be changed. Nothing is known of what it holds.
#[verifier::external_type_specification]
#[verifier::external_body]
pub struct ExSslAcceptorBuilder(openssl::ssl::SslAcceptorBuilder);

/// `SslAcceptorBuilder::build` of openssl consumes the builder and returns
/// the acceptor made of it. It cannot fail; nothing more is claimed.
pub assume_specification[ openssl::ssl::SslAcceptorBuilder::build ](
    builder: SslAcceptorBuilder,
) -> (acceptor: SslAcceptor)
;

/// `Arc::clone` of std called on a shared context: the new handle points to
/// the same value as the one it was made from.
#[verifier::external_body]
fn share(context: &Arc<SslAcceptor>) -> (shared: Arc<SslAcceptor>)
    ensures
        shared == *context,
{
    Arc::clone(context)
}

/// A raw connection as the transport hands it over.
pub struct Accepted<S, A> {
    /// The stream, raw or already bound to a handshake.
    pub stream: S,
    /// The address the connection arrived at.
    pub local_addr: A,
    /// The address the connection came from.
    pub remote_addr: A,
}

/// A raw stream bound to the TLS context under which its handshake will run.
/// The handshake has not begun; later installs do not reach it.
pub struct PendingHandshake<S> {
    /// The raw stream to negotiate on.
    pub stream: S,
    /// The context that was current when the connection arrived.
    pub acceptor: Arc<SslAcceptor>,
}

/// Why a call to accept failed.
pub enum AcceptError {
    /// The transport could not deliver a connection; its own words.
    Transport(String),
    /// A connection arrived, and no context has ever been installed.
    ConfigMissing,
}

/// What a configuration event did to the listener.
pub enum ReloadOutcome {
    /// The first context was installed.
    Loaded,
    /// A context replaced an earlier one.
    Changed,
    /// The configuration was invalid; the listener is as it was. Holds the
    /// reason given.
    Rejected(String),
}

impl AcceptError {
    /// The words that describe the failure.
    pub open spec fn spec_message(&self) -> Seq<char> {
        match self {
            AcceptError::Transport(reason) => reason@,
            AcceptError::ConfigMissing => "no valid tls config."@,
        }
    }

    /// The words that describe the failure: the transport's own, or that no
    /// valid configuration is there.
    pub fn message(&self) -> (text: String)
        ensures
            text@ == self.spec_message(),
    {
        match self {
            AcceptError::Transport(reason) => reason.clone(),
            AcceptError::ConfigMissing => "no valid tls config.".to_owned(),
        }
    }
}

impl ReloadOutcome {
    /// The line to log for this outcome.
    pub open spec fn spec_message(&self) -> Seq<char> {
        match self {
            ReloadOutcome::Loaded => "tls config loaded."@,
            ReloadOutcome::Changed => "tls config changed."@,
            ReloadOutcome::Rejected(_) => "invalid tls config."@,
        }
    }

    /// The line to log for this outcome.
    pub fn message(&self) -> (text: String)
        ensures
            text@ == self.spec_message(),
    {
        match self {
            ReloadOutcome::Loaded => "tls config loaded.".to_owned(),
            ReloadOutcome::Changed => "tls config changed.".to_owned(),
            ReloadOutcome::Rejected(_) => "invalid tls config.".to_owned(),
        }
    }
}

/// What the driver hands to the listener.
pub enum Event<S, A> {
    /// The configuration source delivered a snapshot, and this came of
    /// building a context from it.
    Config(Result<SslAcceptor, String>),
    /// The transport answered: a raw connection, or its failure.
    Connection(Result<Accepted<S, A>, String>),
}

/// What the driver does next.
pub enum Step<S, A> {
    /// Nothing is returned to the caller of accept: keep waiting.
    Continue(ReloadOutcome),
    /// The call to accept ends with this result.
    Return(Result<Accepted<PendingHandshake<S>, A>, AcceptError>),
}

/// The context that is current after `event`, when `current` was before.
pub open spec fn next_context<S, A>(
    current: Option<Arc<SslAcceptor>>,
    event: Event<S, A>,
) -> Option<Arc<SslAcceptor>> {
    match event {
        Event::Config(Ok(acceptor)) => Some(Arc::new(acceptor)),
        Event::Config(Err(_)) => current,
        Event::Connection(_) => current,
    }
}

/// The reply to `event` when `current` is the context in force.
pub open spec fn reply<S, A>(current: Option<Arc<SslAcceptor>>, event: Event<S, A>) -> Step<
    S,
    A,
> {
    match event {
        Event::Config(Ok(_)) => Step::Continue(
            if current is Some {
                ReloadOutcome::Changed
            } else {
                ReloadOutcome::Loaded
            },
        ),
        Event::Config(Err(reason)) => Step::Continue(ReloadOutcome::Rejected(reason)),
        Event::Connection(Err(reason)) => Step::Return(Err(AcceptError::Transport(reason))),
        Event::Connection(Ok(raw)) => match current {
            None => Step::Return(Err(AcceptError::ConfigMissing)),
            Some(acceptor) => Step::Return(
                Ok(
                    Accepted {
                        stream: PendingHandshake { stream: raw.stream, acceptor },
                        local_addr: raw.local_addr,
                        remote_addr: raw.remote_addr,
                    },
                ),
            ),
        },
    }
}

/// A listener over the transport `inner`, fed by `config_stream`, with at
/// most one current TLS context.
pub struct OpensslListener<C, T> {
    /// Where configuration snapshots come from.
    pub config_stream: C,
    /// The transport that yields raw connections.
    pub inner: T,
    /// The context in force, if one has ever been installed.
    pub tls_acceptor: Option<Arc<SslAcceptor>>,
}

impl<C, T> OpensslListener<C, T> {
    /// The context in force, if one has ever been installed.
    pub open spec fn context(&self) -> Option<Arc<SslAcceptor>> {
        self.tls_acceptor
    }

    /// A listener with no context yet.
    pub fn new(config_stream: C, inner: T) -> (listener: Self)
        ensures
            listener.context() is None,
            listener.config_stream == config_stream,
            listener.inner == inner,
    {
        Self { inner, config_stream, tls_acceptor: None }
    }

    /// True once a context has been installed.
    pub fn is_configured(&self) -> (configured: bool)
        ensures
            configured == (self.context() is Some),
    {
        self.tls_acceptor.is_some()
    }

    /// A handle to the context in force.
    pub fn current(&self) -> (current: Option<Arc<SslAcceptor>>)
        ensures
            current == self.context(),
    {
        match &self.tls_acceptor {
            Some(acceptor) => Some(share(acceptor)),
            None => None,
        }
    }

    /// Makes `acceptor` the current context, whatever was current before.
    pub fn install(&mut self, acceptor: SslAcceptor) -> (outcome: ReloadOutcome)
        ensures
            final(self).context() == Some(Arc::new(acceptor)),
            final(self).config_stream == old(self).config_stream,
            final(self).inner == old(self).inner,
            outcome == (if old(self).context() is Some {
                ReloadOutcome::Changed
            } else {
                ReloadOutcome::Loaded
            }),
    {
        let outcome = if self.tls_acceptor.is_some() {
            ReloadOutcome::Changed
        } else {
            ReloadOutcome::Loaded
        };
        self.tls_acceptor = Some(Arc::new(acceptor));
        outcome
    }

    /// Binds a raw connection to the context in force, or says why not.
    /// A transport failure is reported before the context is looked at.
    pub fn on_connection<S, A>(&self, accepted: Result<Accepted<S, A>, String>) -> (result: Result<
        Accepted<PendingHandshake<S>, A>,
        AcceptError,
    >)
        ensures
            Step::Return(result) == reply(self.context(), Event::Connection(accepted)),
    {
        let raw = match accepted {
            Ok(raw) => raw,
            Err(reason) => {
                return Err(AcceptError::Transport(reason));
            },
        };
        match &self.tls_acceptor {
            Some(acceptor) => Ok(
                Accepted {
                    stream: PendingHandshake { stream: raw.stream, acceptor: share(acceptor) },
                    local_addr: raw.local_addr,
                    remote_addr: raw.remote_addr,
                },
            ),
            None => Err(AcceptError::ConfigMissing),
        }
    }

    /// Takes one event and says what the driver does next. A configuration
    /// event never ends the call to accept; a connection event always does.
    pub fn step<S, A>(&mut self, event: Event<S, A>) -> (next: Step<S, A>)
        ensures
            final(self).context() == next_context(old(self).context(), event),
            final(self).config_stream == old(self).config_stream,
            final(self).inner == old(self).inner,
            next == reply(old(self).context(), event),
    {
        match event {
            Event::Config(Ok(acceptor)) => Step::Continue(self.install(acceptor)),
            Event::Config(Err(reason)) => Step::Continue(ReloadOutcome::Rejected(reason)),
            Event::Connection(accepted) => Step::Return(self.on_connection(accepted)),
        }
    }

    /// Takes what came of preparing a context from a configuration
    /// snapshot: finishes the builder and installs the context, or leaves
    /// the listener as it was.
    pub fn on_config(&mut self, prepared: Result<SslAcceptorBuilder, String>) -> (outcome:
        ReloadOutcome)
        ensures
            final(self).config_stream == old(self).config_stream,
            final(self).inner == old(self).inner,
            match prepared {
                Ok(_) => {
                    &&& final(self).context() is Some
                    &&& outcome == (if old(self).context() is Some {
                        ReloadOutcome::Changed
                    } else {
                        ReloadOutcome::Loaded
                    })
                },
                Err(reason) => {
                    &&& final(self).context() == old(self).context()
                    &&& outcome == ReloadOutcome::Rejected(reason)
                },
            },
    {
        match prepared {
            Ok(builder) => self.install(builder.build()),
            Err(reason) => ReloadOutcome::Rejected(reason),
        }
    }
}

} // verus!
