//! What holds of the listener and of its streams over whole runs of events.

use crate::listener::{
    next_context, reply, AcceptError, Accepted, Event, PendingHandshake, ReloadOutcome, Step,
};
use crate::stream::{NextIo, TlsConnStream};
use openssl::ssl::SslAcceptor;
use std::sync::Arc;
use vstd::prelude::*;

verus! {

/// The context in force after `events`, read from left to right, when
/// `current` was in force before.
pub open spec fn context_after<S, A>(
    current: Option<Arc<SslAcceptor>>,
    events: Seq<Event<S, A>>,
) -> Option<Arc<SslAcceptor>>
    decreases events.len(),
{
    if events.len() == 0 {
        current
    } else {
        next_context(context_after(current, events.drop_last()), events.last())
    }
}

/// True when `event` installs a context.
pub open spec fn installs<S, A>(event: Event<S, A>) -> bool {
    event matches Event::Config(Ok(_))
}

/// The connection `raw` bound to `acceptor`.
pub open spec fn bound_to<S, A>(raw: Accepted<S, A>, acceptor: Arc<SslAcceptor>) -> Accepted<
    PendingHandshake<S>,
    A,
> {
    Accepted {
        stream: PendingHandshake { stream: raw.stream, acceptor },
        local_addr: raw.local_addr,
        remote_addr: raw.remote_addr,
    }
}

/// A connection that arrives while `a` is current is bound to `a`. Installing
/// `b` afterwards, with any events in between that install nothing, binds
/// the next connection to `b`; the binding made earlier is a value of its
/// own, which no event of the listener takes or changes.
pub proof fn in_flight_handshake_keeps_its_context<S, A>(
    current: Option<Arc<SslAcceptor>>,
    a: SslAcceptor,
    b: SslAcceptor,
    first: Accepted<S, A>,
    second: Accepted<S, A>,
)
    ensures
        ({
            let with_a = next_context::<S, A>(current, Event::Config(Ok(a)));
            let after_first = next_context(with_a, Event::Connection(Ok(first)));
            let with_b = next_context::<S, A>(after_first, Event::Config(Ok(b)));
            &&& reply(with_a, Event::Connection(Ok(first))) == Step::Return(
                Ok(bound_to(first, Arc::new(a))),
            )
            &&& reply(with_b, Event::Connection(Ok(second))) == Step::Return(
                Ok(bound_to(second, Arc::new(b))),
            )
        }),
{
}

/// As long as no context has been installed, the listener has none, and a
/// connection that arrives is refused at once for want of a configuration.
pub proof fn connection_before_any_context_is_refused<S, A>(
    events: Seq<Event<S, A>>,
    raw: Accepted<S, A>,
)
    requires
        forall|i: int| 0 <= i < events.len() ==> !installs(#[trigger] events[i]),
    ensures
        context_after(None, events) is None,
        reply(context_after(None, events), Event::Connection(Ok(raw))) == Step::<S, A>::Return(
            Err(AcceptError::ConfigMissing),
        ),
    decreases events.len(),
{
    if events.len() > 0 {
        let earlier = events.drop_last();
        assert forall|i: int| 0 <= i < earlier.len() implies !installs(#[trigger] earlier[i]) by {
            assert(earlier[i] == events[i]);
        }
        connection_before_any_context_is_refused(earlier, raw);
        assert(!installs(events[events.len() - 1]));
    }
}

/// Once a context is in force, one stays in force whatever events follow,
/// and every connection that the transport delivers is accepted.
pub proof fn configured_listener_stays_configured<S, A>(
    current: Option<Arc<SslAcceptor>>,
    events: Seq<Event<S, A>>,
    raw: Accepted<S, A>,
)
    requires
        current is Some,
    ensures
        context_after(current, events) is Some,
        reply(context_after(current, events), Event::Connection(Ok(raw))) == Step::Return(
            Ok(bound_to(raw, context_after(current, events)->0)),
        ),
    decreases events.len(),
{
    if events.len() > 0 {
        configured_listener_stays_configured(current, events.drop_last(), raw);
    }
}

/// The context in force is the one installed last: events that install
/// nothing leave it as it is.
pub proof fn last_install_is_in_force<S, A>(
    current: Option<Arc<SslAcceptor>>,
    acceptor: SslAcceptor,
    later: Seq<Event<S, A>>,
)
    requires
        forall|i: int| 0 <= i < later.len() ==> !installs(#[trigger] later[i]),
    ensures
        context_after(next_context::<S, A>(current, Event::Config(Ok(acceptor))), later) == Some(
            Arc::new(acceptor),
        ),
    decreases later.len(),
{
    if later.len() > 0 {
        let earlier = later.drop_last();
        assert forall|i: int| 0 <= i < earlier.len() implies !installs(#[trigger] earlier[i]) by {
            assert(earlier[i] == later[i]);
        }
        last_install_is_in_force(current, acceptor, earlier);
        assert(!installs(later[later.len() - 1]));
    }
}

/// A failed handshake changes the stream it belongs to and nothing else:
/// the listener is no argument of it, so a listener with a context accepts
/// the next connection as before.
pub proof fn handshake_failure_stays_on_its_stream<H, T, S, A>(
    current: Option<Arc<SslAcceptor>>,
    stream: TlsConnStream<H, T>,
    reason: String,
    raw: Accepted<S, A>,
)
    requires
        current is Some,
        stream is Handshaking,
    ensures
        stream.spec_finish(Err(reason)) == TlsConnStream::<H, T>::Failed(reason),
        reply(current, Event::Connection(Ok(raw))) == Step::Return(
            Ok(bound_to(raw, current->0)),
        ),
{
}

/// An invalid configuration leaves the context in force as it was, and the
/// next connection is bound to that context.
pub proof fn rejected_reload_keeps_the_context<S, A>(
    acceptor: Arc<SslAcceptor>,
    reason: String,
    raw: Accepted<S, A>,
)
    ensures
        ({
            let before = Some(acceptor);
            let after = next_context::<S, A>(before, Event::Config(Err(reason)));
            &&& after == before
            &&& reply::<S, A>(before, Event::Config(Err(reason))) == Step::<S, A>::Continue(
                ReloadOutcome::Rejected(reason),
            )
            &&& reply(after, Event::Connection(Ok(raw))) == Step::Return(
                Ok(bound_to(raw, acceptor)),
            )
        }),
{
}

/// A configuration event never ends a call to accept, and a connection
/// event always does and leaves the context as it was.
pub proof fn only_connections_end_accept<S, A>(
    current: Option<Arc<SslAcceptor>>,
    event: Event<S, A>,
)
    ensures
        event is Config <==> reply(current, event) is Continue,
        event is Connection <==> reply(current, event) is Return,
        event is Connection ==> next_context(current, event) == current,
{
}

/// Payload moves only through a stream whose handshake has succeeded, and
/// such a stream, like one whose handshake failed, stays as it is.
pub proof fn payload_waits_for_the_handshake<H, T>(
    stream: TlsConnStream<H, T>,
    outcome: Result<T, String>,
)
    ensures
        stream.spec_next_io() == NextIo::UseSession <==> stream is Ready,
        stream.spec_finish(outcome) is Ready <==> (stream is Ready || (stream is Handshaking
            && outcome is Ok)),
        !(stream is Handshaking) ==> stream.spec_finish(outcome) == stream,
        !(stream.spec_finish(outcome) is Handshaking),
{
}

} // verus!
