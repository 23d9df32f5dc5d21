//! What holds of the library as a whole, proved from the definitions that
//! its contracts are stated in.

use vstd::prelude::*;
use crate::addr::SocketAddr;
use crate::bind::Bind;
use crate::protocol::classified;
use crate::protocol::routing_key;
use crate::protocol::HostView;
use crate::protocol::Protocol;
use crate::protocol::ProtocolView;
use crate::protocol::RouterKey;
use crate::protocol::Version;
use crate::reconnect::next_attempt;
use crate::reconnect::transition;
use crate::reconnect::Action;
use crate::reconnect::Event;
use crate::reconnect::Phase;
use crate::reconnect::ServiceError;
use crate::reconnect::State;
use crate::service::Service;

verus! {

/// An HTTP/2 request is classified as HTTP/2, whatever its marker, its
/// URI's authority and the known authority are.
pub proof fn lemma_http2_is_http2(
    rewrites_to_orig_dst: bool,
    uri_authority: Option<Seq<char>>,
    known: Option<Seq<char>>,
)
    ensures
        classified(Version::H2, rewrites_to_orig_dst, uri_authority, known) == ProtocolView::Http2,
{
}

/// An HTTP/1.x request that is forwarded to its original destination has
/// no authority, even where its URI or the caller names one.
pub proof fn lemma_rewritten_has_no_authority(
    version: Version,
    uri_authority: Option<Seq<char>>,
    known: Option<Seq<char>>,
)
    requires
        version != Version::H2,
    ensures
        classified(version, true, uri_authority, known) == ProtocolView::Http1(
            HostView::NoAuthority,
        ),
{
}

/// An HTTP/1.x request that is not forwarded to its original destination
/// and whose URI has the authority `a` is keyed by `a`, unless the caller
/// knows another authority for it.
pub proof fn lemma_uri_authority_is_host(version: Version, a: Seq<char>, known: Option<Seq<char>>)
    requires
        version != Version::H2,
        known is None || known == Some(a),
    ensures
        classified(version, false, Some(a), known) == ProtocolView::Http1(HostView::Authority(a)),
{
}

/// The known authority comes before the one in the URI.
pub proof fn lemma_known_authority_is_host(
    version: Version,
    uri_authority: Option<Seq<char>>,
    a: Seq<char>,
)
    requires
        version != Version::H2,
    ensures
        classified(version, false, uri_authority, Some(a)) == ProtocolView::Http1(
            HostView::Authority(a),
        ),
{
}

/// A protocol is cachable exactly when it is HTTP/2 or HTTP/1.x with an
/// authority, and not cachable exactly when it is HTTP/1.x without one.
pub proof fn lemma_cachable_table(protocol: ProtocolView)
    ensures
        protocol.cachable() <==> (protocol is Http2 || (protocol matches ProtocolView::Http1(
            h,
        ) && h is Authority)),
        !protocol.cachable() <==> protocol == ProtocolView::Http1(HostView::NoAuthority),
{
}

/// A routing key is reusable exactly when its protocol is cachable, and
/// it holds the key and the protocol that it was made from.
pub proof fn lemma_key_marks_cachable<K>(protocol: Protocol, key: K)
    ensures
        routing_key(protocol, key) is Reusable <==> protocol@.cachable(),
        routing_key(protocol, key) is SingleUse <==> !protocol@.cachable(),
        routing_key(protocol, key).spec_key() == key,
        routing_key(protocol, key).spec_protocol() == protocol,
{
}

/// Every key is reusable with HTTP/2.
pub proof fn lemma_http2_key_is_reusable<K>(key: K)
    ensures
        routing_key(Protocol::Http2, key) == RouterKey::Reusable(key, Protocol::Http2),
{
}

/// Whether `event` reports how the connector ended attempt `attempt`.
pub open spec fn connector_outcome(event: Event, attempt: u64) -> bool {
    event == Event::ConnectSucceeded(attempt) || event == Event::ConnectFailed(attempt)
}

/// When the timer of the current attempt runs out before the connector
/// has an outcome, the invocation fails with the timeout error and the
/// service is idle. Whatever the connector reports of that attempt
/// afterwards changes nothing.
pub proof fn lemma_timeout_comes_first(attempt: u64, late: Event)
    requires
        connector_outcome(late, attempt),
    ensures
        ({
            let connecting = Phase { state: State::Connecting, attempt };
            let (timed_out, action) = transition(connecting, Event::TimerExpired(attempt));
            &&& action == Action::Fail(ServiceError::ConnectTimeout)
            &&& timed_out.state == State::Idle
            &&& transition(timed_out, late) == (timed_out, Action::Ignore)
        }),
{
}

/// After the connector has failed, the service is idle, and the next
/// invocation starts an attempt with a number of its own. Events of the
/// failed attempt no longer count; when the fresh attempt succeeds, the
/// service is connected and an invocation sends.
pub proof fn lemma_reconnects_afresh(attempt: u64, stale: Event)
    requires
        stale.attempt() == Some(attempt),
    ensures
        ({
            let connecting = Phase { state: State::Connecting, attempt };
            let (failed, first) = transition(connecting, Event::ConnectFailed(attempt));
            let (retrying, second) = transition(failed, Event::Invoked);
            let fresh = next_attempt(attempt);
            let (connected, third) = transition(retrying, Event::ConnectSucceeded(fresh));
            &&& first == Action::Fail(ServiceError::Connect)
            &&& failed.state == State::Idle
            &&& fresh != attempt
            &&& second == Action::Connect(fresh)
            &&& retrying == (Phase { state: State::Connecting, attempt: fresh })
            &&& transition(retrying, stale) == (retrying, Action::Ignore)
            &&& third == Action::Ready
            &&& connected.state == State::Connected
            &&& transition(connected, Event::Invoked) == (connected, Action::Send)
        }),
{
}

/// The same holds after the established connection has failed: the next
/// invocation connects afresh.
pub proof fn lemma_reconnects_after_loss(attempt: u64)
    ensures
        ({
            let connected = Phase { state: State::Connected, attempt };
            let (lost, first) = transition(connected, Event::ConnectionFailed(attempt));
            &&& first == Action::Fail(ServiceError::Connection)
            &&& lost.state == State::Idle
            &&& transition(lost, Event::Invoked).1 == Action::Connect(next_attempt(attempt))
            &&& next_attempt(attempt) != attempt
        }),
{
}

/// A service connects only when it is invoked while idle: no event starts
/// an attempt by itself, and no invocation sends before the connection
/// stands.
pub proof fn lemma_connects_on_demand(phase: Phase, event: Event)
    ensures
        transition(phase, event).1 is Connect <==> (phase.state == State::Idle && event
            == Event::Invoked),
        transition(phase, event).1 == Action::Send <==> (phase.state == State::Connected && event
            == Event::Invoked),
{
}

/// The services of a factory and of its clone draw their ids from one
/// counter.
pub proof fn lemma_clone_shares_counter<C: Clone, B>(
    origin: Bind<C, B>,
    copy: Bind<C, B>,
    addr_a: SocketAddr,
    protocol_a: Protocol,
    service_a: Service<C>,
    addr_b: SocketAddr,
    protocol_b: Protocol,
    service_b: Service<C>,
)
    requires
        copy.is_clone_of(origin),
        origin.bound(addr_a, protocol_a, service_a),
        copy.bound(addr_b, protocol_b, service_b),
    ensures
        service_a.inner().next_id == origin.req_ids(),
        service_b.inner().next_id == origin.req_ids(),
        service_a.inner().next_id == service_b.inner().next_id,
{
}

} // verus!
