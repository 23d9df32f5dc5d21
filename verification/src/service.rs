//! The layers of a bound service, from the raw connector outwards. Each
//! layer is a value that records what it was built from; none of them does
//! any I/O.

use std::sync::atomic::AtomicUsize;
use std::sync::atomic::Ordering;
use std::sync::Arc;
use tokio_core::reactor::Handle;
use vstd::prelude::*;
use crate::addr::SocketAddr;
use crate::ctx;
use crate::protocol::Protocol;
use crate::reconnect::Reconnect;

verus! {

/// Calls `Arc::clone`: another pointer to the same value.
#[verifier::external_body]
pub(crate) fn share<T>(shared: &Arc<T>) -> (other: Arc<T>)
    ensures
        other == *shared,
{
    Arc::clone(shared)
}

/// Whether connections and exchanges are to be reported to telemetry.
#[derive(Clone, Copy, Debug, PartialEq, Eq, Hash, Structural)]
pub struct Sensors {
    recording: bool,
}

/// The connector proper: where to connect, and on which event loop.
#[derive(Debug)]
pub struct Connect {
    pub addr: SocketAddr,
    pub executor: Handle,
}

/// Bounds how long `inner` may take, in milliseconds.
#[derive(Debug)]
pub struct Timeout<T> {
    pub inner: T,
    pub duration_ms: u64,
    pub executor: Handle,
}

/// Reports what `inner` does to `sensors`, labelled with `ctx`.
#[derive(Debug)]
pub struct SensorConnect<C> {
    pub inner: Timeout<Connect>,
    pub sensors: Sensors,
    pub ctx: Arc<ctx::Client<C>>,
}

/// An HTTP client that speaks `protocol` over what `connect` establishes.
#[derive(Debug)]
pub struct Client<C> {
    pub protocol: Protocol,
    pub connect: SensorConnect<C>,
    pub executor: Handle,
}

/// Reports each exchange of `client` to `sensors`, labelled with `ctx` and
/// with an id drawn from `next_id`.
#[derive(Debug)]
pub struct NewHttp<C> {
    pub next_id: Arc<AtomicUsize>,
    pub client: Client<C>,
    pub sensors: Sensors,
    pub ctx: Arc<ctx::Client<C>>,
}

/// A bound service: the HTTP layers behind the reconnect layer.
pub type Service<C> = Reconnect<NewHttp<C>>;

impl Connect {
    /// A connector to `addr` on the event loop of `executor`.
    pub fn new(addr: SocketAddr, executor: &Handle) -> (connect: Connect)
        ensures
            connect.addr == addr,
    {
        Connect { addr, executor: executor.clone() }
    }
}

impl<T> Timeout<T> {
    /// Bounds `inner` by `duration_ms` milliseconds, timed on the event
    /// loop of `executor`.
    pub fn new(inner: T, duration_ms: u64, executor: &Handle) -> (timeout: Timeout<T>)
        ensures
            timeout.inner == inner,
            timeout.duration_ms == duration_ms,
    {
        Timeout { inner, duration_ms, executor: executor.clone() }
    }
}

impl<C> Client<C> {
    /// A client that speaks `protocol` over `connect`.
    pub fn new(protocol: &Protocol, connect: SensorConnect<C>, executor: Handle) -> (client: Client<C>)
        ensures
            client.protocol@ == protocol@,
            client.connect == connect,
            client.executor == executor,
    {
        Client { protocol: protocol.clone(), connect, executor }
    }
}

impl<C> NewHttp<C> {
    /// Draws the id of the next exchange: one atomic `fetch_add` of 1 on
    /// the shared counter. The counter is shared with every service of the
    /// same factory, so nothing is known here of the value that comes back.
    pub fn next_request_id(&self) -> usize {
        self.next_id.fetch_add(1, Ordering::SeqCst)
    }
}

impl Sensors {
    /// Sensors that report nothing.
    pub fn null() -> (sensors: Sensors)
        ensures
            sensors.is_null_spec(),
    {
        Sensors { recording: false }
    }

    /// Sensors that report.
    pub fn recording() -> (sensors: Sensors)
        ensures
            !sensors.is_null_spec(),
    {
        Sensors { recording: true }
    }

    /// Whether the sensors report nothing.
    pub closed spec fn is_null_spec(self) -> bool {
        !self.recording
    }

    /// Whether the sensors report nothing.
    pub fn is_null(&self) -> (null: bool)
        ensures
            null == self.is_null_spec(),
    {
        !self.recording
    }

    /// Wraps a connector so that its connections are reported.
    pub fn connect<C>(&self, connect: Timeout<Connect>, ctx: &Arc<ctx::Client<C>>) -> (sensed:
        SensorConnect<C>)
        ensures
            sensed.inner == connect,
            sensed.sensors == *self,
            sensed.ctx == *ctx,
    {
        SensorConnect { inner: connect, sensors: *self, ctx: share(ctx) }
    }

    /// Wraps an HTTP client so that its exchanges are reported, each under
    /// an id from `next_id`.
    pub fn http<C>(
        &self,
        next_id: Arc<AtomicUsize>,
        client: Client<C>,
        ctx: &Arc<ctx::Client<C>>,
    ) -> (sensed: NewHttp<C>)
        ensures
            sensed.next_id == next_id,
            sensed.client == client,
            sensed.sensors == *self,
            sensed.ctx == *ctx,
    {
        NewHttp { next_id, client, sensors: *self, ctx: share(ctx) }
    }
}

} // verus!
