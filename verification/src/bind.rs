//! The connection factory: from an address and a protocol to a service
//! that is ready to be invoked and not yet connected.

use std::marker::PhantomData;
use std::sync::atomic::AtomicUsize;
use std::sync::Arc;
use tokio_core::reactor::Handle;
use vstd::prelude::*;
use crate::addr::SocketAddr;
use crate::ctx;
use crate::ctx::TransportProtocol;
use crate::protocol::Protocol;
use crate::reconnect::Phase;
use crate::reconnect::Reconnect;
use crate::reconnect::State;
use crate::service::share;
use crate::service::Client;
use crate::service::Connect;
use crate::service::Sensors;
use crate::service::Service;
use crate::service::Timeout;

verus! {

/// The connect timeout of a factory that was given none, in milliseconds.
pub const DEFAULT_CONNECT_TIMEOUT_MS: u64 = 300;

/// Binds a service from a socket address.
///
/// `C` is the proxy-wide context, `()` until `with_ctx` supplies it. `B` is
/// the body type of the requests that the services will carry; no value of
/// it is kept.
#[derive(Debug)]
pub struct Bind<C, B> {
    ctx: C,
    sensors: Sensors,
    executor: Handle,
    req_ids: Arc<AtomicUsize>,
    connect_timeout_ms: u64,
    _p: PhantomData<B>,
}

/// Binds a service from a socket address for a protocol fixed in advance.
#[derive(Debug)]
pub struct BindProtocol<C, B> {
    bind: Bind<C, B>,
    protocol: Protocol,
}

/// Which of the two buffer tasks could not be spawned.
#[derive(Clone, Copy, Debug, PartialEq, Eq, Hash, Structural)]
pub enum BufferSpawnError {
    Inbound,
    Outbound,
}

impl BufferSpawnError {
    /// The error in words.
    pub fn description(&self) -> (text: &'static str)
        ensures
            text@ == match *self {
                BufferSpawnError::Inbound => "error spawning inbound buffer task"@,
                BufferSpawnError::Outbound => "error spawning outbound buffer task"@,
            },
    {
        match *self {
            BufferSpawnError::Inbound => "error spawning inbound buffer task",
            BufferSpawnError::Outbound => "error spawning outbound buffer task",
        }
    }
}

impl<B> Bind<(), B> {
    /// A factory on the event loop of `executor`, with no proxy context
    /// yet, sensors that report nothing, a fresh request-id counter and
    /// the default connect timeout.
    pub fn new(executor: Handle) -> (bind: Self)
        ensures
            bind.sensors().is_null_spec(),
            bind.connect_timeout_ms() == DEFAULT_CONNECT_TIMEOUT_MS,
            bind.executor_spec() == executor,
    {
        Bind {
            executor,
            ctx: (),
            sensors: Sensors::null(),
            req_ids: Arc::new(AtomicUsize::new(0)),
            connect_timeout_ms: DEFAULT_CONNECT_TIMEOUT_MS,
            _p: PhantomData,
        }
    }

    /// The same factory with `sensors` in place of its own.
    pub fn with_sensors(self, sensors: Sensors) -> (bind: Self)
        ensures
            bind.sensors() == sensors,
            bind.ctx() == self.ctx(),
            bind.req_ids() == self.req_ids(),
            bind.connect_timeout_ms() == self.connect_timeout_ms(),
            bind.executor_spec() == self.executor_spec(),
    {
        Bind {
            ctx: self.ctx,
            sensors,
            executor: self.executor,
            req_ids: self.req_ids,
            connect_timeout_ms: self.connect_timeout_ms,
            _p: PhantomData,
        }
    }

    /// The same factory with a connect timeout of `timeout_ms`
    /// milliseconds.
    pub fn with_connect_timeout(self, timeout_ms: u64) -> (bind: Self)
        ensures
            bind.connect_timeout_ms() == timeout_ms,
            bind.ctx() == self.ctx(),
            bind.sensors() == self.sensors(),
            bind.req_ids() == self.req_ids(),
            bind.executor_spec() == self.executor_spec(),
    {
        Bind {
            ctx: self.ctx,
            sensors: self.sensors,
            executor: self.executor,
            req_ids: self.req_ids,
            connect_timeout_ms: timeout_ms,
            _p: PhantomData,
        }
    }

    /// The same factory, now with the proxy context `ctx`. It keeps the
    /// counter, so ids go on where they were.
    pub fn with_ctx<C>(self, ctx: C) -> (bind: Bind<C, B>)
        ensures
            bind.ctx() == ctx,
            bind.sensors() == self.sensors(),
            bind.req_ids() == self.req_ids(),
            bind.connect_timeout_ms() == self.connect_timeout_ms(),
            bind.executor_spec() == self.executor_spec(),
    {
        Bind {
            ctx,
            sensors: self.sensors,
            executor: self.executor,
            req_ids: self.req_ids,
            connect_timeout_ms: self.connect_timeout_ms,
            _p: PhantomData,
        }
    }
}

impl<C: Clone, B> Clone for Bind<C, B> {
    /// A second factory with the same sensors and timeout, which draws
    /// its ids from the counter of the first.
    fn clone(&self) -> (copy: Self)
        ensures
            copy.is_clone_of(*self),
    {
        Bind {
            ctx: self.ctx.clone(),
            sensors: self.sensors,
            executor: self.executor.clone(),
            req_ids: share(&self.req_ids),
            connect_timeout_ms: self.connect_timeout_ms,
            _p: PhantomData,
        }
    }
}

impl<C, B> Bind<C, B> {
    /// The proxy context.
    pub closed spec fn ctx(&self) -> C {
        self.ctx
    }

    /// The sensors that the services report to.
    pub closed spec fn sensors(&self) -> Sensors {
        self.sensors
    }

    /// The counter that the ids of exchanges are drawn from.
    pub closed spec fn req_ids(&self) -> Arc<AtomicUsize> {
        self.req_ids
    }

    /// The connect timeout in milliseconds.
    pub closed spec fn connect_timeout_ms(&self) -> u64 {
        self.connect_timeout_ms
    }

    /// The handle of the event loop.
    pub closed spec fn executor_spec(&self) -> Handle {
        self.executor
    }

    /// The handle of the event loop.
    pub fn executor(&self) -> (executor: &Handle)
        ensures
            *executor == self.executor_spec(),
    {
        &self.executor
    }

    /// The connect timeout in milliseconds.
    pub fn connect_timeout(&self) -> (timeout_ms: u64)
        ensures
            timeout_ms == self.connect_timeout_ms(),
    {
        self.connect_timeout_ms
    }

    /// Whether `service` is what this factory binds for `addr` and
    /// `protocol`: not connected, no attempt made, and layer by layer built
    /// from the factory's counter, sensors, context and timeout. `client_ctx`
    /// is the context that labels the connection.
    pub open spec fn binds(
        &self,
        addr: SocketAddr,
        protocol: Protocol,
        client_ctx: ctx::Client<C>,
        service: Service<C>,
    ) -> bool {
        let http = service.inner();
        let client = http.client;
        let connect = client.connect;
        let timeout = connect.inner;
        &&& service.phase() == (Phase { state: State::Idle, attempt: 0 })
        &&& http.next_id == self.req_ids()
        &&& http.sensors == self.sensors()
        &&& *http.ctx == client_ctx
        &&& client.protocol@ == protocol@
        &&& connect.sensors == self.sensors()
        &&& *connect.ctx == client_ctx
        &&& timeout.duration_ms == self.connect_timeout_ms()
        &&& timeout.inner.addr == addr
    }

    /// Fixes the protocol, so that only the address is left to supply.
    pub fn with_protocol(self, protocol: Protocol) -> (bound: BindProtocol<C, B>)
        ensures
            bound.bind_spec() == self,
            bound.protocol_spec() == protocol,
    {
        BindProtocol { bind: self, protocol }
    }
}

impl<C: Clone, B> Bind<C, B> {
    /// Whether this factory may have come from `origin` by `clone`: the
    /// same counter, sensors and timeout, and a clone of the context.
    pub open spec fn is_clone_of(&self, origin: Self) -> bool {
        &&& cloned(origin.ctx(), self.ctx())
        &&& self.sensors() == origin.sensors()
        &&& self.req_ids() == origin.req_ids()
        &&& self.connect_timeout_ms() == origin.connect_timeout_ms()
    }

    /// Whether `service` is what this factory binds for `addr` and
    /// `protocol`, labelled with the context of a connection of this
    /// factory's proxy to `addr` that carries HTTP.
    pub open spec fn bound(&self, addr: SocketAddr, protocol: Protocol, service: Service<C>) -> bool {
        exists|client_ctx: ctx::Client<C>|
            {
                &&& cloned(self.ctx(), client_ctx.proxy)
                &&& client_ctx.remote == addr
                &&& client_ctx.protocol == TransportProtocol::Http
                &&& #[trigger] self.binds(addr, protocol, client_ctx, service)
            }
    }

    /// Assembles the service for `addr` and `protocol`. Nothing is
    /// connected: the service is idle until it is first invoked.
    ///
    /// From the inside out: a connector to `addr`; the connect timeout
    /// round it; the sensors round that, labelled with the connection's
    /// context; the HTTP client for `protocol`; the sensors again, with the
    /// factory's counter; and the reconnect layer.
    pub fn bind_service(&self, addr: &SocketAddr, protocol: &Protocol) -> (service: Service<C>)
        ensures
            self.bound(*addr, *protocol, service),
    {
        let client_ctx = Arc::new(ctx::Client::new(&self.ctx, addr, TransportProtocol::Http));
        let connect = self.sensors.connect(
            Timeout::new(Connect::new(*addr, &self.executor), self.connect_timeout_ms, &self.executor),
            &client_ctx,
        );
        let client = Client::new(protocol, connect, self.executor.clone());
        let proxy = self.sensors.http(share(&self.req_ids), client, &client_ctx);
        let service = Reconnect::new(proxy);
        assert(self.binds(*addr, *protocol, *client_ctx, service));
        service
    }
}

impl<C, B> BindProtocol<C, B> {
    /// The factory inside.
    pub closed spec fn bind_spec(&self) -> Bind<C, B> {
        self.bind
    }

    /// The protocol that was fixed.
    pub closed spec fn protocol_spec(&self) -> Protocol {
        self.protocol
    }

    /// The protocol that was fixed.
    pub fn protocol(&self) -> (protocol: &Protocol)
        ensures
            *protocol == self.protocol_spec(),
    {
        &self.protocol
    }
}

impl<C: Clone, B> BindProtocol<C, B> {
    /// Binds the service for `addr` and the fixed protocol. Never fails.
    pub fn bind(&self, addr: &SocketAddr) -> (bound: Result<Service<C>, ()>)
        ensures
            bound matches Ok(service) && self.bind_spec().bound(
                *addr,
                self.protocol_spec(),
                service,
            ),
    {
        Ok(self.bind.bind_service(addr, &self.protocol))
    }
}

} // verus!
