//! Contexts that label a connection for whoever observes it.

use vstd::prelude::*;
use crate::addr::SocketAddr;

verus! {

/// The transport protocol that a connection is labelled with.
#[derive(Clone, Copy, Debug, PartialEq, Eq, Hash, Structural)]
pub enum TransportProtocol {
    Http,
    Tcp,
}

/// What is known of an accepted connection: the address it was accepted
/// on, the peer, and the destination it was on its way to when it was
/// intercepted.
#[derive(Clone, Copy, Debug, PartialEq, Eq, Hash)]
pub struct Server {
    pub local: SocketAddr,
    pub remote: SocketAddr,
    pub orig_dst: Option<SocketAddr>,
}

impl Server {
    /// The original destination, unless it is the listening address
    /// itself: forwarding there would loop.
    pub open spec fn spec_orig_dst_if_not_local(self) -> Option<SocketAddr> {
        match self.orig_dst {
            Some(dst) if dst != self.local => Some(dst),
            _ => None,
        }
    }

    /// The original destination, unless it is the listening address
    /// itself.
    pub fn orig_dst_if_not_local(&self) -> (dst: Option<SocketAddr>)
        ensures
            dst == self.spec_orig_dst_if_not_local(),
    {
        match self.orig_dst {
            Some(dst) => {
                if dst == self.local {
                    None
                } else {
                    Some(dst)
                }
            },
            None => None,
        }
    }
}

/// The context of one outbound connection: the proxy it belongs to, the
/// address it goes to and the protocol it carries.
#[derive(Debug)]
pub struct Client<C> {
    pub proxy: C,
    pub remote: SocketAddr,
    pub protocol: TransportProtocol,
}

impl<C: Clone> Client<C> {
    /// The context of a connection of `proxy` to `remote`.
    pub fn new(proxy: &C, remote: &SocketAddr, protocol: TransportProtocol) -> (ctx: Client<C>)
        ensures
            cloned(*proxy, ctx.proxy),
            ctx.remote == *remote,
            ctx.protocol == protocol,
    {
        Client { proxy: proxy.clone(), remote: *remote, protocol }
    }
}

} // verus!
