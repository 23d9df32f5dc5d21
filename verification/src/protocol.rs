//! Classification of requests by wire protocol and destination host, and the
//! rule that says which classifications may share a cached service.

use vstd::prelude::*;
use vstd::std_specs::cmp::PartialEqSpecImpl;
use crate::authority::Authority;
use crate::authority::valid_authority;

verus! {

/// The HTTP version that a request declares.
#[derive(Clone, Copy, Debug, PartialEq, Eq, Hash, Structural)]
pub enum Version {
    Http09,
    Http10,
    Http11,
    H2,
}

/// The host part of the key of an HTTP/1.x destination.
#[derive(Debug, Hash)]
pub enum Host {
    /// The request names a stable authority.
    Authority(Authority),
    /// No authority could be determined for the request.
    NoAuthority,
}

/// What a `Host` is: the text of its authority, if it has one.
pub enum HostView {
    Authority(Seq<char>),
    NoAuthority,
}

/// The wire protocol spoken toward a destination.
#[derive(Debug, Hash)]
pub enum Protocol {
    /// HTTP/1.x, keyed by host.
    Http1(Host),
    /// HTTP/2, multiplexed and not keyed by host.
    Http2,
}

/// What a `Protocol` is.
pub enum ProtocolView {
    Http1(HostView),
    Http2,
}

impl View for Host {
    type V = HostView;

    open spec fn view(&self) -> HostView {
        match self {
            Host::Authority(a) => HostView::Authority(a@),
            Host::NoAuthority => HostView::NoAuthority,
        }
    }
}

impl View for Protocol {
    type V = ProtocolView;

    open spec fn view(&self) -> ProtocolView {
        match self {
            Protocol::Http1(h) => ProtocolView::Http1(h@),
            Protocol::Http2 => ProtocolView::Http2,
        }
    }
}

impl HostView {
    /// A host is well formed when its authority, if any, is one that the
    /// parser accepts.
    pub open spec fn wf(self) -> bool {
        match self {
            HostView::Authority(a) => valid_authority(a),
            HostView::NoAuthority => true,
        }
    }
}

impl ProtocolView {
    /// A protocol is well formed when its host is.
    pub open spec fn wf(self) -> bool {
        match self {
            ProtocolView::Http1(h) => h.wf(),
            ProtocolView::Http2 => true,
        }
    }

    /// Whether a service built for this protocol may be shared by several
    /// requests: HTTP/2 always, HTTP/1.x only with a known authority.
    pub open spec fn cachable(self) -> bool {
        match self {
            ProtocolView::Http2 => true,
            ProtocolView::Http1(HostView::Authority(_)) => true,
            ProtocolView::Http1(HostView::NoAuthority) => false,
        }
    }
}

/// The text of an optional authority.
pub open spec fn text_of(authority: Option<Authority>) -> Option<Seq<char>> {
    match authority {
        Some(a) => Some(a@),
        None => None,
    }
}

/// The host that an authority, or the lack of one, stands for.
pub open spec fn host_of(authority: Option<Seq<char>>) -> HostView {
    match authority {
        Some(a) => HostView::Authority(a),
        None => HostView::NoAuthority,
    }
}

/// The classification of a request with the given version, marker and URI
/// authority, when `known` is the authority that the caller already has.
///
/// HTTP/2 needs no host. An HTTP/1.x request that is forwarded to its
/// original destination has none that could be trusted. Otherwise the known
/// authority comes first, then the one in the URI.
pub open spec fn classified(
    version: Version,
    rewrites_to_orig_dst: bool,
    uri_authority: Option<Seq<char>>,
    known: Option<Seq<char>>,
) -> ProtocolView {
    if version == Version::H2 {
        ProtocolView::Http2
    } else if rewrites_to_orig_dst {
        ProtocolView::Http1(HostView::NoAuthority)
    } else if known is Some {
        ProtocolView::Http1(host_of(known))
    } else {
        ProtocolView::Http1(host_of(uri_authority))
    }
}

/// The text of an optional borrowed authority.
pub open spec fn text_of_ref(authority: Option<&Authority>) -> Option<Seq<char>> {
    match authority {
        Some(a) => Some(a@),
        None => None,
    }
}

/// What the classifier reads of a request.
#[derive(Debug)]
pub struct RequestInfo {
    /// The version that the request declares.
    pub version: Version,
    /// Whether the request is marked as forwarded to its original
    /// destination rather than to a name that the application gave.
    pub rewrites_to_orig_dst: bool,
    /// The authority in the request's URI, if it has one.
    pub uri_authority: Option<Authority>,
}

/// A routing key: a caller's key and a protocol, marked with whether a
/// service found under it may be shared.
#[derive(Clone, Debug, PartialEq, Eq, Hash)]
pub enum RouterKey<K> {
    /// The key may be cached and looked up by later requests.
    Reusable(K, Protocol),
    /// The key is good for one request and is never cached.
    SingleUse(K, Protocol),
}

impl<K> RouterKey<K> {
    /// The protocol inside the key.
    pub open spec fn spec_protocol(self) -> Protocol {
        match self {
            RouterKey::Reusable(_, p) => p,
            RouterKey::SingleUse(_, p) => p,
        }
    }

    /// The caller's key inside the key.
    pub open spec fn spec_key(self) -> K {
        match self {
            RouterKey::Reusable(k, _) => k,
            RouterKey::SingleUse(k, _) => k,
        }
    }

    /// Whether the key may be cached.
    pub fn is_reusable(&self) -> (reusable: bool)
        ensures
            reusable == (*self is Reusable),
    {
        match self {
            RouterKey::Reusable(_, _) => true,
            RouterKey::SingleUse(_, _) => false,
        }
    }

    /// The caller's key.
    pub fn key(&self) -> (key: &K)
        ensures
            *key == self.spec_key(),
    {
        match self {
            RouterKey::Reusable(k, _) => k,
            RouterKey::SingleUse(k, _) => k,
        }
    }

    /// The protocol that the key was made for.
    pub fn protocol(&self) -> (protocol: &Protocol)
        ensures
            *protocol == self.spec_protocol(),
    {
        match self {
            RouterKey::Reusable(_, p) => p,
            RouterKey::SingleUse(_, p) => p,
        }
    }
}

/// The routing key of `protocol` and `key`: reusable when the protocol is
/// cachable, single-use when it is not.
pub open spec fn routing_key<K>(protocol: Protocol, key: K) -> RouterKey<K> {
    if protocol@.cachable() {
        RouterKey::Reusable(key, protocol)
    } else {
        RouterKey::SingleUse(key, protocol)
    }
}

impl Protocol {
    /// Classifies a request from what was read of it. `known` is an
    /// authority that the caller has already resolved for the request, if
    /// any. Every request has exactly one classification.
    pub fn classify(info: &RequestInfo, known: Option<&Authority>) -> (protocol: Protocol)
        ensures
            protocol@ == classified(
                info.version,
                info.rewrites_to_orig_dst,
                text_of(info.uri_authority),
                text_of_ref(known),
            ),
            protocol@.wf(),
    {
        match info.version {
            Version::H2 => {
                return Protocol::Http2;
            },
            _ => {},
        }
        if info.rewrites_to_orig_dst {
            return Protocol::Http1(Host::NoAuthority);
        }
        let chosen: Option<Authority> = match known {
            Some(a) => Some(a.clone()),
            None => match &info.uri_authority {
                Some(a) => Some(a.clone()),
                None => None,
            },
        };
        Protocol::Http1(Host::from_authority(chosen))
    }

    /// Whether a service bound for this protocol may be shared by the
    /// requests that have the same routing key.
    pub fn is_cachable(&self) -> (cachable: bool)
        ensures
            cachable == self@.cachable(),
    {
        match self {
            Protocol::Http2 => true,
            Protocol::Http1(Host::Authority(_)) => true,
            Protocol::Http1(Host::NoAuthority) => false,
        }
    }

    /// Joins the protocol with a caller's key. The result is reusable
    /// exactly when the protocol is cachable.
    pub fn into_key<K>(self, key: K) -> (routed: RouterKey<K>)
        ensures
            routed == routing_key(self, key),
    {
        if self.is_cachable() {
            RouterKey::Reusable(key, self)
        } else {
            RouterKey::SingleUse(key, self)
        }
    }
}

impl Host {
    /// The host of an optional authority.
    pub fn from_authority(authority: Option<Authority>) -> (host: Host)
        ensures
            host@ == host_of(text_of(authority)),
            host@.wf(),
    {
        match authority {
            Some(a) => {
                let ghost text = a@;
                let _ = a.as_str();
                assert(valid_authority(text));
                Host::Authority(a)
            },
            None => Host::NoAuthority,
        }
    }

    /// The authority of the host, if it has one.
    pub fn authority(&self) -> (authority: Option<&Authority>)
        ensures
            self@.wf(),
            match authority {
                Some(a) => self@ == HostView::Authority(a@),
                None => self@ == HostView::NoAuthority,
            },
    {
        match self {
            Host::Authority(a) => {
                let _ = a.as_str();
                Some(a)
            },
            Host::NoAuthority => None,
        }
    }
}

impl Clone for Host {
    fn clone(&self) -> (copy: Host)
        ensures
            copy@ == self@,
    {
        match self {
            Host::Authority(a) => Host::Authority(a.clone()),
            Host::NoAuthority => Host::NoAuthority,
        }
    }
}

impl PartialEq for Host {
    fn eq(&self, other: &Host) -> (same: bool) {
        match (self, other) {
            (Host::Authority(a), Host::Authority(b)) => a == b,
            (Host::NoAuthority, Host::NoAuthority) => true,
            _ => false,
        }
    }
}

impl Eq for Host {}

impl PartialEqSpecImpl for Host {
    open spec fn obeys_eq_spec() -> bool {
        true
    }

    open spec fn eq_spec(&self, other: &Host) -> bool {
        self@ == other@
    }
}

impl Clone for Protocol {
    fn clone(&self) -> (copy: Protocol)
        ensures
            copy@ == self@,
    {
        match self {
            Protocol::Http1(h) => Protocol::Http1(h.clone()),
            Protocol::Http2 => Protocol::Http2,
        }
    }
}

impl PartialEq for Protocol {
    fn eq(&self, other: &Protocol) -> (same: bool) {
        match (self, other) {
            (Protocol::Http1(a), Protocol::Http1(b)) => a == b,
            (Protocol::Http2, Protocol::Http2) => true,
            _ => false,
        }
    }
}

impl Eq for Protocol {}

impl PartialEqSpecImpl for Protocol {
    open spec fn obeys_eq_spec() -> bool {
        true
    }

    open spec fn eq_spec(&self, other: &Protocol) -> bool {
        self@ == other@
    }
}

} // verus!
