//! Reading `http` requests.

use std::sync::Arc;
use vstd::prelude::*;
use crate::addr::SocketAddr;
use crate::authority::Authority;
use crate::authority::valid_authority;
use crate::ctx::Server;
use crate::protocol::classified;
use crate::protocol::text_of_ref;
use crate::protocol::Protocol;
use crate::protocol::RequestInfo;
use crate::protocol::Version;

verus! {

#[verifier::external_type_specification]
#[verifier::external_body]
#[verifier::reject_recursive_types(B)]
pub struct ExRequest<B>(http::Request<B>);

/// Put into a request's extensions by the proxy when it forwards the
/// request to the original destination of its connection instead of to a
/// name that the application supplied.
#[derive(Clone, Copy, Debug, PartialEq, Eq, Hash, Structural)]
pub struct RewriteToOrigDst;

/// Calls `http::Request::version` and maps the four versions that `http`
/// knows to the library's own. Nothing is claimed of the result.
#[verifier::external_body]
fn declared_version<B>(req: &http::Request<B>) -> Version {
    match req.version() {
        http::Version::HTTP_09 => Version::Http09,
        http::Version::HTTP_10 => Version::Http10,
        http::Version::HTTP_2 => Version::H2,
        _ => Version::Http11,
    }
}

/// Calls `http::Uri::authority_part` on the request's URI and copies the
/// authority's text. Nothing is claimed of the result.
#[verifier::external_body]
fn uri_authority_text<B>(req: &http::Request<B>) -> Option<String> {
    match req.uri().authority_part() {
        Some(a) => Some(a.as_str().to_owned()),
        None => None,
    }
}

/// Calls `http::Extensions::get` on the request's extensions and clones
/// the value found for the type `T`. Nothing is claimed of the result.
#[verifier::external_body]
fn extension<B, T: Clone + Send + Sync + 'static>(req: &http::Request<B>) -> Option<T> {
    req.extensions().get::<T>().cloned()
}

/// The original destination of an optional server context.
pub open spec fn orig_dst_of(server: Option<Server>) -> Option<SocketAddr> {
    match server {
        Some(s) => s.spec_orig_dst_if_not_local(),
        None => None,
    }
}

/// The original destination of the connection that `req` arrived on, as
/// the server context among the request's extensions has it. `None` when
/// the request carries no such context, when the context has no original
/// destination, or when that destination is the proxy's own listener.
pub fn request_orig_dst<B>(req: &http::Request<B>) -> (dst: Option<SocketAddr>)
    ensures
        exists|server: Option<Server>| dst == orig_dst_of(server),
{
    match extension::<B, Arc<Server>>(req) {
        Some(server) => {
            let dst = server.orig_dst_if_not_local();
            assert(dst == orig_dst_of(Some(*server)));
            dst
        },
        None => {
            assert(orig_dst_of(None) == None::<SocketAddr>);
            None
        },
    }
}

impl RequestInfo {
    /// Reads from `req` what the classifier needs: the declared version,
    /// the marker, and the URI's authority where it parses as one.
    pub fn read<B>(req: &http::Request<B>) -> (info: RequestInfo)
        ensures
            info.uri_authority matches Some(a) ==> valid_authority(a@),
    {
        let version = declared_version(req);
        let marker: Option<RewriteToOrigDst> = extension(req);
        let text = uri_authority_text(req);
        let uri_authority = match &text {
            Some(t) => Some(t.as_str()),
            None => None,
        };
        RequestInfo::from_parts(version, marker, uri_authority)
    }

    /// Puts together what was read of a request: its version, the marker
    /// if it carries one, and the text of its URI's authority if it has
    /// one. A text that is no valid authority counts as none.
    pub fn from_parts(
        version: Version,
        marker: Option<RewriteToOrigDst>,
        uri_authority: Option<&str>,
    ) -> (info: RequestInfo)
        ensures
            info.version == version,
            info.rewrites_to_orig_dst == (marker is Some),
            crate::protocol::text_of(info.uri_authority) == accepted(
                match uri_authority {
                    Some(text) => Some(text@),
                    None => None,
                },
            ),
    {
        let uri_authority = match uri_authority {
            Some(text) => Authority::parse(text),
            None => None,
        };
        RequestInfo { version, rewrites_to_orig_dst: marker.is_some(), uri_authority }
    }
}

/// The authority that a text stands for: the text itself where it is a
/// valid authority, none otherwise.
pub open spec fn accepted(text: Option<Seq<char>>) -> Option<Seq<char>> {
    match text {
        Some(t) if valid_authority(t) => Some(t),
        _ => None,
    }
}

impl Protocol {
    /// Classifies `req`: reads it, then applies `classify`. Whatever the
    /// request holds, the result is the classification of some version,
    /// marker and valid URI authority together with `known`.
    pub fn from_req<B>(req: &http::Request<B>, known: Option<&Authority>) -> (protocol: Protocol)
        ensures
            protocol@.wf(),
            exists|version: Version, marker: bool, uri: Option<Seq<char>>|
                protocol@ == #[trigger] classified(version, marker, uri, text_of_ref(known))
                    && (uri matches Some(a) ==> valid_authority(a)),
    {
        let info = RequestInfo::read(req);
        let protocol = Protocol::classify(&info, known);
        assert(protocol@ == classified(
            info.version,
            info.rewrites_to_orig_dst,
            crate::protocol::text_of(info.uri_authority),
            text_of_ref(known),
        ));
        protocol
    }
}

} // verus!
