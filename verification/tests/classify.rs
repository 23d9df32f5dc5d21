use bind::authority::Authority;
use bind::protocol::{Host, Protocol, RequestInfo, RouterKey, Version};
use bind::request::RewriteToOrigDst;

fn authority(text: &str) -> Authority {
    Authority::parse(text).expect("a valid authority")
}

fn info(version: Version, marker: bool, uri: Option<&str>) -> RequestInfo {
    RequestInfo {
        version,
        rewrites_to_orig_dst: marker,
        uri_authority: uri.map(authority),
    }
}

fn request(version: http::Version, uri: &str) -> http::Request<()> {
    let mut builder = http::Request::builder();
    builder.version(version);
    builder.uri(uri);
    builder.body(()).expect("a valid request")
}

fn http1(text: &str) -> Protocol {
    Protocol::Http1(Host::Authority(authority(text)))
}

#[test]
fn authority_accepts_host_and_port() {
    let a = authority("svc.local:80");
    assert_eq!(a.as_str(), "svc.local:80");
}

#[test]
fn authority_keeps_the_text_as_given() {
    assert_eq!(authority("Svc.Local").as_str(), "Svc.Local");
}

#[test]
fn authority_rejects_the_empty_text() {
    assert!(Authority::parse("").is_none());
}

#[test]
fn authority_rejects_two_ports() {
    assert!(Authority::parse("localhost:8080:3030").is_none());
}

#[test]
fn authority_rejects_a_path() {
    assert!(Authority::parse("svc.local/x").is_none());
}

#[test]
fn authority_rejects_a_space() {
    assert!(Authority::parse("svc local").is_none());
}

#[test]
fn authority_equality_is_by_text() {
    assert_eq!(authority("svc.local:80"), authority("svc.local:80"));
    assert_ne!(authority("svc.local:80"), authority("svc.local:81"));
    assert_eq!(authority("svc.local:80").clone(), authority("svc.local:80"));
}

#[test]
fn host_equality() {
    assert_eq!(Host::NoAuthority, Host::NoAuthority);
    assert_eq!(Host::Authority(authority("a:1")), Host::Authority(authority("a:1")));
    assert_ne!(Host::Authority(authority("a:1")), Host::Authority(authority("b:1")));
    assert_ne!(Host::Authority(authority("a:1")), Host::NoAuthority);
}

#[test]
fn host_from_authority() {
    assert_eq!(Host::from_authority(None), Host::NoAuthority);
    assert_eq!(Host::from_authority(Some(authority("a:1"))), Host::Authority(authority("a:1")));
    assert_eq!(Host::Authority(authority("a:1")).authority(), Some(&authority("a:1")));
    assert_eq!(Host::NoAuthority.authority(), None);
}

#[test]
fn protocol_equality_and_clone() {
    assert_eq!(Protocol::Http2, Protocol::Http2);
    assert_ne!(Protocol::Http2, Protocol::Http1(Host::NoAuthority));
    assert_ne!(http1("a:1"), Protocol::Http1(Host::NoAuthority));
    assert_eq!(http1("a:1").clone(), http1("a:1"));
    assert_eq!(Protocol::Http1(Host::NoAuthority).clone(), Protocol::Http1(Host::NoAuthority));
}

#[test]
fn classify_http2_without_authority() {
    let p = Protocol::classify(&info(Version::H2, false, None), None);
    assert_eq!(p, Protocol::Http2);
}

#[test]
fn classify_http2_ignores_marker_and_authorities() {
    let known = authority("known.local:1");
    let p = Protocol::classify(&info(Version::H2, true, Some("svc.local:80")), Some(&known));
    assert_eq!(p, Protocol::Http2);
}

#[test]
fn classify_marker_wins_over_uri_authority() {
    let p = Protocol::classify(&info(Version::Http11, true, Some("svc.local:80")), None);
    assert_eq!(p, Protocol::Http1(Host::NoAuthority));
}

#[test]
fn classify_marker_wins_over_known_authority() {
    let known = authority("known.local:1");
    let p = Protocol::classify(&info(Version::Http10, true, None), Some(&known));
    assert_eq!(p, Protocol::Http1(Host::NoAuthority));
}

#[test]
fn classify_uri_authority() {
    let p = Protocol::classify(&info(Version::Http11, false, Some("svc.local:80")), None);
    assert_eq!(p, http1("svc.local:80"));
}

#[test]
fn classify_known_authority_comes_first() {
    let known = authority("known.local:1");
    let p = Protocol::classify(&info(Version::Http11, false, Some("svc.local:80")), Some(&known));
    assert_eq!(p, http1("known.local:1"));
}

#[test]
fn classify_without_any_authority() {
    for version in [Version::Http09, Version::Http10, Version::Http11] {
        let p = Protocol::classify(&info(version, false, None), None);
        assert_eq!(p, Protocol::Http1(Host::NoAuthority));
    }
}

#[test]
fn from_req_http2_without_authority() {
    let req = request(http::Version::HTTP_2, "/");
    assert_eq!(Protocol::from_req(&req, None), Protocol::Http2);
}

#[test]
fn from_req_http2_with_marker_and_authority() {
    let mut req = request(http::Version::HTTP_2, "http://svc.local:80/x");
    req.extensions_mut().insert(RewriteToOrigDst);
    assert_eq!(Protocol::from_req(&req, None), Protocol::Http2);
}

#[test]
fn from_req_marker_hides_uri_authority() {
    let mut req = request(http::Version::HTTP_11, "http://svc.local:80/x");
    req.extensions_mut().insert(RewriteToOrigDst);
    assert_eq!(Protocol::from_req(&req, None), Protocol::Http1(Host::NoAuthority));
}

#[test]
fn from_req_uri_authority() {
    let req = request(http::Version::HTTP_11, "http://svc.local:80/x");
    assert_eq!(Protocol::from_req(&req, None), http1("svc.local:80"));
}

#[test]
fn from_req_known_authority() {
    let known = authority("known.local:1");
    let req = request(http::Version::HTTP_11, "/x");
    assert_eq!(Protocol::from_req(&req, Some(&known)), http1("known.local:1"));
}

#[test]
fn from_req_origin_form_has_no_authority() {
    let req = request(http::Version::HTTP_10, "/x");
    assert_eq!(Protocol::from_req(&req, None), Protocol::Http1(Host::NoAuthority));
}

#[test]
fn request_info_reads_each_version() {
    let versions = [
        (http::Version::HTTP_09, Version::Http09),
        (http::Version::HTTP_10, Version::Http10),
        (http::Version::HTTP_11, Version::Http11),
        (http::Version::HTTP_2, Version::H2),
    ];
    for (wire, expected) in versions {
        let read = RequestInfo::read(&request(wire, "http://svc.local:80/x"));
        assert_eq!(read.version, expected);
        assert!(!read.rewrites_to_orig_dst);
        assert_eq!(read.uri_authority, Some(authority("svc.local:80")));
    }
}

#[test]
fn request_info_reads_the_marker() {
    let mut req = request(http::Version::HTTP_11, "/");
    req.extensions_mut().insert(RewriteToOrigDst);
    let read = RequestInfo::read(&req);
    assert!(read.rewrites_to_orig_dst);
    assert_eq!(read.uri_authority, None);
}

#[test]
fn is_cachable_table() {
    assert!(Protocol::Http2.is_cachable());
    assert!(http1("svc.local:80").is_cachable());
    assert!(!Protocol::Http1(Host::NoAuthority).is_cachable());
}

#[test]
fn into_key_http2_is_reusable() {
    for key in [0u32, 7, u32::MAX] {
        assert_eq!(Protocol::Http2.into_key(key), RouterKey::Reusable(key, Protocol::Http2));
    }
}

#[test]
fn into_key_with_authority_is_reusable() {
    let routed = http1("svc.local:80").into_key("k");
    assert_eq!(routed, RouterKey::Reusable("k", http1("svc.local:80")));
    assert!(routed.is_reusable());
    assert_eq!(*routed.key(), "k");
    assert_eq!(*routed.protocol(), http1("svc.local:80"));
}

#[test]
fn into_key_without_authority_is_single_use() {
    let routed = Protocol::Http1(Host::NoAuthority).into_key(3u8);
    assert_eq!(routed, RouterKey::SingleUse(3u8, Protocol::Http1(Host::NoAuthority)));
    assert!(!routed.is_reusable());
    assert_eq!(*routed.key(), 3u8);
    assert_eq!(*routed.protocol(), Protocol::Http1(Host::NoAuthority));
}

#[test]
fn request_info_from_parts_keeps_version_and_marker() {
    let with = RequestInfo::from_parts(Version::Http10, Some(RewriteToOrigDst), None);
    assert_eq!(with.version, Version::Http10);
    assert!(with.rewrites_to_orig_dst);
    assert_eq!(with.uri_authority, None);
    let without = RequestInfo::from_parts(Version::H2, None, None);
    assert_eq!(without.version, Version::H2);
    assert!(!without.rewrites_to_orig_dst);
}

#[test]
fn request_info_from_parts_parses_the_authority() {
    let valid = RequestInfo::from_parts(Version::Http11, None, Some("svc.local:80"));
    assert_eq!(valid.uri_authority, Some(authority("svc.local:80")));
    let invalid = RequestInfo::from_parts(Version::Http11, None, Some("localhost:8080:3030"));
    assert_eq!(invalid.uri_authority, None);
    let empty = RequestInfo::from_parts(Version::Http11, None, Some(""));
    assert_eq!(empty.uri_authority, None);
}
