//! Rules of the HTTP client of a BOB node: the base path that requests are
//! sent under, the schemes a client accepts, the path of each request with
//! its identifiers percent-encoded, and what each status code of an answer
//! leads to.
use crate::text::{
    ascii_lowercase, chars_of, to_ascii_lowercase, decimal_text, digit_char, push_char, push_chars, push_decimal, push_signed_decimal,
    signed_decimal_text,
};
use vstd::string::{StrSliceExecFns, StringExecFns};
use std::str::FromStr;
use vstd::prelude::*;

verus! {

/// `hyper::http::uri::InvalidUri`, the error of a text that is not a URI;
/// carried through as it is.
#[verifier::external_type_specification]
#[verifier::external_body]
pub struct ExInvalidUri(hyper::http::uri::InvalidUri);

/// Error type failing to create a Client
#[derive(Debug)]
pub enum ClientInitError {
    /// Invalid URL Scheme
    InvalidScheme,
    /// Invalid URI
    InvalidUri(hyper::http::uri::InvalidUri),
    /// Missing Hostname
    MissingHost,
    /// Couldn't connect to all cluster
    NoCluster,
}

/// The parts of a parsed URI that the client reads.
pub struct UriParts {
    pub scheme: Option<String>,
    pub host: Option<String>,
    pub port: Option<u16>,
    pub path: String,
}

/// Scheme, host, port and path of a URI, as text.
pub type UriPartsView = (Option<Seq<char>>, Option<Seq<char>>, Option<u16>, Seq<char>);

pub open spec fn option_text(o: Option<String>) -> Option<Seq<char>> {
    match o {
        Some(s) => Some(s@),
        None => None,
    }
}

impl View for UriParts {
    type V = UriPartsView;

    open spec fn view(&self) -> UriPartsView {
        (option_text(self.scheme), option_text(self.host), self.port, self.path@)
    }
}

/// What parsing `text` as a URI (`hyper::http::Uri::from_str`) gives: `None`
/// where it is not a URI, else its scheme, host, port and path. It depends on
/// the text alone.
pub uninterp spec fn uri_components(text: Seq<char>) -> Option<UriPartsView>;

/// Calls `hyper::http::Uri::from_str` and reads the scheme, host, port and
/// path of the result. The contract claims only that success and the parts
/// are a function of the text; which texts parse, and to what, is left unsaid.
#[verifier::external_body]
pub(crate) fn parse_uri(text: &str) -> (r: Result<UriParts, hyper::http::uri::InvalidUri>)
    ensures
        r is Ok <==> uri_components(text@) is Some,
        r matches Ok(p) ==> uri_components(text@) == Some(p@),
{
    let uri = hyper::http::Uri::from_str(text)?;
    Ok(
        UriParts {
            scheme: uri.scheme_str().map(String::from),
            host: uri.host().map(String::from),
            port: uri.port_u16(),
            path: uri.path().to_string(),
        },
    )
}

/// `s` without its trailing slashes.
pub open spec fn trim_trailing_slashes(s: Seq<char>) -> Seq<char>
    decreases s.len(),
{
    if s.len() > 0 && s.last() == '/' {
        trim_trailing_slashes(s.drop_last())
    } else {
        s
    }
}

/// `:port` where the URI names a port, else nothing.
pub open spec fn port_suffix(port: Option<u16>) -> Seq<char> {
    match port {
        Some(x) => seq![':'].add(decimal_text(x as nat)),
        None => Seq::empty(),
    }
}

/// The base path of a URI with host `host`, sent under `scheme`: scheme,
/// `://`, host, port and path without trailing slashes.
pub open spec fn base_path_text(
    scheme: Seq<char>,
    host: Seq<char>,
    port: Option<u16>,
    path: Seq<char>,
) -> Seq<char> {
    scheme + "://"@ + host + port_suffix(port) + trim_trailing_slashes(path)
}

/// The scheme a base path is built with: the protocol where one is given,
/// else `http`.
pub open spec fn protocol_text(protocol: Option<Seq<char>>) -> Seq<char> {
    match protocol {
        Some(s) => s,
        None => "http"@,
    }
}

/// Whether the scheme of a URI fits the protocol asked for: no protocol is
/// asked for, the URI names no scheme, or both agree up to ASCII case.
pub open spec fn scheme_fits(scheme: Option<Seq<char>>, protocol: Option<Seq<char>>) -> bool {
    match (scheme, protocol) {
        (Some(s), Some(p)) => ascii_lowercase(s) == ascii_lowercase(p),
        _ => true,
    }
}

/// The base path that [`into_base_path`] makes of `input` for `protocol`, or
/// `None` where it fails.
pub open spec fn base_path_of(input: Seq<char>, protocol: Option<Seq<char>>) -> Option<Seq<char>> {
    match uri_components(input) {
        None => None,
        Some(p) => if !scheme_fits(p.0, protocol) || p.1 is None {
            None
        } else {
            Some(base_path_text(protocol_text(protocol), p.1->0, p.2, p.3))
        },
    }
}

/// The text of an optional string slice.
pub open spec fn opt_str_view(o: Option<&str>) -> Option<Seq<char>> {
    match o {
        Some(s) => Some(s@),
        None => None,
    }
}

/// The base path for a parsed URI under `scheme`: `Err(MissingHost)` where
/// it has no host.
pub fn base_path_from_parts(parts: &UriParts, scheme: &str) -> (r: Result<String, ClientInitError>)
    ensures
        r is Ok <==> parts.host is Some,
        r matches Ok(b) ==> b@ == base_path_text(scheme@, parts@.1->0, parts.port, parts.path@),
        parts.host is None ==> r matches Err(ClientInitError::MissingHost),
{
    let host = match &parts.host {
        Some(h) => h,
        None => {
            return Err(ClientInitError::MissingHost);
        },
    };
    let mut out = String::new();
    out.append(scheme);
    out.append("://");
    let host_chars = chars_of(host.as_str());
    push_chars(&mut out, &host_chars, 0, host_chars.len());
    assert(host_chars@.subrange(0, host_chars.len() as int) =~= host_chars@);
    let ghost before_port = out@;
    match parts.port {
        Some(x) => {
            push_char(&mut out, ':');
            push_decimal(&mut out, x as u64);
        },
        None => {},
    }
    assert(out@ =~= before_port + port_suffix(parts.port));
    let path = chars_of(parts.path.as_str());
    let mut end = path.len();
    assert(path@.subrange(0, end as int) =~= path@);
    while end > 0 && path[end - 1] == '/'
        invariant
            end <= path.len(),
            trim_trailing_slashes(path@) == trim_trailing_slashes(path@.subrange(0, end as int)),
        decreases end,
    {
        assert(path@.subrange(0, end as int).drop_last() =~= path@.subrange(0, end - 1));
        end = end - 1;
    }
    push_chars(&mut out, &path, 0, end);
    Ok(out)
}

/// Convert input into a base path, e.g. <http://example:123>, and check the
/// scheme as it goes: `Err(InvalidUri)` where the input is not a URI,
/// `Err(InvalidScheme)` where it names a scheme other than `protocol` (ASCII
/// case aside), `Err(MissingHost)` where it has no host. The base path starts
/// with `protocol`, or `http` where none is given.
pub fn into_base_path(input: &str, protocol: Option<&'static str>) -> (r: Result<
    String,
    ClientInitError,
>)
    ensures
        r is Ok <==> base_path_of(input@, opt_str_view(protocol)) is Some,
        r matches Ok(b) ==> base_path_of(input@, opt_str_view(protocol)) == Some(b@),
        uri_components(input@) is None ==> r matches Err(ClientInitError::InvalidUri(_)),
        uri_components(input@) matches Some(p) ==> {
            &&& (!scheme_fits(p.0, opt_str_view(protocol)) ==> r matches Err(
                ClientInitError::InvalidScheme,
            ))
            &&& (scheme_fits(p.0, opt_str_view(protocol)) && p.1 is None ==> r matches Err(
                ClientInitError::MissingHost,
            ))
        },
{
    let parts = match parse_uri(input) {
        Ok(parts) => parts,
        Err(e) => {
            return Err(ClientInitError::InvalidUri(e));
        },
    };
    if let (Some(scheme), Some(wanted)) = (&parts.scheme, protocol) {
        let given = to_ascii_lowercase(scheme.as_str());
        let asked = to_ascii_lowercase(wanted);
        if given != asked {
            return Err(ClientInitError::InvalidScheme);
        }
    }
    match protocol {
        Some(p) => base_path_from_parts(&parts, p),
        None => base_path_from_parts(&parts, "http"),
    }
}

/// Whether the scheme of a parsed URI lets the client be built: present, and
/// `http` up to ASCII case.
pub open spec fn scheme_is_http(scheme: Option<Seq<char>>) -> bool {
    scheme matches Some(s) && ascii_lowercase(s) == "http"@
}

/// The base path of an HTTP client for a parsed URI: `Err(InvalidScheme)`
/// where the scheme is missing or not `http`, then as
/// [`base_path_from_parts`].
pub fn http_base_path_from_parts(parts: &UriParts) -> (r: Result<String, ClientInitError>)
    ensures
        !scheme_is_http(parts@.0) ==> r matches Err(ClientInitError::InvalidScheme),
        scheme_is_http(parts@.0) ==> {
            &&& r is Ok <==> parts.host is Some
            &&& (parts.host is None ==> r matches Err(ClientInitError::MissingHost))
            &&& (r matches Ok(b) ==> b@ == base_path_text(
                "http"@,
                parts@.1->0,
                parts.port,
                parts.path@,
            ))
        },
{
    let scheme = match &parts.scheme {
        Some(s) => s,
        None => {
            return Err(ClientInitError::InvalidScheme);
        },
    };
    let lowered = to_ascii_lowercase(scheme.as_str());
    let http = <String as StringExecFns>::from_str("http");
    if lowered == http {
        base_path_from_parts(parts, "http")
    } else {
        Err(ClientInitError::InvalidScheme)
    }
}

/// The decisions of `Client::try_new` for `base_path`: `Err(InvalidUri)` where
/// it is not a URI, `Err(InvalidScheme)` where its scheme is missing or not
/// `http`, `Err(MissingHost)` where it has no host, else the base path.
pub fn http_base_path(base_path: &str) -> (r: Result<String, ClientInitError>)
    ensures
        uri_components(base_path@) is None ==> r matches Err(ClientInitError::InvalidUri(_)),
        uri_components(base_path@) matches Some(p) ==> {
            &&& (!scheme_is_http(p.0) ==> r matches Err(ClientInitError::InvalidScheme))
            &&& scheme_is_http(p.0) ==> {
                &&& r is Ok <==> p.1 is Some
                &&& (p.1 is None ==> r matches Err(ClientInitError::MissingHost))
                &&& (r matches Ok(b) ==> b@ == base_path_text("http"@, p.1->0, p.2, p.3))
            }
        },
{
    match parse_uri(base_path) {
        Ok(parts) => http_base_path_from_parts(&parts),
        Err(e) => Err(ClientInitError::InvalidUri(e)),
    }
}

/// The requests a client sends to a BOB node, one per API method.
#[derive(Clone, Copy, Debug, PartialEq, Eq, Structural)]
pub enum Endpoint {
    AlienDir,
    Disks,
    Metrics,
    Nodes,
    Partition,
    Partitions,
    Records,
    ReplicasLocalDirs,
    SpaceInfo,
    Status,
    VDisk,
    VDisks,
    Version,
    Configuration,
}

/// What an answer with a given status code leads to.
#[derive(Clone, Copy, Debug, PartialEq, Eq, Structural)]
pub enum ResponseRoute {
    /// The body is decoded as the method's payload.
    Success,
    /// The body is decoded as the status of a refused request.
    PermissionDenied,
    /// The request was refused; the body is not read.
    PermissionDeniedWithoutBody,
    /// The body is decoded as the status of a missing resource.
    NotFound,
    /// The body is decoded as the status of a backend that cannot answer.
    NotAcceptableBackend,
    /// An error that reports the code, the headers and the start of the body.
    Unexpected,
}

/// Which status codes each method answers with, and how each is read.
pub open spec fn response_route(endpoint: Endpoint, status: u16) -> ResponseRoute {
    if status == 200 {
        ResponseRoute::Success
    } else if status == 403 {
        match endpoint {
            Endpoint::AlienDir | Endpoint::Disks | Endpoint::Partition | Endpoint::Partitions
            | Endpoint::Records | Endpoint::ReplicasLocalDirs | Endpoint::VDisk => {
                ResponseRoute::PermissionDenied
            },
            Endpoint::Nodes | Endpoint::VDisks | Endpoint::Configuration => {
                ResponseRoute::PermissionDeniedWithoutBody
            },
            _ => ResponseRoute::Unexpected,
        }
    } else if status == 404 {
        match endpoint {
            Endpoint::Partition | Endpoint::Partitions | Endpoint::Records
            | Endpoint::ReplicasLocalDirs | Endpoint::VDisk => ResponseRoute::NotFound,
            _ => ResponseRoute::Unexpected,
        }
    } else if status == 406 {
        match endpoint {
            Endpoint::AlienDir => ResponseRoute::NotAcceptableBackend,
            _ => ResponseRoute::Unexpected,
        }
    } else {
        ResponseRoute::Unexpected
    }
}

/// How the answer of `endpoint` with code `status` is read.
pub fn route_response(endpoint: Endpoint, status: u16) -> (r: ResponseRoute)
    ensures
        r == response_route(endpoint, status),
{
    match status {
        200 => ResponseRoute::Success,
        403 => match endpoint {
            Endpoint::AlienDir | Endpoint::Disks | Endpoint::Partition | Endpoint::Partitions
            | Endpoint::Records | Endpoint::ReplicasLocalDirs | Endpoint::VDisk => {
                ResponseRoute::PermissionDenied
            },
            Endpoint::Nodes | Endpoint::VDisks | Endpoint::Configuration => {
                ResponseRoute::PermissionDeniedWithoutBody
            },
            _ => ResponseRoute::Unexpected,
        },
        404 => match endpoint {
            Endpoint::Partition | Endpoint::Partitions | Endpoint::Records
            | Endpoint::ReplicasLocalDirs | Endpoint::VDisk => ResponseRoute::NotFound,
            _ => ResponseRoute::Unexpected,
        },
        406 => match endpoint {
            Endpoint::AlienDir => ResponseRoute::NotAcceptableBackend,
            _ => ResponseRoute::Unexpected,
        },
        _ => ResponseRoute::Unexpected,
    }
}

/// Every method decodes its payload from a 200 answer, and no method accepts
/// a code other than 200, 403, 404 and 406.
pub proof fn lemma_route_codes(endpoint: Endpoint, status: u16)
    ensures
        status == 200 ==> response_route(endpoint, status) == ResponseRoute::Success,
        status != 200 && status != 403 && status != 404 && status != 406 ==> response_route(
            endpoint,
            status,
        ) == ResponseRoute::Unexpected,
        response_route(endpoint, status) == ResponseRoute::Success ==> status == 200,
{
}

/// The codes each method answers besides `200`, stated method by method: the
/// requests about one virtual disk (a partition, the partitions, the records,
/// the local directories of the replicas, the disk itself) answer `404` with
/// the status of a missing resource; those and the alien directory and the
/// disks answer `403` with the status of a refusal, while the nodes, the
/// virtual disks and the configuration answer `403` without a body; only the
/// alien directory answers `406`.
pub proof fn lemma_method_answers(endpoint: Endpoint)
    ensures
        response_route(endpoint, 404) == ResponseRoute::NotFound <==> (endpoint == Endpoint::Partition
            || endpoint == Endpoint::Partitions || endpoint == Endpoint::Records || endpoint
            == Endpoint::ReplicasLocalDirs || endpoint == Endpoint::VDisk),
        response_route(endpoint, 403) == ResponseRoute::PermissionDenied <==> (endpoint
            == Endpoint::AlienDir || endpoint == Endpoint::Disks || endpoint == Endpoint::Partition
            || endpoint == Endpoint::Partitions || endpoint == Endpoint::Records || endpoint
            == Endpoint::ReplicasLocalDirs || endpoint == Endpoint::VDisk),
        response_route(endpoint, 403) == ResponseRoute::PermissionDeniedWithoutBody <==> (endpoint
            == Endpoint::Nodes || endpoint == Endpoint::VDisks || endpoint
            == Endpoint::Configuration),
        response_route(endpoint, 406) == ResponseRoute::NotAcceptableBackend <==> endpoint
            == Endpoint::AlienDir,
        response_route(endpoint, 404) == ResponseRoute::NotFound || response_route(endpoint, 404)
            == ResponseRoute::Unexpected,
        response_route(endpoint, 406) == ResponseRoute::NotAcceptableBackend || response_route(
            endpoint,
            406,
        ) == ResponseRoute::Unexpected,
{
}

/// An uppercase hexadecimal digit.
pub open spec fn hex_digit(d: nat) -> char {
    if d < 10 {
        digit_char(d)
    } else {
        ((d - 10 + 'A' as int) as u32) as char
    }
}

/// `%` and the two uppercase hexadecimal digits of `b`.
pub open spec fn percent_byte_text(b: u8) -> Seq<char> {
    seq!['%', hex_digit(b as nat / 16), hex_digit(b as nat % 16)]
}

/// The bytes that object identifiers in request paths are encoded for:
/// every byte outside ASCII, the controls `0x00` to `0x1F` and `0x7F`, and
/// space, `"`, `<`, `>`, `` ` `` and `|`.
pub open spec fn in_id_encode_set(b: u8) -> bool {
    ||| b >= 0x80
    ||| b < 0x20
    ||| b == 0x7f
    ||| b == 0x20
    ||| b == 0x22
    ||| b == 0x3c
    ||| b == 0x3e
    ||| b == 0x60
    ||| b == 0x7c
}

/// The percent-encoding of `bytes` for object identifiers: each byte of the
/// set as `%XX`, each other byte as its ASCII character.
pub open spec fn id_encoded(bytes: Seq<u8>) -> Seq<char>
    decreases bytes.len(),
{
    if bytes.len() == 0 {
        Seq::empty()
    } else {
        id_encoded(bytes.drop_last()) + if in_id_encode_set(bytes.last()) {
            percent_byte_text(bytes.last())
        } else {
            seq![bytes.last() as char]
        }
    }
}

/// A character that may stand in an encoded identifier: ASCII, and none of
/// the characters of the encode set.
pub open spec fn is_clean_id_char(c: char) -> bool {
    (c as u32) < 0x80 && !in_id_encode_set((c as u32) as u8)
}

/// Encoding leaves no character of the encode set in an identifier: every
/// character of the result is ASCII and outside the set.
pub proof fn lemma_id_encoded_clean(bytes: Seq<u8>)
    ensures
        forall|i: int|
            0 <= i < id_encoded(bytes).len() ==> is_clean_id_char(#[trigger] id_encoded(bytes)[i]),
    decreases bytes.len(),
{
    if bytes.len() > 0 {
        lemma_id_encoded_clean(bytes.drop_last());
        let b = bytes.last();
        let head = id_encoded(bytes.drop_last());
        let tail = if in_id_encode_set(b) {
            percent_byte_text(b)
        } else {
            seq![b as char]
        };
        assert(id_encoded(bytes) == head + tail);
        assert forall|i: int| 0 <= i < tail.len() implies is_clean_id_char(#[trigger] tail[i]) by {
            if in_id_encode_set(b) {
                let hi = b as nat / 16;
                let lo = b as nat % 16;
                assert(hi < 16 && lo < 16);
            }
        }
        assert forall|i: int| 0 <= i < id_encoded(bytes).len() implies is_clean_id_char(
            #[trigger] id_encoded(bytes)[i],
        ) by {
            if i < head.len() {
                assert(id_encoded(bytes)[i] == head[i]);
            } else {
                assert(id_encoded(bytes)[i] == tail[i - head.len()]);
            }
        }
    }
}

/// Calls `percent_encoding::percent_encode_byte`, which gives `%` and the
/// two uppercase hexadecimal digits of the byte.
#[verifier::external_body]
fn percent_encode_byte(byte: u8) -> (r: &'static str)
    ensures
        r@ == percent_byte_text(byte),
{
    percent_encoding::percent_encode_byte(byte)
}

/// Appends the percent-encoding of the UTF-8 bytes of `text` for object
/// identifiers, as `percent_encoding::utf8_percent_encode` gives it.
fn push_id_encoded(out: &mut String, text: &str)
    ensures
        final(out)@ == old(out)@ + id_encoded(vstd::utf8::encode_utf8(text@)),
{
    let bytes = text.as_bytes();
    let ghost all = vstd::utf8::encode_utf8(text@);
    let mut i: usize = 0;
    while i < bytes.len()
        invariant
            bytes@ == all,
            i <= bytes.len(),
            out@ == old(out)@ + id_encoded(all.subrange(0, i as int)),
        decreases bytes.len() - i,
    {
        let b = bytes[i];
        assert(all.subrange(0, i + 1).drop_last() =~= all.subrange(0, i as int));
        let in_set = b >= 0x80 || b < 0x20 || b == 0x7f || b == 0x20 || b == 0x22 || b == 0x3c
            || b == 0x3e || b == 0x60 || b == 0x7c;
        if in_set {
            let piece = percent_encode_byte(b);
            out.append(piece);
        } else {
            push_char(out, b as char);
        }
        i = i + 1;
        assert(out@ =~= old(out)@ + id_encoded(all.subrange(0, i as int)));
    }
    assert(all.subrange(0, bytes.len() as int) =~= all);
}

/// A request of the BOB API, with its parameters.
#[derive(Clone, Debug, PartialEq, Eq)]
pub enum ApiRequest {
    AlienDir,
    Disks,
    Metrics,
    Nodes,
    /// A partition of a virtual disk.
    Partition(i32, String),
    /// The partitions of a virtual disk.
    Partitions(i32),
    /// The number of records on a virtual disk.
    Records(i32),
    /// The local directories of the replicas of a virtual disk.
    ReplicasLocalDirs(i32),
    SpaceInfo,
    Status,
    VDisk(i32),
    VDisks,
    Version,
    Configuration,
}

/// The method that a request belongs to.
pub open spec fn endpoint_of(request: ApiRequest) -> Endpoint {
    match request {
        ApiRequest::AlienDir => Endpoint::AlienDir,
        ApiRequest::Disks => Endpoint::Disks,
        ApiRequest::Metrics => Endpoint::Metrics,
        ApiRequest::Nodes => Endpoint::Nodes,
        ApiRequest::Partition(_, _) => Endpoint::Partition,
        ApiRequest::Partitions(_) => Endpoint::Partitions,
        ApiRequest::Records(_) => Endpoint::Records,
        ApiRequest::ReplicasLocalDirs(_) => Endpoint::ReplicasLocalDirs,
        ApiRequest::SpaceInfo => Endpoint::SpaceInfo,
        ApiRequest::Status => Endpoint::Status,
        ApiRequest::VDisk(_) => Endpoint::VDisk,
        ApiRequest::VDisks => Endpoint::VDisks,
        ApiRequest::Version => Endpoint::Version,
        ApiRequest::Configuration => Endpoint::Configuration,
    }
}

/// A virtual disk identifier as a path segment.
pub open spec fn id_segment(id: i32) -> Seq<char> {
    id_encoded(vstd::utf8::encode_utf8(signed_decimal_text(id as int)))
}

/// The path of a request, after the base path.
pub open spec fn request_path_text(request: ApiRequest) -> Seq<char> {
    match request {
        ApiRequest::AlienDir => "/alien/dir"@,
        ApiRequest::Disks => "/disks/list"@,
        ApiRequest::Metrics => "/metrics"@,
        ApiRequest::Nodes => "/nodes"@,
        ApiRequest::Partition(id, partition) => "/vdisks/"@ + id_segment(id) + "/partitions/"@
            + id_encoded(vstd::utf8::encode_utf8(partition@)),
        ApiRequest::Partitions(id) => "/vdisks/"@ + id_segment(id) + "/partitions"@,
        ApiRequest::Records(id) => "/vdisks/"@ + id_segment(id) + "/records/count"@,
        ApiRequest::ReplicasLocalDirs(id) => "/vdisks/"@ + id_segment(id) + "/replicas/local/dirs"@,
        ApiRequest::SpaceInfo => "/status/space"@,
        ApiRequest::Status => "/status"@,
        ApiRequest::VDisk(id) => "/vdisks/"@ + id_segment(id),
        ApiRequest::VDisks => "/vdisks"@,
        ApiRequest::Version => "/version"@,
        ApiRequest::Configuration => "/configuration"@,
    }
}

/// The method that a request belongs to.
pub fn request_endpoint(request: &ApiRequest) -> (r: Endpoint)
    ensures
        r == endpoint_of(*request),
{
    match request {
        ApiRequest::AlienDir => Endpoint::AlienDir,
        ApiRequest::Disks => Endpoint::Disks,
        ApiRequest::Metrics => Endpoint::Metrics,
        ApiRequest::Nodes => Endpoint::Nodes,
        ApiRequest::Partition(_, _) => Endpoint::Partition,
        ApiRequest::Partitions(_) => Endpoint::Partitions,
        ApiRequest::Records(_) => Endpoint::Records,
        ApiRequest::ReplicasLocalDirs(_) => Endpoint::ReplicasLocalDirs,
        ApiRequest::SpaceInfo => Endpoint::SpaceInfo,
        ApiRequest::Status => Endpoint::Status,
        ApiRequest::VDisk(_) => Endpoint::VDisk,
        ApiRequest::VDisks => Endpoint::VDisks,
        ApiRequest::Version => Endpoint::Version,
        ApiRequest::Configuration => Endpoint::Configuration,
    }
}

/// Appends the path segment of a virtual disk identifier.
fn push_id_segment(out: &mut String, id: i32)
    ensures
        final(out)@ == old(out)@ + id_segment(id),
{
    let mut digits = String::new();
    push_signed_decimal(&mut digits, id);
    push_id_encoded(out, digits.as_str());
}

/// The path of a request, after the base path: the method's path with the
/// virtual disk and partition identifiers percent-encoded.
pub fn request_path(request: &ApiRequest) -> (r: String)
    ensures
        r@ == request_path_text(*request),
{
    match request {
        ApiRequest::AlienDir => <String as StringExecFns>::from_str("/alien/dir"),
        ApiRequest::Disks => <String as StringExecFns>::from_str("/disks/list"),
        ApiRequest::Metrics => <String as StringExecFns>::from_str("/metrics"),
        ApiRequest::Nodes => <String as StringExecFns>::from_str("/nodes"),
        ApiRequest::Partition(id, partition) => {
            let mut path = <String as StringExecFns>::from_str("/vdisks/");
            push_id_segment(&mut path, *id);
            path.append("/partitions/");
            push_id_encoded(&mut path, partition.as_str());
            path
        },
        ApiRequest::Partitions(id) => {
            let mut path = <String as StringExecFns>::from_str("/vdisks/");
            push_id_segment(&mut path, *id);
            path.append("/partitions");
            path
        },
        ApiRequest::Records(id) => {
            let mut path = <String as StringExecFns>::from_str("/vdisks/");
            push_id_segment(&mut path, *id);
            path.append("/records/count");
            path
        },
        ApiRequest::ReplicasLocalDirs(id) => {
            let mut path = <String as StringExecFns>::from_str("/vdisks/");
            push_id_segment(&mut path, *id);
            path.append("/replicas/local/dirs");
            path
        },
        ApiRequest::SpaceInfo => <String as StringExecFns>::from_str("/status/space"),
        ApiRequest::Status => <String as StringExecFns>::from_str("/status"),
        ApiRequest::VDisk(id) => {
            let mut path = <String as StringExecFns>::from_str("/vdisks/");
            push_id_segment(&mut path, *id);
            path
        },
        ApiRequest::VDisks => <String as StringExecFns>::from_str("/vdisks"),
        ApiRequest::Version => <String as StringExecFns>::from_str("/version"),
        ApiRequest::Configuration => <String as StringExecFns>::from_str("/configuration"),
    }
}

} // verus!
