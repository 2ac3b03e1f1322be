//! The GET requests a client sends to a BOB node: the URI, and the headers in
//! the order they are set (the span identifier, then the authorization where
//! credentials are given, then the client's own headers, each replacing an
//! earlier header of the same name).
use crate::connector::base64_text::{base64, base64_decode, lemma_base64_round_trip, push_base64};
use crate::connector::client::{parse_uri, uri_components};
use crate::connector::pairs::{
    lemma_set_pairs_distinct, names_distinct, pairs_view, set_named, set_pairs,
};
use crate::models::models::Credentials;
use vstd::prelude::*;
use vstd::string::StringExecFns;

verus! {

/// `hyper::header::InvalidHeaderValue`, the error of a text that cannot be a
/// header value; carried through as it is.
#[verifier::external_type_specification]
#[verifier::external_body]
pub struct ExInvalidHeaderValue(hyper::header::InvalidHeaderValue);

/// A byte that a header value may hold: a tab, or any byte from 32 up but
/// 127 (DEL).
pub open spec fn is_header_value_byte(b: u8) -> bool {
    (b >= 32 && b != 127) || b == 9
}

/// Whether `text` can be a header value: each byte of its UTF-8 encoding may
/// stand in one.
pub open spec fn is_header_value_text(text: Seq<char>) -> bool {
    let bytes = vstd::utf8::encode_utf8(text);
    forall|i: int| 0 <= i < bytes.len() ==> is_header_value_byte(#[trigger] bytes[i])
}

/// Calls `hyper::header::HeaderValue::from_str`, which accepts a text exactly
/// where every byte of it is a tab or from 32 up but 127.
#[verifier::external_body]
fn check_header_value(text: &str) -> (r: Result<(), hyper::header::InvalidHeaderValue>)
    ensures
        r is Ok <==> is_header_value_text(text@),
{
    match hyper::header::HeaderValue::from_str(text) {
        Ok(_) => Ok(()),
        Err(e) => Err(e),
    }
}

/// The value of the `Authorization` header that
/// `headers::Authorization::basic` makes of a login and a password: `Basic `
/// and the standard base64 text of the UTF-8 bytes of `login:password`.
pub open spec fn basic_authorization_value(login: Seq<char>, password: Seq<char>) -> Seq<char> {
    "Basic "@ + base64(vstd::utf8::encode_utf8(login + ":"@ + password))
}

/// The value of a basic `Authorization` header holds exactly the credentials
/// it was made of: after `Basic `, its text decodes back to the UTF-8 bytes
/// of `login:password`, and those bytes to that very text.
pub proof fn lemma_basic_authorization_decodes(login: Seq<char>, password: Seq<char>)
    ensures
        ({
            let v = basic_authorization_value(login, password);
            &&& v.subrange(0, 6) == "Basic "@
            &&& base64_decode(v.subrange(6, v.len() as int)) == vstd::utf8::encode_utf8(
                login + ":"@ + password,
            )
            &&& vstd::utf8::decode_utf8(base64_decode(v.subrange(6, v.len() as int))) == login
                + ":"@ + password
        }),
{
    reveal_strlit("Basic ");
    let text = login + ":"@ + password;
    let bytes = vstd::utf8::encode_utf8(text);
    let v = basic_authorization_value(login, password);
    assert(v.subrange(0, 6) =~= "Basic "@);
    assert(v.subrange(6, v.len() as int) =~= base64(bytes));
    lemma_base64_round_trip(bytes);
    vstd::utf8::encode_utf8_decode_utf8(text);
}

/// The basic `Authorization` header value for a login and a password, as
/// `headers::Authorization::basic` makes it.
fn basic_authorization(login: &str, password: &str) -> (r: String)
    ensures
        r@ == basic_authorization_value(login@, password@),
{
    let mut text = String::new();
    text.append(login);
    text.append(":");
    text.append(password);
    let mut out = <String as StringExecFns>::from_str("Basic ");
    push_base64(&mut out, text.as_str().as_bytes());
    out
}

/// The `Authorization` header value sent with each request of a client:
/// basic authorization with the login and the password of the credentials,
/// where there are any.
pub open spec fn authorization_for(credentials: Option<Credentials>) -> Option<Seq<char>> {
    match credentials {
        Some(c) => Some(basic_authorization_value(c.login@, c.password@)),
        None => None,
    }
}

/// The `Authorization` header value that a client with `credentials` sends:
/// none without credentials, else basic authorization with their login and
/// password.
pub fn authorization_header(credentials: &Option<Credentials>) -> (r: Option<String>)
    ensures
        r is Some <==> credentials is Some,
        r matches Some(v) ==> authorization_for(*credentials) == Some(v@),
{
    match credentials {
        Some(c) => Some(basic_authorization(c.login.as_str(), c.password.as_str())),
        None => None,
    }
}

/// A GET request, ready to be sent: its URI and its headers, by name.
pub struct GetRequest {
    pub uri: String,
    pub headers: Vec<(String, String)>,
}

/// Why a request could not be formed.
#[derive(Debug)]
pub enum RequestError {
    /// The base path and the endpoint together are not a URI.
    InvalidUri(hyper::http::uri::InvalidUri),
    /// The span identifier cannot be a header value.
    InvalidSpanId(hyper::header::InvalidHeaderValue),
}

/// The headers of a request: `x-span-id`, then `authorization` where a value
/// is given, then the client's own headers set in turn.
pub open spec fn merged_headers(
    span_id: Seq<char>,
    authorization: Option<Seq<char>>,
    custom: Seq<(Seq<char>, Seq<char>)>,
) -> Seq<(Seq<char>, Seq<char>)> {
    let first = match authorization {
        Some(a) => seq![("x-span-id"@, span_id), ("authorization"@, a)],
        None => seq![("x-span-id"@, span_id)],
    };
    set_pairs(first, custom)
}

/// A request carries each header name once.
pub proof fn lemma_merged_headers_distinct(
    span_id: Seq<char>,
    authorization: Option<Seq<char>>,
    custom: Seq<(Seq<char>, Seq<char>)>,
)
    ensures
        names_distinct(merged_headers(span_id, authorization, custom)),
{
    reveal_strlit("x-span-id");
    reveal_strlit("authorization");
    let first = match authorization {
        Some(a) => seq![("x-span-id"@, span_id), ("authorization"@, a)],
        None => seq![("x-span-id"@, span_id)],
    };
    assert("x-span-id"@.len() != "authorization"@.len());
    assert(names_distinct(first));
    lemma_set_pairs_distinct(first, custom);
}

/// The text of an optional string.
pub open spec fn opt_string_view(o: Option<String>) -> Option<Seq<char>> {
    match o {
        Some(s) => Some(s@),
        None => None,
    }
}

/// Forms the GET request of `endpoint` under `base_path`:
/// `Err(InvalidUri)` where the two together are not a URI,
/// `Err(InvalidSpanId)` where the span identifier cannot be a header value,
/// else the request with the URI and the headers of [`merged_headers`].
pub fn form_get_request(
    base_path: &str,
    endpoint: &str,
    span_id: &str,
    authorization: Option<String>,
    headers: &Vec<(String, String)>,
) -> (r: Result<GetRequest, RequestError>)
    ensures
        r is Ok <==> (uri_components(base_path@ + endpoint@) is Some && is_header_value_text(
            span_id@,
        )),
        uri_components(base_path@ + endpoint@) is None ==> r matches Err(
            RequestError::InvalidUri(_),
        ),
        uri_components(base_path@ + endpoint@) is Some && !is_header_value_text(span_id@) ==> r
            matches Err(RequestError::InvalidSpanId(_)),
        r matches Ok(q) ==> {
            &&& q.uri@ == base_path@ + endpoint@
            &&& pairs_view(q.headers@) == merged_headers(
                span_id@,
                opt_string_view(authorization),
                pairs_view(headers@),
            )
        },
{
    let mut uri = String::new();
    uri.append(base_path);
    uri.append(endpoint);
    match parse_uri(uri.as_str()) {
        Ok(_) => {},
        Err(e) => {
            return Err(RequestError::InvalidUri(e));
        },
    }
    match check_header_value(span_id) {
        Ok(_) => {},
        Err(e) => {
            return Err(RequestError::InvalidSpanId(e));
        },
    }
    let mut merged: Vec<(String, String)> = Vec::new();
    let span_name = <String as StringExecFns>::from_str("x-span-id");
    let span_value = <String as StringExecFns>::from_str(span_id);
    merged.push((span_name, span_value));
    let ghost auth_view = opt_string_view(authorization);
    match authorization {
        Some(a) => {
            let auth_name = <String as StringExecFns>::from_str("authorization");
            merged.push((auth_name, a));
        },
        None => {},
    }
    let ghost first = pairs_view(merged@);
    assert(first =~= match auth_view {
        Some(a) => seq![("x-span-id"@, span_id@), ("authorization"@, a)],
        None => seq![("x-span-id"@, span_id@)],
    });
    let ghost custom = pairs_view(headers@);
    let mut i: usize = 0;
    while i < headers.len()
        invariant
            i <= headers.len(),
            custom == pairs_view(headers@),
            pairs_view(merged@) == set_pairs(first, custom.subrange(0, i as int)),
        decreases headers.len() - i,
    {
        let (name, value) = &headers[i];
        assert(custom.subrange(0, i + 1).drop_last() =~= custom.subrange(0, i as int));
        assert(custom.subrange(0, i + 1).last() == (name@, value@));
        set_named(&mut merged, name.clone(), value.clone());
        i = i + 1;
    }
    assert(custom.subrange(0, headers.len() as int) =~= custom);
    Ok(GetRequest { uri, headers: merged })
}

} // verus!
