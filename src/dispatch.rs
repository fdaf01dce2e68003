use vstd::prelude::*;
use vstd::string::StringSliceAdditionalSpecFns;
use vstd::utf8::encode_utf8;

use crate::headers::{after_set, HeaderList};
use crate::parts::{ResponseParts, LOCATION};

verus! {

pub const JSON_TYPE: &'static str = "application/json";

pub const FORM_TYPE: &'static str = "application/x-www-form-urlencoded";

pub const CBOR_TYPE: &'static str = "application/cbor";

pub const CONTENT_TYPE: &'static str = "Content-Type";

/// Where a form submit is sent back to when the request names no referrer.
pub const HOME: &'static str = "/";

/// The text before and after the route in the message for a route where no
/// server function is registered.
pub const NOT_FOUND_LEAD: &'static str = "Could not find a server function at the route ";

pub const NOT_FOUND_TAIL: &'static str = ". \n\nIt's likely that you need to call ServerFn::register_explicit() on the server function type, somewhere in your `main` function.";

pub const OK: u16 = 200;

pub const SEE_OTHER: u16 = 303;

pub const BAD_REQUEST: u16 = 400;

pub const SERVER_ERROR: u16 = 500;

/// How a server function expects its arguments to arrive.
#[derive(Debug, Clone, Copy)]
pub enum Encoding {
    /// URL-encoded, in the request body.
    Url,
    /// CBOR, in the request body.
    Cbor,
    /// JSON, in the query string.
    GetJson,
    /// CBOR, in the query string.
    GetCbor,
}

/// What a server function handed back.
#[derive(Debug)]
pub enum Payload {
    Binary(Vec<u8>),
    Url(String),
    Json(String),
}

/// Status, headers and body of the response to send.
#[derive(Debug)]
pub struct ResponsePlan {
    pub status: u16,
    pub headers: HeaderList,
    pub body: Vec<u8>,
}

/// The text of an optional string.
pub open spec fn text_of(o: Option<&str>) -> Option<Seq<char>> {
    match o {
        Some(s) => Some(s@),
        None => None,
    }
}

pub open spec fn body_encoded(encoding: Encoding) -> bool {
    encoding is Url || encoding is Cbor
}

/// The bytes a server function is called with: the request body for the
/// encodings that post their arguments (nothing when the body could not be
/// read), else the query string (nothing when the URL has none).
pub open spec fn argument_bytes(
    encoding: Encoding,
    query: Option<Seq<char>>,
    body: Option<Seq<u8>>,
) -> Seq<u8> {
    if body_encoded(encoding) {
        match body {
            Some(b) => b,
            None => Seq::empty(),
        }
    } else {
        match query {
            Some(q) => encode_utf8(q),
            None => Seq::empty(),
        }
    }
}

/// Whether the client asked for the data itself rather than a page to go back to.
pub open spec fn wants_data(accept: Option<Seq<char>>) -> bool {
    match accept {
        Some(a) => a == JSON_TYPE@ || a == FORM_TYPE@ || a == CBOR_TYPE@,
        None => false,
    }
}

/// The status of a successful call: the one the function set, else 200 where
/// the client wants data, else 303 back to the referrer.
pub open spec fn success_status(accept: Option<Seq<char>>, chosen: Option<u16>) -> u16 {
    match chosen {
        Some(s) => s,
        None => if wants_data(accept) {
            OK
        } else {
            SEE_OTHER
        },
    }
}

pub open spec fn payload_content_type(payload: Payload) -> Option<Seq<char>> {
    match payload {
        Payload::Binary(_) => None,
        Payload::Url(_) => Some(FORM_TYPE@),
        Payload::Json(_) => Some(JSON_TYPE@),
    }
}

pub open spec fn payload_body(payload: Payload) -> Seq<u8> {
    match payload {
        Payload::Binary(d) => d@,
        Payload::Url(s) => encode_utf8(s@),
        Payload::Json(s) => encode_utf8(s@),
    }
}

/// The headers of a successful call: a `Location` back to the referrer (or to
/// `/`) unless the client wants data, then the headers the function added, and
/// last the content type of the payload, if it has one. A referrer that HTTP
/// does not allow as a header value gives no `Location`.
pub open spec fn success_headers(
    accept: Option<Seq<char>>,
    referer: Option<Seq<char>>,
    added: Seq<(Seq<char>, Seq<char>)>,
    content_type: Option<Seq<char>>,
) -> Seq<(Seq<char>, Seq<char>)> {
    let back = match referer {
        Some(r) => r,
        None => HOME@,
    };
    let first = if wants_data(accept) {
        Seq::empty()
    } else {
        after_set(Seq::empty(), LOCATION@, back)
    };
    match content_type {
        Some(t) => after_set(first + added, CONTENT_TYPE@, t),
        None => first + added,
    }
}

/// Where a server function is registered: the path without its leading `/`.
pub open spec fn registered_path(path: Seq<char>) -> Seq<char> {
    if path.len() > 0 && path[0] == '/' {
        path.drop_first()
    } else {
        path
    }
}

/// Relies on `str::strip_prefix` with a `char` pattern: `Some` of the rest of
/// the string exactly when it starts with that character.
#[verifier::external_body]
fn strip_leading(s: &str, c: char) -> (r: Option<&str>)
    ensures
        match r {
            Some(rest) => s@.len() > 0 && s@[0] == c && rest@ == s@.drop_first(),
            None => !(s@.len() > 0 && s@[0] == c),
        },
{
    s.strip_prefix(c)
}

/// The name under which the server function for a URL path is registered.
pub fn server_fn_path(path: &str) -> (r: &str)
    ensures
        r@ == registered_path(path@),
{
    match strip_leading(path, '/') {
        Some(rest) => rest,
        None => path,
    }
}

/// Whether the arguments of a function with this encoding come in the request body.
pub fn reads_body(encoding: &Encoding) -> (r: bool)
    ensures
        r == body_encoded(*encoding),
{
    match encoding {
        Encoding::Url | Encoding::Cbor => true,
        Encoding::GetJson | Encoding::GetCbor => false,
    }
}

fn bytes_of(s: &str) -> (r: Vec<u8>)
    ensures
        r@ == s.spec_bytes(),
{
    let b = s.as_bytes();
    let mut v: Vec<u8> = Vec::new();
    let mut i: usize = 0;
    while i < b.len()
        invariant
            0 <= i <= b@.len(),
            v@ == b@.take(i as int),
        decreases b@.len() - i,
    {
        v.push(b[i]);
        i = i + 1;
        assert(v@ =~= b@.take(i as int));
    }
    assert(b@.take(i as int) =~= b@);
    v
}

/// The bytes to call a server function with, from what the request holds.
pub fn call_arguments(encoding: &Encoding, query: Option<&str>, body: Option<Vec<u8>>) -> (r: Vec<
    u8,
>)
    ensures
        r@ == argument_bytes(
            *encoding,
            text_of(query),
            match body {
                Some(b) => Some(b@),
                None => None,
            },
        ),
{
    if reads_body(encoding) {
        match body {
            Some(b) => b,
            None => Vec::new(),
        }
    } else {
        match query {
            Some(q) => bytes_of(q),
            None => Vec::new(),
        }
    }
}

fn same_text(a: &str, b: &str) -> (r: bool)
    ensures
        r == (a@ == b@),
{
    a.to_owned() == b.to_owned()
}

/// Whether an `Accept` header asks for the data itself.
pub fn accepts_data(accept: Option<&str>) -> (r: bool)
    ensures
        r == wants_data(text_of(accept)),
{
    match accept {
        Some(a) => same_text(a, JSON_TYPE) || same_text(a, FORM_TYPE) || same_text(a, CBOR_TYPE),
        None => false,
    }
}

/// The text of the response when no server function is registered at a route,
/// around the route as `quoted` writes it.
pub open spec fn not_found_text(quoted: Seq<char>) -> Seq<char> {
    NOT_FOUND_LEAD@ + quoted + NOT_FOUND_TAIL@
}

/// The response to a successful call: status, headers and body as the
/// function's payload, the client's `Accept` and `Referer` headers, and what the
/// function set on the response make them.
pub fn success_response(
    accept: Option<&str>,
    referer: Option<&str>,
    parts: &ResponseParts,
    payload: Payload,
) -> (r: ResponsePlan)
    ensures
        r.status == success_status(text_of(accept), parts.status),
        r.headers@ == success_headers(
            text_of(accept),
            text_of(referer),
            parts.headers@,
            payload_content_type(payload),
        ),
        r.body@ == payload_body(payload),
{
    let data = accepts_data(accept);
    let mut status: u16 = if data {
        OK
    } else {
        SEE_OTHER
    };
    if let Some(s) = parts.status {
        status = s;
    }
    let mut headers = HeaderList::new();
    if !data {
        let back = match referer {
            Some(r) => r,
            None => HOME,
        };
        headers.set(LOCATION, back);
    }
    let ghost first = headers@;
    let n = parts.headers.len();
    let mut i: usize = 0;
    while i < n
        invariant
            n == parts.headers@.len(),
            0 <= i <= n,
            headers@ == first + parts.headers@.take(i as int),
        decreases n - i,
    {
        let (name, value) = parts.headers.entry(i);
        headers.append(name.as_str(), value.as_str());
        i = i + 1;
        assert(headers@ =~= first + parts.headers@.take(i as int));
    }
    assert(parts.headers@.take(i as int) =~= parts.headers@);
    let body = match payload {
        Payload::Binary(d) => d,
        Payload::Url(s) => {
            headers.set(CONTENT_TYPE, FORM_TYPE);
            bytes_of(s.as_str())
        },
        Payload::Json(s) => {
            headers.set(CONTENT_TYPE, JSON_TYPE);
            bytes_of(s.as_str())
        },
    };
    ResponsePlan { status, headers, body }
}

/// The response to a call that failed: status 500 and the error's text as body.
pub fn error_response(message: &str) -> (r: ResponsePlan)
    ensures
        r.status == SERVER_ERROR,
        r.headers@ == Seq::<(Seq<char>, Seq<char>)>::empty(),
        r.body@ == encode_utf8(message@),
{
    ResponsePlan { status: SERVER_ERROR, headers: HeaderList::new(), body: bytes_of(message) }
}

/// Names what `quote_route` makes of a route: the `Debug` form of a string.
pub uninterp spec fn debug_quoted(s: Seq<char>) -> Seq<char>;

/// Relies on the `Debug` formatting of `str`: the result depends on the
/// characters of `s` alone.
#[verifier::external_body]
fn quote_route(s: &str) -> (r: String)
    ensures
        r@ == debug_quoted(s@),
{
    format!("{:?}", s)
}

/// The text of the response when no server function is registered at a route,
/// given the route already quoted.
pub fn not_found_message(quoted: &str) -> (r: String)
    ensures
        r@ == not_found_text(quoted@),
{
    let mut m = String::from_str(NOT_FOUND_LEAD);
    m.append(quoted);
    m.append(NOT_FOUND_TAIL);
    m
}

/// The response when no server function is registered at a route, given the
/// route already quoted: status 400 and the message that names it.
pub fn not_found_for_quoted(quoted: &str) -> (r: ResponsePlan)
    ensures
        r.status == BAD_REQUEST,
        r.headers@ == Seq::<(Seq<char>, Seq<char>)>::empty(),
        r.body@ == encode_utf8(not_found_text(quoted@)),
{
    let message = not_found_message(quoted);
    ResponsePlan { status: BAD_REQUEST, headers: HeaderList::new(), body: bytes_of(message.as_str()) }
}

/// The response when no server function is registered at `path`: status 400
/// and a message that names the route.
pub fn not_found_response(path: &str) -> (r: ResponsePlan)
    ensures
        r.status == BAD_REQUEST,
        r.headers@ == Seq::<(Seq<char>, Seq<char>)>::empty(),
        r.body@ == encode_utf8(not_found_text(debug_quoted(path@))),
{
    let quoted = quote_route(path);
    not_found_for_quoted(quoted.as_str())
}

} // verus!
