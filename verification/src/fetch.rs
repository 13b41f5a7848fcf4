//! The authenticated HTTP forwarder.
//!
//! A UI call names a path suffix, a method, a bearer token and an optional
//! body. The forwarder derives the target URL from the advertised address by
//! dropping the query and appending the suffix, coerces the method to `GET`
//! or `POST` (case-insensitively), and, once the host has performed the
//! exchange, checks that the response body is JSON and hands it back
//! re-serialized. Every failure is reported as a string carrying the URL,
//! the method and the underlying message. The network exchange itself
//! happens outside the library; everything decided here is verified.

use vstd::prelude::*;
use crate::address::first_qmark;

verus! {

/// The request method the forwarder will use.
#[derive(Clone, Copy, Debug, PartialEq, Eq)]
pub enum HttpMethod {
    Get,
    Post,
}

/// The request the host must perform: target URL, coerced method, the two
/// headers, and the body to attach (only ever present for `POST`).
#[derive(Debug)]
pub struct RequestPlan {
    pub url: String,
    pub method: HttpMethod,
    pub authorization: String,
    pub content_type: String,
    pub body: Option<String>,
}

/// What a string reads as after Unicode uppercasing.
pub uninterp spec fn upper_of(s: Seq<char>) -> Seq<char>;

/// Relies on `str::to_uppercase`: the Unicode uppercase mapping depends on
/// the characters alone.
#[verifier::external_body]
fn to_upper(s: &str) -> (r: String)
    ensures
        r@ == upper_of(s@),
{
    s.to_uppercase()
}

/// The method used for a caller-supplied method string: `POST` iff the
/// string uppercases to `"POST"` (full Unicode case folding), anything
/// else `GET`.
pub open spec fn spec_method_kind(m: Seq<char>) -> HttpMethod {
    if upper_of(m) == "POST"@ {
        HttpMethod::Post
    } else {
        HttpMethod::Get
    }
}

/// The target URL: the advertised address up to (not including) its first
/// `'?'`, then `'/'`, then the suffix.
pub open spec fn fetch_url_chars(address: Seq<char>, suffix: Seq<char>) -> Seq<char> {
    address.subrange(0, first_qmark(address)) + "/"@ + suffix
}

/// The error reported when the response body is not JSON; `msg` is the
/// parser's message.
pub open spec fn decode_error_chars(url: Seq<char>, method: Seq<char>, msg: Seq<char>) -> Seq<
    char,
> {
    "Failed to parse to JSON "@ + url + ":"@ + method + ":"@ + msg
}

/// The error reported when the HTTP client cannot be built.
pub open spec fn client_error_chars(url: Seq<char>, method: Seq<char>, msg: Seq<char>) -> Seq<
    char,
> {
    "Failed to create client "@ + url + ":"@ + method + ":"@ + msg
}

/// The error reported when the request cannot be built.
pub open spec fn request_error_chars(url: Seq<char>, method: Seq<char>, msg: Seq<char>) -> Seq<
    char,
> {
    "Failed to build request "@ + url + ":"@ + method + ":"@ + msg
}

/// The error reported when sending the request or reading the response
/// fails.
pub open spec fn send_error_chars(url: Seq<char>, method: Seq<char>, msg: Seq<char>) -> Seq<
    char,
> {
    "Failed to execute request "@ + url + ":"@ + method + ":"@ + msg
}

/// Compose a stage-tagged error string: the stage prefix, then the URL,
/// the method and the underlying message, colon-separated.
fn tagged_error(prefix: &str, url: &str, method: &str, msg: &str) -> (r: String)
    ensures
        r@ == prefix@ + url@ + ":"@ + method@ + ":"@ + msg@,
{
    let mut e = prefix.to_owned();
    e.append(url);
    e.append(":");
    e.append(method);
    e.append(":");
    e.append(msg);
    proof {
        assert(e@ =~= prefix@ + url@ + ":"@ + method@ + ":"@ + msg@);
    }
    e
}

/// The client-build failure string for one forwarded call.
pub fn client_error(url: &str, method: &str, msg: &str) -> (r: String)
    ensures
        r@ == client_error_chars(url@, method@, msg@),
{
    tagged_error("Failed to create client ", url, method, msg)
}

/// The request-build failure string for one forwarded call.
pub fn request_error(url: &str, method: &str, msg: &str) -> (r: String)
    ensures
        r@ == request_error_chars(url@, method@, msg@),
{
    tagged_error("Failed to build request ", url, method, msg)
}

/// The send failure string for one forwarded call.
pub fn send_error(url: &str, method: &str, msg: &str) -> (r: String)
    ensures
        r@ == send_error_chars(url@, method@, msg@),
{
    tagged_error("Failed to execute request ", url, method, msg)
}

/// The decode failure string for one forwarded call, also used when the
/// response body cannot be read.
pub fn parse_error(url: &str, method: &str, msg: &str) -> (r: String)
    ensures
        r@ == decode_error_chars(url@, method@, msg@),
{
    tagged_error("Failed to parse to JSON ", url, method, msg)
}

/// Whether a text parses as a JSON document.
pub uninterp spec fn json_ok(s: Seq<char>) -> bool;

/// The re-serialized form of a JSON document: parse, then serialize back.
pub uninterp spec fn json_norm(s: Seq<char>) -> Seq<char>;

/// Which stage of the JSON round trip failed, with the underlying message.
pub struct JsonFault {
    pub at_encode: bool,
    pub message: String,
}

/// Relies on `serde_json::from_str::<serde_json::Value>` and
/// `serde_json::to_string`: whether a text parses, and what the parsed
/// document re-serializes to, depend on the text alone. Parsing fails
/// exactly on the texts that are not JSON; re-serializing a document the
/// parser produced cannot fail (it writes into a vector, its map keys are
/// strings and its numbers finite), so success is owed exactly on the JSON
/// texts; the re-serialize arm stays for its distinct error string. The
/// two calls share one body because the parsed document between them is
/// opaque here: only their composition has a result a contract can name.
#[verifier::external_body]
fn normalize_json(text: &str) -> (r: Result<String, JsonFault>)
    ensures
        r is Ok <==> json_ok(text@),
        (r matches Err(f) && !f.at_encode) <==> !json_ok(text@),
        r matches Ok(s) ==> s@ == json_norm(text@),
{
    match serde_json::from_str::<serde_json::Value>(text) {
        Ok(value) => match serde_json::to_string(&value) {
            Ok(s) => Ok(s),
            Err(e) => Err(JsonFault { at_encode: true, message: e.to_string() }),
        },
        Err(e) => Err(JsonFault { at_encode: false, message: e.to_string() }),
    }
}

/// The advertised address up to (not including) its first `'?'`.
pub fn split_query<'a>(address: &'a str) -> (r: &'a str)
    ensures
        r@ == address@.subrange(0, first_qmark(address@)),
{
    let n = address.unicode_len();
    let mut i: usize = 0;
    while i < n && address.get_char(i) != '?'
        invariant
            i <= n,
            n == address@.len(),
            forall|j: int| 0 <= j < i ==> address@[j] != '?',
        decreases n - i,
    {
        i += 1;
    }
    proof {
        lemma_first_qmark_at(address@, i as int);
    }
    address.substring_char(0, i)
}

/// If no `'?'` occurs before `i`, and `i` is the length or holds `'?'`,
/// then `i` is the first `'?'`.
proof fn lemma_first_qmark_at(s: Seq<char>, i: int)
    requires
        0 <= i <= s.len(),
        forall|j: int| 0 <= j < i ==> s[j] != '?',
        i < s.len() ==> s[i] == '?',
    ensures
        first_qmark(s) == i,
    decreases i,
{
    if s.len() > 0 && i > 0 {
        lemma_first_qmark_at(s.drop_first(), i - 1);
    }
}

/// The target URL for one forwarded call.
pub fn build_fetch_url(address: &str, url_suffix: &str) -> (r: String)
    ensures
        r@ == fetch_url_chars(address@, url_suffix@),
{
    let base = split_query(address);
    let mut url = base.to_owned();
    url.append("/");
    url.append(url_suffix);
    proof {
        assert(url@ =~= fetch_url_chars(address@, url_suffix@));
    }
    url
}

/// Coerce a caller-supplied method string: one that uppercases to `POST`
/// means `POST`; anything else falls back to `GET`.
pub fn method_kind(method: &str) -> (r: HttpMethod)
    ensures
        r == spec_method_kind(method@),
{
    let upper = to_upper(method);
    let post = String::from_str("POST");
    if upper.eq(&post) {
        HttpMethod::Post
    } else {
        HttpMethod::Get
    }
}

/// Lay out the request the host must perform: the URL derived from the
/// advertised address, the coerced method, the bearer `Authorization` and
/// JSON `Content-Type` headers, and the body (attached only for `POST`).
pub fn prepare_request(
    address: &str,
    url_suffix: &str,
    method: &str,
    token: &str,
    body: Option<String>,
) -> (r: RequestPlan)
    ensures
        r.url@ == fetch_url_chars(address@, url_suffix@),
        r.method == spec_method_kind(method@),
        r.authorization@ == "Bearer "@ + token@,
        r.content_type@ == "application/json"@,
        r.method is Post ==> r.body == body,
        r.method is Get ==> r.body is None,
{
    let kind = method_kind(method);
    let attached = match kind {
        HttpMethod::Post => body,
        HttpMethod::Get => None,
    };
    let mut authorization = String::from_str("Bearer ");
    authorization.append(token);
    RequestPlan {
        url: build_fetch_url(address, url_suffix),
        method: kind,
        authorization,
        content_type: String::from_str("application/json"),
        body: attached,
    }
}

/// Check and re-serialize a response body: a body that is JSON comes back
/// re-serialized, exactly; one that is not comes back as the parse error,
/// which carries the URL, the method and the underlying message.
pub fn process_response(url: &str, method: &str, text: &str) -> (r: Result<String, String>)
    ensures
        r is Ok <==> json_ok(text@),
        r matches Ok(s) ==> s@ == json_norm(text@),
        r matches Err(e) ==> (exists|msg: Seq<char>|
            e@ == decode_error_chars(url@, method@, msg)),
{
    match normalize_json(text) {
        Ok(s) => Ok(s),
        Err(fault) => {
            let e = if fault.at_encode {
                tagged_error("Failed to convert to json string ", url, method, fault.message.as_str())
            } else {
                parse_error(url, method, fault.message.as_str())
            };
            Err(e)
        },
    }
}

} // verus!
