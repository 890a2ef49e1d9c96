//! The mathematical model of the requests a [`crate::Client`] issues.
//!
//! A [`RequestModel`] records, as plain mathematical values, everything the
//! client decides about a request before handing it to the transport: the
//! method token, the target URL, the header map and the optional body. The
//! spec functions here say which model each verb method builds, and the
//! lemmas state the laws that relate them.

use vstd::prelude::*;

use reqwest::blocking::RequestBuilder;

use crate::transport::{
    builder_body, builder_headers, builder_method, builder_url, json_bytes,
};

verus! {

/// Lists the possible HTTP request methods that can be used.
pub enum RequestMethod {
    /// The GET method requests a representation of the specified resource.
    GET,
    /// The POST method is used to submit an entity to the specified resource.
    POST,
    /// The PUT method replaces all current representations of the target resource.
    PUT,
    /// The PATCH method is used to apply partial modifications to a resource.
    PATCH,
    /// The DELETE method deletes the specified resource.
    DELETE,
}

/// The header map of a request that carries no headers yet.
pub open spec fn no_headers() -> Map<Seq<char>, Seq<char>> {
    Map::empty()
}

/// Whether `c` may stand in an HTTP header value. The transport accepts a
/// string as a header value exactly when every byte of its UTF-8 encoding is
/// 32..=255 without 127, or a tab; on characters this comes to the predicate
/// below, since every byte of a multi-byte encoding is at least 128.
pub open spec fn header_value_char(c: char) -> bool {
    c == '\t' || (32 <= c as u32 && c as u32 != 127)
}

/// Whether the transport accepts `s` as an HTTP header value.
pub open spec fn header_value_in_range(s: Seq<char>) -> bool {
    forall|i: int| 0 <= i < s.len() ==> header_value_char(#[trigger] s[i])
}

/// Whether `c` may stand in a header name this library sends: a lowercase
/// letter or a hyphen. The transport accepts more, but keeps only lowercase
/// names unchanged, so the library confines itself to these.
pub open spec fn header_name_char(c: char) -> bool {
    (97 <= c as u32 && c as u32 <= 122) || c == '-'
}

/// Whether `s` is a header name the transport stores exactly as given: a
/// short lowercase token. The length bound keeps it well under the
/// transport's limit on header names.
pub open spec fn lowercase_header_name(s: Seq<char>) -> bool {
    0 < s.len() <= 64 && forall|i: int| 0 <= i < s.len() ==> header_name_char(#[trigger] s[i])
}

/// The literal facts about the three header names and two header values the
/// library sends: each name is a lowercase token, each value is in range, and
/// the names are pairwise distinct.
pub proof fn lemma_header_literal_facts()
    ensures
        lowercase_header_name("accept"@),
        lowercase_header_name("authorization"@),
        lowercase_header_name("content-type"@),
        header_value_in_range("application/vnd.pgrst.object+json"@),
        header_value_in_range("application/json"@),
        "accept"@ != "authorization"@,
        "accept"@ != "content-type"@,
        "authorization"@ != "content-type"@,
{
    reveal_strlit("accept");
    reveal_strlit("authorization");
    reveal_strlit("content-type");
    reveal_strlit("application/vnd.pgrst.object+json");
    reveal_strlit("application/json");
    assert("accept"@.len() == 6);
    assert("authorization"@.len() == 13);
    assert("content-type"@.len() == 12);
}

/// Everything the client decides about one request before it goes to the
/// transport, as plain mathematical values.
pub struct RequestModel {
    /// The method token, such as `"GET"`
    pub method: Seq<char>,
    /// The target URL
    pub url: Seq<char>,
    /// The headers, each name mapped to its value
    pub headers: Map<Seq<char>, Seq<char>>,
    /// The body, where the request carries one
    pub body: Option<Seq<u8>>,
}

/// Whether the request the builder carries is the one the model describes.
pub open spec fn builder_matches(b: RequestBuilder, m: RequestModel) -> bool {
    &&& builder_method(b) == m.method
    &&& builder_url(b) == m.url
    &&& builder_headers(b) == m.headers
    &&& builder_body(b) == m.body
}

/// `headers` with the authorization header added, where the client holds one.
pub open spec fn with_auth(headers: Map<Seq<char>, Seq<char>>, auth: Option<Seq<char>>) -> Map<
    Seq<char>,
    Seq<char>,
> {
    match auth {
        Some(t) => headers.insert("authorization"@, t),
        None => headers,
    }
}

/// The headers of a GET request: the single-row accept header exactly when
/// `single` is set, and the authorization header exactly when the client
/// holds one.
pub open spec fn get_headers(auth: Option<Seq<char>>, single: bool) -> Map<Seq<char>, Seq<char>> {
    with_auth(
        if single {
            no_headers().insert("accept"@, "application/vnd.pgrst.object+json"@)
        } else {
            no_headers()
        },
        auth,
    )
}

/// The request a GET to `target` comes to.
pub open spec fn get_model(auth: Option<Seq<char>>, target: Seq<char>, single: bool) -> RequestModel {
    RequestModel { method: "GET"@, url: target, headers: get_headers(auth, single), body: None }
}

/// The headers of a request that carries a JSON body.
pub open spec fn body_headers(auth: Option<Seq<char>>) -> Map<Seq<char>, Seq<char>> {
    with_auth(no_headers().insert("content-type"@, "application/json"@), auth)
}

/// The request a POST, PUT or PATCH of `data` to `target` comes to: the JSON
/// encoding of `data` as the body, under a JSON content type.
pub open spec fn body_model(
    method: Seq<char>,
    auth: Option<Seq<char>>,
    target: Seq<char>,
    data: Seq<char>,
) -> RequestModel {
    RequestModel {
        method,
        url: target,
        headers: body_headers(auth),
        body: Some(json_bytes(data)),
    }
}

/// The request a DELETE to `target` comes to: no body, no header beyond the
/// authorization one.
pub open spec fn delete_model(auth: Option<Seq<char>>, target: Seq<char>) -> RequestModel {
    RequestModel { method: "DELETE"@, url: target, headers: with_auth(no_headers(), auth), body: None }
}

/// The payload a dispatched request sends: the data given, or the empty
/// string where none was.
pub open spec fn data_or_empty(data: Option<Seq<char>>) -> Seq<char> {
    match data {
        Some(d) => d,
        None => ""@,
    }
}

/// The request that dispatching on a method comes to, verb by verb; a
/// dispatched GET is never a single-row one.
pub open spec fn dispatch_model(
    auth: Option<Seq<char>>,
    target: Seq<char>,
    method: RequestMethod,
    data: Option<Seq<char>>,
) -> RequestModel {
    match method {
        RequestMethod::GET => get_model(auth, target, false),
        RequestMethod::POST => body_model("POST"@, auth, target, data_or_empty(data)),
        RequestMethod::PUT => body_model("PUT"@, auth, target, data_or_empty(data)),
        RequestMethod::PATCH => body_model("PATCH"@, auth, target, data_or_empty(data)),
        RequestMethod::DELETE => delete_model(auth, target),
    }
}

/// The single-row flag decides the accept header of a GET: set, the request
/// carries `accept: application/vnd.pgrst.object+json`; clear, it carries no
/// accept header at all.
pub proof fn lemma_get_single_accept(auth: Option<Seq<char>>, target: Seq<char>)
    ensures
        get_model(auth, target, true).headers.contains_pair(
            "accept"@,
            "application/vnd.pgrst.object+json"@,
        ),
        !get_model(auth, target, false).headers.contains_key("accept"@),
{
    lemma_header_literal_facts();
}

/// The authorization value accepted at construction is attached to every
/// request the client issues, dispatched or not, single-row or not; a client
/// without one never sends an authorization header.
pub proof fn lemma_auth_header(
    auth: Option<Seq<char>>,
    target: Seq<char>,
    method: RequestMethod,
    data: Option<Seq<char>>,
    single: bool,
)
    ensures
        auth matches Some(t) ==> dispatch_model(auth, target, method, data).headers.contains_pair(
            "authorization"@,
            t,
        ),
        auth is None ==> !dispatch_model(auth, target, method, data).headers.contains_key(
            "authorization"@,
        ),
        auth matches Some(t) ==> get_model(auth, target, single).headers.contains_pair(
            "authorization"@,
            t,
        ),
        auth is None ==> !get_model(auth, target, single).headers.contains_key("authorization"@),
{
    lemma_header_literal_facts();
}

/// Dispatching GET with no payload builds exactly the request of a plain
/// (non-single) `get`.
pub proof fn lemma_request_get_equiv(auth: Option<Seq<char>>, target: Seq<char>)
    ensures
        dispatch_model(auth, target, RequestMethod::GET, None) == get_model(auth, target, false),
{
}

/// Dispatching POST with a payload builds exactly the request of `post` with
/// that payload.
pub proof fn lemma_request_post_equiv(auth: Option<Seq<char>>, target: Seq<char>, data: Seq<char>)
    ensures
        dispatch_model(auth, target, RequestMethod::POST, Some(data)) == body_model(
            "POST"@,
            auth,
            target,
            data,
        ),
{
}

} // verus!
