//! The trusted boundary to the HTTP transport, reqwest's blocking client.
//!
//! Everything the library believes about the transport is stated here.  A
//! request builder is opaque to the verifier, so its contents are given names
//! (`builder_method`, `builder_url`, `builder_headers`, `builder_body`,
//! `builder_ok`), and each wrapper states over those names what the wrapped
//! reqwest call does, as reqwest's source shows it.  Nothing is assumed of a
//! response: whether one comes back at all depends on the network.

use vstd::prelude::*;

use reqwest::blocking::Client as TransportClient;
use reqwest::blocking::RequestBuilder;
use reqwest::blocking::Response;

use crate::model::{header_value_in_range, lowercase_header_name, no_headers};

verus! {

#[verifier::external_type_specification]
#[verifier::external_body]
pub struct ExTransportClient(TransportClient);

#[verifier::external_type_specification]
#[verifier::external_body]
pub struct ExRequestBuilder(RequestBuilder);

#[verifier::external_type_specification]
#[verifier::external_body]
pub struct ExResponse(Response);

/// Whether reqwest accepts `url` as an absolute URL: what `IntoUrl` decides
/// for a string, a function of the string alone.
pub uninterp spec fn url_ok(url: Seq<char>) -> bool;

/// The target that reqwest parses out of `url`, with any credentials in its
/// authority stripped; unspecified when `url_ok(url)` does not hold.
pub uninterp spec fn url_of(url: Seq<char>) -> Seq<char>;

/// Whether reqwest finds no credentials in the URL's authority. A fresh
/// builder for such a URL carries no headers; one for a URL with credentials
/// starts with an authorization header made from them.
pub uninterp spec fn url_credential_free(url: Seq<char>) -> bool;

/// The bytes of the JSON encoding of the string `s`, as reqwest's `json`
/// writes them through serde_json: a function of the string alone.
pub uninterp spec fn json_bytes(s: Seq<char>) -> Seq<u8>;

/// Whether the builder still carries a well-formed request. A builder whose
/// URL did not parse, or that was given a malformed header, carries an error
/// instead, and sending it yields no response.
pub uninterp spec fn builder_ok(b: RequestBuilder) -> bool;

/// The method token of the request the builder carries, such as `"GET"`;
/// unspecified when `builder_ok(b)` does not hold.
pub uninterp spec fn builder_method(b: RequestBuilder) -> Seq<char>;

/// The target URL of the request the builder carries; unspecified when
/// `builder_ok(b)` does not hold.
pub uninterp spec fn builder_url(b: RequestBuilder) -> Seq<char>;

/// The headers of the request the builder carries, each name mapped to its
/// value; unspecified when `builder_ok(b)` does not hold.
pub uninterp spec fn builder_headers(b: RequestBuilder) -> Map<Seq<char>, Seq<char>>;

/// The body of the request the builder carries, if one was set; unspecified
/// when `builder_ok(b)` does not hold.
pub uninterp spec fn builder_body(b: RequestBuilder) -> Option<Seq<u8>>;

/// Relies on `reqwest::blocking::Client::new`, which configures a transport
/// with default settings. It panics only when the runtime it needs cannot be
/// started, never on account of an argument.
#[verifier::external_body]
pub(crate) fn transport_new() -> (c: TransportClient) {
    TransportClient::new()
}

/// Relies on `reqwest::header::HeaderValue::from_str`, which accepts exactly
/// the strings whose bytes are all in the header-value range.
#[verifier::external_body]
pub(crate) fn header_value_acceptable(value: &str) -> (r: bool)
    ensures
        r == header_value_in_range(value@),
{
    reqwest::header::HeaderValue::from_str(value).is_ok()
}

/// Relies on `reqwest::blocking::Client::get`: a fresh GET request to the
/// parsed URL, with no headers and no body; a URL that does not parse leaves
/// the builder failed.
#[verifier::external_body]
pub(crate) fn transport_get(c: &TransportClient, url: &str) -> (b: RequestBuilder)
    ensures
        builder_ok(b) == url_ok(url@),
        url_ok(url@) ==> builder_method(b) == "GET"@,
        url_ok(url@) ==> builder_url(b) == url_of(url@),
        url_ok(url@) && url_credential_free(url@) ==> builder_headers(b) == no_headers(),
        url_ok(url@) ==> builder_body(b) is None,
{
    c.get(url)
}

/// Relies on `reqwest::blocking::Client::post`; as `transport_get`, with POST.
#[verifier::external_body]
pub(crate) fn transport_post(c: &TransportClient, url: &str) -> (b: RequestBuilder)
    ensures
        builder_ok(b) == url_ok(url@),
        url_ok(url@) ==> builder_method(b) == "POST"@,
        url_ok(url@) ==> builder_url(b) == url_of(url@),
        url_ok(url@) && url_credential_free(url@) ==> builder_headers(b) == no_headers(),
        url_ok(url@) ==> builder_body(b) is None,
{
    c.post(url)
}

/// Relies on `reqwest::blocking::Client::put`; as `transport_get`, with PUT.
#[verifier::external_body]
pub(crate) fn transport_put(c: &TransportClient, url: &str) -> (b: RequestBuilder)
    ensures
        builder_ok(b) == url_ok(url@),
        url_ok(url@) ==> builder_method(b) == "PUT"@,
        url_ok(url@) ==> builder_url(b) == url_of(url@),
        url_ok(url@) && url_credential_free(url@) ==> builder_headers(b) == no_headers(),
        url_ok(url@) ==> builder_body(b) is None,
{
    c.put(url)
}

/// Relies on `reqwest::blocking::Client::patch`; as `transport_get`, with PATCH.
#[verifier::external_body]
pub(crate) fn transport_patch(c: &TransportClient, url: &str) -> (b: RequestBuilder)
    ensures
        builder_ok(b) == url_ok(url@),
        url_ok(url@) ==> builder_method(b) == "PATCH"@,
        url_ok(url@) ==> builder_url(b) == url_of(url@),
        url_ok(url@) && url_credential_free(url@) ==> builder_headers(b) == no_headers(),
        url_ok(url@) ==> builder_body(b) is None,
{
    c.patch(url)
}

/// Relies on `reqwest::blocking::Client::delete`; as `transport_get`, with DELETE.
#[verifier::external_body]
pub(crate) fn transport_delete(c: &TransportClient, url: &str) -> (b: RequestBuilder)
    ensures
        builder_ok(b) == url_ok(url@),
        url_ok(url@) ==> builder_method(b) == "DELETE"@,
        url_ok(url@) ==> builder_url(b) == url_of(url@),
        url_ok(url@) && url_credential_free(url@) ==> builder_headers(b) == no_headers(),
        url_ok(url@) ==> builder_body(b) is None,
{
    c.delete(url)
}

/// Relies on `reqwest::blocking::RequestBuilder::header`, which appends the
/// header to the request and touches nothing else. The name must be a
/// lowercase token, so that the transport stores it as given, and the value
/// in range, so that the builder stays well formed; where the name is fresh,
/// appending comes to inserting.
#[verifier::external_body]
pub(crate) fn transport_header(b: RequestBuilder, name: &str, value: &str) -> (r: RequestBuilder)
    requires
        lowercase_header_name(name@),
        header_value_in_range(value@),
    ensures
        builder_ok(r) == builder_ok(b),
        builder_ok(b) ==> builder_method(r) == builder_method(b),
        builder_ok(b) ==> builder_url(r) == builder_url(b),
        builder_ok(b) && !builder_headers(b).contains_key(name@) ==> builder_headers(r) == builder_headers(b).insert(name@, value@),
        builder_ok(b) ==> builder_body(r) == builder_body(b),
{
    b.header(name, value)
}

/// Relies on `reqwest::blocking::RequestBuilder::json` with a string payload:
/// it sets the body to the JSON encoding of the string, which for a string
/// never fails, and a `content-type: application/json` header where none is
/// set yet.
#[verifier::external_body]
pub(crate) fn transport_json_str(b: RequestBuilder, data: &str) -> (r: RequestBuilder)
    ensures
        builder_ok(r) == builder_ok(b),
        builder_ok(b) ==> builder_method(r) == builder_method(b),
        builder_ok(b) ==> builder_url(r) == builder_url(b),
        builder_ok(b) && !builder_headers(b).contains_key("content-type"@) ==> builder_headers(r) == builder_headers(b).insert("content-type"@, "application/json"@),
        builder_ok(b) ==> builder_body(r) == Some(json_bytes(data@)),
{
    b.json(&data)
}

/// Relies on `reqwest::blocking::RequestBuilder::send`: it performs the
/// request and fails on a failed builder or on any transport-level error, so
/// a response comes back only from a well-formed request. It panics only when
/// called from within an async runtime.
#[verifier::external_body]
pub(crate) fn transport_send(b: RequestBuilder) -> (r: Option<Response>)
    ensures
        r is Some ==> builder_ok(b),
{
    b.send().ok()
}

} // verus!
