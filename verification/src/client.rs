//! The HTTP client and its verb methods.
//!
//! Every verb method assembles its request in a verified `prepare_` routine
//! whose contract pins the builder's method, URL, headers and body to the
//! spec model in [`crate::model`], and then hands the builder to the trusted
//! `send` wrapper. The header map is pinned for every URL free of inline
//! credentials; a URL that carries credentials has the transport turn them
//! into a basic-auth header of its own, which the model does not chart.

use vstd::prelude::*;
use vstd::string::StringExecFns;

use reqwest::blocking::RequestBuilder;
use reqwest::blocking::Response;

use crate::model::{
    body_headers, body_model, builder_matches, delete_model, dispatch_model, get_model,
    header_value_in_range, lemma_header_literal_facts, no_headers, RequestMethod,
};
use crate::transport;
use crate::transport::{
    builder_body, builder_method, builder_ok, builder_url, json_bytes, url_credential_free, url_of,
    url_ok,
};

verus! {

/// The HTTP client
pub struct Client {
    /// API base URL
    pub base_url: String,
    /// The authorization header value sent with every request, where one was
    /// accepted at construction
    pub auth: Option<String>,
    /// The reqwest wrapper
    pub transport: reqwest::blocking::Client,
}

impl Client {
    /// Whether the client is well formed: an authorization value it holds is
    /// one the transport accepts.
    pub open spec fn wf(&self) -> bool {
        self.auth matches Some(t) ==> header_value_in_range(t@)
    }

    /// The authorization header value as a mathematical value.
    pub open spec fn auth_view(&self) -> Option<Seq<char>> {
        match self.auth {
            Some(t) => Some(t@),
            None => None,
        }
    }

    /// Create a new instance of a `Client`; the base URL is stored verbatim.
    pub fn new(base_url: String) -> (c: Client)
        ensures
            c.base_url@ == base_url@,
            c.auth is None,
            c.wf(),
    {
        Client { base_url, auth: None, transport: transport::transport_new() }
    }

    /// Create a new instance of an authenticated `Client`: the token is sent
    /// as the `authorization` header of every subsequent request. A token the
    /// transport does not accept as a header value is dropped, and the client
    /// still forms, without the header.
    pub fn new_auth(base_url: String, auth_token: String) -> (c: Client)
        ensures
            c.base_url@ == base_url@,
            header_value_in_range(auth_token@) ==> (c.auth matches Some(t) && t@ == auth_token@),
            !header_value_in_range(auth_token@) ==> c.auth is None,
            c.wf(),
    {
        let auth = if transport::header_value_acceptable(auth_token.as_str()) {
            Some(auth_token)
        } else {
            None
        };
        Client { base_url, auth, transport: transport::transport_new() }
    }

    /// Format a URL: the base URL with the endpoint appended verbatim, no
    /// separator inserted.
    pub fn format_url(&self, endpoint: &str) -> (r: String)
        ensures
            r@ == self.base_url@ + endpoint@,
    {
        self.base_url.clone().concat(endpoint)
    }

    /// Assemble a GET request to the absolute URL `url`, bypassing the base
    /// URL; `single` adds the single-row accept header.
    pub fn prepare_get_abs(&self, url: &str, single: bool) -> (b: RequestBuilder)
        requires
            self.wf(),
        ensures
            builder_ok(b) == url_ok(url@),
            builder_ok(b) ==> builder_method(b) == "GET"@,
            builder_ok(b) ==> builder_url(b) == url_of(url@),
            builder_ok(b) ==> builder_body(b) is None,
            builder_ok(b) && url_credential_free(url@) ==> builder_matches(b, get_model(self.auth_view(), url_of(url@), single)),
    {
        proof {
            lemma_header_literal_facts();
        }
        let b = transport::transport_get(&self.transport, url);
        let b = if single {
            transport::transport_header(b, "accept", "application/vnd.pgrst.object+json")
        } else {
            b
        };
        match &self.auth {
            Some(t) => transport::transport_header(b, "authorization", t.as_str()),
            None => b,
        }
    }

    /// Assemble a GET request to the endpoint under the base URL.
    pub fn prepare_get(&self, endpoint: &str, single: bool) -> (b: RequestBuilder)
        requires
            self.wf(),
        ensures
            builder_ok(b) == url_ok(self.base_url@ + endpoint@),
            builder_ok(b) ==> builder_method(b) == "GET"@,
            builder_ok(b) ==> builder_url(b) == url_of(self.base_url@ + endpoint@),
            builder_ok(b) ==> builder_body(b) is None,
            builder_ok(b) && url_credential_free(self.base_url@ + endpoint@) ==> builder_matches(b, get_model(self.auth_view(), url_of(self.base_url@ + endpoint@), single)),
    {
        let url = self.format_url(endpoint);
        self.prepare_get_abs(url.as_str(), single)
    }

    /// Attach the JSON encoding of `data` as the request's body, and then the
    /// authorization header where the client holds one. Starting from a
    /// builder without headers, this yields exactly the headers of the body
    /// model.
    fn finish_body(&self, b: RequestBuilder, data: &str) -> (r: RequestBuilder)
        requires
            self.wf(),
        ensures
            builder_ok(r) == builder_ok(b),
            builder_ok(b) ==> builder_method(r) == builder_method(b),
            builder_ok(b) ==> builder_url(r) == builder_url(b),
            builder_ok(b) ==> builder_body(r) == Some(json_bytes(data@)),
            builder_ok(b) && builder_headers_empty(b) ==> transport::builder_headers(r) == body_headers(self.auth_view()),
    {
        proof {
            lemma_header_literal_facts();
        }
        let b = transport::transport_json_str(b, data);
        match &self.auth {
            Some(t) => transport::transport_header(b, "authorization", t.as_str()),
            None => b,
        }
    }

    /// Assemble a POST request carrying `data` as JSON.
    pub fn prepare_post(&self, endpoint: &str, data: &str) -> (b: RequestBuilder)
        requires
            self.wf(),
        ensures
            builder_ok(b) == url_ok(self.base_url@ + endpoint@),
            builder_ok(b) ==> builder_method(b) == "POST"@,
            builder_ok(b) ==> builder_url(b) == url_of(self.base_url@ + endpoint@),
            builder_ok(b) ==> builder_body(b) == Some(json_bytes(data@)),
            builder_ok(b) && url_credential_free(self.base_url@ + endpoint@) ==> builder_matches(b, body_model("POST"@, self.auth_view(), url_of(self.base_url@ + endpoint@), data@)),
    {
        let url = self.format_url(endpoint);
        let b = transport::transport_post(&self.transport, url.as_str());
        self.finish_body(b, data)
    }

    /// Assemble a PUT request carrying `data` as JSON.
    pub fn prepare_put(&self, endpoint: &str, data: &str) -> (b: RequestBuilder)
        requires
            self.wf(),
        ensures
            builder_ok(b) == url_ok(self.base_url@ + endpoint@),
            builder_ok(b) ==> builder_method(b) == "PUT"@,
            builder_ok(b) ==> builder_url(b) == url_of(self.base_url@ + endpoint@),
            builder_ok(b) ==> builder_body(b) == Some(json_bytes(data@)),
            builder_ok(b) && url_credential_free(self.base_url@ + endpoint@) ==> builder_matches(b, body_model("PUT"@, self.auth_view(), url_of(self.base_url@ + endpoint@), data@)),
    {
        let url = self.format_url(endpoint);
        let b = transport::transport_put(&self.transport, url.as_str());
        self.finish_body(b, data)
    }

    /// Assemble a PATCH request carrying `data` as JSON.
    pub fn prepare_patch(&self, endpoint: &str, data: &str) -> (b: RequestBuilder)
        requires
            self.wf(),
        ensures
            builder_ok(b) == url_ok(self.base_url@ + endpoint@),
            builder_ok(b) ==> builder_method(b) == "PATCH"@,
            builder_ok(b) ==> builder_url(b) == url_of(self.base_url@ + endpoint@),
            builder_ok(b) ==> builder_body(b) == Some(json_bytes(data@)),
            builder_ok(b) && url_credential_free(self.base_url@ + endpoint@) ==> builder_matches(b, body_model("PATCH"@, self.auth_view(), url_of(self.base_url@ + endpoint@), data@)),
    {
        let url = self.format_url(endpoint);
        let b = transport::transport_patch(&self.transport, url.as_str());
        self.finish_body(b, data)
    }

    /// Assemble a DELETE request, which carries no body.
    pub fn prepare_delete(&self, endpoint: &str) -> (b: RequestBuilder)
        requires
            self.wf(),
        ensures
            builder_ok(b) == url_ok(self.base_url@ + endpoint@),
            builder_ok(b) ==> builder_method(b) == "DELETE"@,
            builder_ok(b) ==> builder_url(b) == url_of(self.base_url@ + endpoint@),
            builder_ok(b) ==> builder_body(b) is None,
            builder_ok(b) && url_credential_free(self.base_url@ + endpoint@) ==> builder_matches(b, delete_model(self.auth_view(), url_of(self.base_url@ + endpoint@))),
    {
        proof {
            lemma_header_literal_facts();
        }
        let url = self.format_url(endpoint);
        let b = transport::transport_delete(&self.transport, url.as_str());
        match &self.auth {
            Some(t) => transport::transport_header(b, "authorization", t.as_str()),
            None => b,
        }
    }

    /// Assemble the request that dispatching on `method` comes to: the same
    /// builder as the verb method itself, with absent `data` standing for the
    /// empty string on the verbs that carry a body.
    pub fn prepare_request(&self, endpoint: &str, method: RequestMethod, data: Option<&str>) -> (b:
        RequestBuilder)
        requires
            self.wf(),
        ensures
            builder_ok(b) == url_ok(self.base_url@ + endpoint@),
            builder_ok(b) && url_credential_free(self.base_url@ + endpoint@) ==> builder_matches(b, dispatch_model(self.auth_view(), url_of(self.base_url@ + endpoint@), method, data_view(data))),
    {
        let d = match data {
            Some(d) => d,
            None => "",
        };
        match method {
            RequestMethod::GET => self.prepare_get(endpoint, false),
            RequestMethod::POST => self.prepare_post(endpoint, d),
            RequestMethod::PUT => self.prepare_put(endpoint, d),
            RequestMethod::PATCH => self.prepare_patch(endpoint, d),
            RequestMethod::DELETE => self.prepare_delete(endpoint),
        }
    }

    /// Generic function to send a GET request to an endpoint. The response is
    /// present only when the URL was well formed and the transport produced
    /// one; any transport-level failure comes back as an absent response.
    pub fn get(&self, endpoint: &str, single: bool) -> (r: Option<Response>)
        requires
            self.wf(),
        ensures
            r is Some ==> url_ok(self.base_url@ + endpoint@),
    {
        transport::transport_send(self.prepare_get(endpoint, single))
    }

    /// Generic function to send a GET request to an endpoint without
    /// formatting to use the base URL: regardless of the value of `base_url`,
    /// this function sends a GET request to the absolute URL passed as the
    /// `url` parameter.
    pub fn get_abs(&self, url: &str, single: bool) -> (r: Option<Response>)
        requires
            self.wf(),
        ensures
            r is Some ==> url_ok(url@),
    {
        transport::transport_send(self.prepare_get_abs(url, single))
    }

    /// Generic function to POST data to an endpoint.
    pub fn post(&self, endpoint: &str, data: &str) -> (r: Option<Response>)
        requires
            self.wf(),
        ensures
            r is Some ==> url_ok(self.base_url@ + endpoint@),
    {
        transport::transport_send(self.prepare_post(endpoint, data))
    }

    /// Generic function to PUT data to an endpoint.
    pub fn put(&self, endpoint: &str, data: &str) -> (r: Option<Response>)
        requires
            self.wf(),
        ensures
            r is Some ==> url_ok(self.base_url@ + endpoint@),
    {
        transport::transport_send(self.prepare_put(endpoint, data))
    }

    /// Generic function to PATCH data to an endpoint.
    pub fn patch(&self, endpoint: &str, data: &str) -> (r: Option<Response>)
        requires
            self.wf(),
        ensures
            r is Some ==> url_ok(self.base_url@ + endpoint@),
    {
        transport::transport_send(self.prepare_patch(endpoint, data))
    }

    /// Generic function to DELETE to an endpoint.
    pub fn delete(&self, endpoint: &str) -> (r: Option<Response>)
        requires
            self.wf(),
        ensures
            r is Some ==> url_ok(self.base_url@ + endpoint@),
    {
        transport::transport_send(self.prepare_delete(endpoint))
    }

    /// Make a request to the specified endpoint with a specified request
    /// method; `data` is optional and stands for the empty string when absent
    /// on the verbs that carry a body.
    pub fn request(&self, endpoint: &str, method: RequestMethod, data: Option<&str>) -> (r: Option<
        Response,
    >)
        requires
            self.wf(),
        ensures
            r is Some ==> url_ok(self.base_url@ + endpoint@),
    {
        transport::transport_send(self.prepare_request(endpoint, method, data))
    }
}

/// Whether the builder carries no headers yet.
pub open spec fn builder_headers_empty(b: RequestBuilder) -> bool {
    transport::builder_headers(b) == no_headers()
}

/// The payload as a mathematical value, where one was given.
pub open spec fn data_view(data: Option<&str>) -> Option<Seq<char>> {
    match data {
        Some(d) => Some(d@),
        None => None,
    }
}

} // verus!
