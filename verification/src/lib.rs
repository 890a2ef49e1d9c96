//! **roy** is a high-level library for consuming RESTful APIs.
//!
//! A [`Client`] holds an API's base URL and an HTTP transport. Its verb
//! methods (`get`, `post`, `put`, `patch`, `delete`) prepend the base URL to a
//! relative endpoint path, optionally attach an authorization header, encode a
//! payload as JSON, and hand the raw response back; any transport-level
//! failure collapses to an absent response.
//!
//! Every request a client issues is first assembled into a transport request
//! builder by a verified routine whose contract pins down, through the spec
//! model in [`model`], exactly which method, URL, headers and body the
//! transport is given.

pub mod client;
pub mod model;
pub mod transport;

pub use client::Client;
pub use model::RequestMethod;
