//! A path-prefix reverse-proxy core.
//!
//! A client addresses the proxy with the upstream absolute URL embedded in
//! the request path (`GET /https://example.com/foo` asks the proxy to send
//! `GET /foo` to `example.com`). This crate holds the request-rewriting
//! pipeline: extracting the upstream URL from the path, defaulting the
//! scheme, translating headers (the `Host` rewrite), and rewriting upstream
//! `Location` headers so that redirect chains stay routed through the proxy.
//! The network plumbing around it lives outside the library.

pub mod headers;
pub mod laws;
pub mod request;
pub mod response;
pub mod strutil;
pub mod urls;
