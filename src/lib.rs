//! An HTTP reverse proxy configured by a subset of the Envoy v3 data model.
//!
//! The library holds the routing engine: compiling configuration messages into
//! listeners, virtual hosts, routes and clusters, choosing a cluster and an
//! endpoint for each request, and rendering the synthetic error responses.
//! Sockets, the HTTP engine and the reactors are driven by the caller.

pub mod address;
pub mod args;
pub mod bootstrap;
pub mod cluster;
pub mod domain;
pub mod event_loop;
pub mod hcm;
pub mod listener;
pub mod response;
pub mod route;
pub mod table;
pub mod text;
pub mod v3;
