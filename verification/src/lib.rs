//! A small verified core for a template-driven web front end.
//!
//! The library holds the logic of the application: routing a request by
//! method and path, the template registry and its rendering contract, the
//! render context, the guard that keeps static-asset paths inside their
//! root, and the request handlers. Listening on a socket, reading files
//! and the HTTP plumbing live outside, in an ordinary binary that calls
//! into these verified functions.

pub mod strutil;

pub mod router;

pub mod statics;

pub mod registry;

pub mod handlers;
