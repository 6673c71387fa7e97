//! Verified core of a minimal HTTP service served over a Unix domain
//! socket.
//!
//! The library models the whole request/response surface of the
//! service as plain data: a [`http::Request`] is a method and a path,
//! a [`http::Response`] is a status, two optional headers and a body.
//! Every handler and the router are verified executable functions
//! whose contracts pin the response down exactly for every request.
//! The startup sequence (removing a stale socket file, binding the
//! listener) is modelled as a verified state machine in
//! [`bootstrap`]; the binary around the library performs the actual
//! filesystem and socket calls and feeds the observed events back in.

pub mod api;
pub mod bootstrap;
pub mod http;
pub mod router;
