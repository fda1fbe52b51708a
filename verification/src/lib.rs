//! The decisions of a small microblog server, verified: who may pass the
//! authentication middleware, what a bearer token is worth at a given time,
//! and how each handler answers what the store told it.
//!
//! Nothing in here touches a socket, a database or the environment. The
//! server around it reads requests and runs queries, hands the library plain
//! values, and acts on what comes back.

pub mod accounts;
pub mod error;
pub mod identity;
pub mod laws;
pub mod middleware;
pub mod models;
pub mod password;
pub mod posts;
pub mod reply;
pub mod text;
pub mod token;
