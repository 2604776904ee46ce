//! The request handling of a vector database's HTTP frontend.
//!
//! The crate decides, for each request that a client sends, which checks are
//! made, which request the backend gets, and what the client is answered. It
//! does no I/O: a handler returns a [`exchange::Step`], its caller performs
//! what the step asks for, and hands the outcome back to get the next step.
//!
//! * [`ids`]: the identifiers of collections and databases, and their spelling.
//! * [`model`]: the types of the values that are carried without being read.
//! * [`payloads`]: what clients send.
//! * [`requests`]: what the backend is asked for.
//! * [`exchange`]: the steps of an exchange with the outside, and their order.
//! * [`handlers`]: the first step of each request.
//! * [`routes`]: which path and method lead to which handler.
//! * [`server`]: the server and what it needs to start.
//! * [`laws`]: what holds of whole exchanges.
//! * [`calls`]: what the functions return, in terms of what they are given.
pub mod calls;
pub mod exchange;
pub mod handlers;
pub mod ids;
pub mod laws;
pub mod model;
pub mod payloads;
pub mod requests;
pub mod routes;
pub mod server;
