//! A small todo service, verified end to end: an in-memory model of the
//! todo table with a uniqueness constraint on titles, request handlers that
//! validate input and map store outcomes to HTTP status codes and bodies,
//! an error taxonomy with its exact response mapping, a router for the
//! `/todos` surface, and JSON rendering of every response body.

pub mod errors;
pub mod handlers;
pub mod json;
pub mod models;
pub mod parser;
pub mod response;
pub mod router;
pub mod store;
pub mod text;
