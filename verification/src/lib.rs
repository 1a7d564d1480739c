//! Request handling for a small task service: the schemas of its requests,
//! the statements it sends to its store, and the responses it gives.

pub mod model;
pub mod schema;
pub mod response;
pub mod store;
pub mod routes;
pub mod table;
pub mod laws;
pub mod services;
