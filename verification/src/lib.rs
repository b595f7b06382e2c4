//! A small library for a books CRUD service: the record types, an exact
//! model of the storage operations each endpoint performs, the handlers
//! over that model, and the mapping from statement outcomes to HTTP
//! status codes.

pub mod book;
pub mod handlers;
pub mod laws;
pub mod status;
pub mod store;
