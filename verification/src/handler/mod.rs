//! What the service decides for each request, from the values that its
//! transport and its persistence layer hand it.

pub mod auth;
pub mod file;
pub mod file_query;
pub mod user;
