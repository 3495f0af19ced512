//! Pages of the server.
pub mod markup;
pub mod repo;
