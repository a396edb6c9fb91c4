//! Core of a pet-matching backend: validation of user and cat records, the
//! filter-to-query builder for listings and lookups, identity-token claims,
//! password hashing, and the mapping from failures to HTTP status codes.
pub mod entities;
pub mod handlers;
pub mod number;
pub mod passwords;
pub mod query;
pub mod text;
pub mod token;
pub mod validation;
