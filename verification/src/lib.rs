//! Core of a small todo service: todo lists that own checkable todo items,
//! kept in a relational store.
//!
//! This crate holds the verified part of the service: the data model, a
//! state-machine model of the store with the five data-access operations
//! (list the lists newest first, list a list's items oldest first, create a
//! list, create an item, conditionally check an item), the error taxonomy
//! that shields clients from internal failure detail, and the mapping from
//! operation results to HTTP-shaped responses. The HTTP server, the
//! connection pool and the store driver live outside, in unverified glue
//! that hands this crate plain values and takes plain values back.

pub mod db;
pub mod errors;
pub mod handlers;
pub mod laws;
pub mod models;
pub mod store;
