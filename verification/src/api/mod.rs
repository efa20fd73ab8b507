//! The request handlers.
//!
//! Each handler comes in two forms. The step function takes the request and the
//! replies of the store so far; it resolves the caller, asks the authorization
//! rules, and either names the statement it needs next, gives the answer, or
//! ends the request with an error. It never touches a store, so whoever holds
//! one can run it: a server runs it against its database. The function without
//! `_step` in its name runs the steps on the store in memory, and its contract
//! says what the request does to that store.

pub mod auth;
pub mod organizations;
pub mod projects;
pub mod steps;
pub mod tasks;
