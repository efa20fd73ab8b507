//! Access control and entity rules of a multi-tenant project and task tracker.
//!
//! Organizations own projects, projects own tasks, tasks carry comments. Every
//! operation is a permission check followed by a read or a write of the entity
//! store.
//!
//! - `error`: the error taxonomy and its status codes.
//! - `models`, `ident`: the entities, and identifiers as text.
//! - `credentials`, `middleware`: passwords, tokens, and the session resolver.
//! - `access`: who may do what.
//! - `store`: the tables, their statements, and the statements as values.
//! - `api`: the request handlers. A handler is a step function: given the
//!   replies of the store so far, it names the next statement or gives the
//!   answer. Beside each stands the handler that runs the steps on the store in
//!   memory.
//! - `config`, `state`: the configuration and what the handlers work on.
//! - `client`: the client side.
//! - `theorems`: what holds across requests.

pub mod error;
pub mod text;
pub mod models;
pub mod ident;
pub mod credentials;
pub mod store;
pub mod access;
pub mod config;
pub mod state;
pub mod api;
pub mod middleware;
pub mod client;
pub mod theorems;
