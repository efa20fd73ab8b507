//! The client side: how requests to the interface are formed, how the token is
//! kept, and how the state of the user interface follows the answers.

pub mod api;
pub mod auth;
pub mod auth_context;
pub mod forms;
pub mod organization_context;
pub mod organizations;
pub mod pages;
pub mod projects;
pub mod tasks;
