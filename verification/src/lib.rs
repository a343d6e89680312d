//! Core domain logic of a multi-tenant CRM backend: typed prefixed
//! identifiers, organization membership and roles, API-key authentication,
//! and the data rules behind each HTTP operation, all verified.

pub mod api_keys;
pub mod auth;
pub mod cli;
pub mod client;
pub mod crm;
pub mod errors;
pub mod handlers;
pub mod ids;
pub mod invitations;
pub mod models;
pub mod plans;
pub mod roles;
pub mod store;
pub mod tasks;
pub mod text;
pub mod validate;
