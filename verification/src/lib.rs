//! Request checks and error messages for a DynamoDB-compatible server.

pub mod auth;
pub mod auth_laws;
pub mod error;
pub mod http;
pub mod json;
pub mod net;
pub mod serde_errors;
pub mod serde_laws;
pub mod text;
pub mod text_laws;
