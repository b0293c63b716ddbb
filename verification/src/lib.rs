//! Client-side rules of the Nowledge Mem REST API SDK: credential
//! normalization, base URL validation, request query handling, client
//! configuration and multipart form assembly.

pub mod base_url;
pub mod client;
pub mod config;
pub mod credentials;
pub mod query;
pub mod error;
pub mod multipart;
pub mod text;
