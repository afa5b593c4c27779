//! Verified core of a REST user-management service: configuration,
//! error mapping, request validation, pagination, token claims,
//! password checks and rate limiting.

pub mod auth;
pub mod cache;
pub mod codec;
pub mod config;
pub mod errors;
pub mod health;
pub mod ids;
pub mod models;
pub mod pagination;
pub mod password;
pub mod rate_limit;
pub mod read_through;
pub mod repository;
pub mod text;
pub mod users;
