//! Verified core of a portfolio content API: section caching, section
//! ordering, profile assembly, Cognito token checks and error mapping.

pub mod auth;
pub mod cache;
pub mod common;
pub mod config;
pub mod error;
pub mod json;
pub mod keyed;
pub mod jwk_cache;
pub mod jwt;
pub mod log_level;
pub mod models;
pub mod ordering;
pub mod repo;
pub mod text;
