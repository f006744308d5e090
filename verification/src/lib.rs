//! Credential-less signup, token-based login, token issuance and verification,
//! and the repository abstraction that keeps the business rules independent of
//! any concrete storage backend.

pub mod dtos;
pub mod error;
pub mod jwt;
pub mod repository;
pub mod service;
