//! A small user-registration service core: payload validation, an in-memory
//! user store with unique e-mail addresses, registration and lookup
//! services, and a machine-readable description of the two API operations.

pub mod api;
pub mod service;
pub mod store;
pub mod validate;
