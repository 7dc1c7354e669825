//! The core of a small blog service: posts, the rules that requests must
//! meet, an in-memory post store, and the mapping of outcomes to responses.

pub mod errors;
pub mod handlers;
pub mod laws;
pub mod models;
pub mod pagination;
pub mod store;
pub mod store_model;
pub mod validation;
