//! The persisted entity and the handlers that work on it.

pub mod user;
