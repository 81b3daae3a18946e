//! The handling of a user's requests: who may ask what, and what each answer
//! changes and announces.

pub mod access;
pub mod model;
pub mod handler;
pub mod mock;
