//! The rules that the store applies before and after it touches the
//! database.

pub mod error;
pub mod games;
pub mod invites;
pub mod players;
pub mod query;

pub use error::Error;
