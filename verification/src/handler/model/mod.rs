//! The messages of the ladder's protocol.

pub mod error;
pub mod push;
pub mod request;
pub mod response;

pub use error::Error;
pub use push::Push;
pub use request::Request;
pub use response::Response;
