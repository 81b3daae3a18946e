//! Mail sent to users: what to send, and the text of each message.

pub mod message;
pub mod payload;
pub mod smtp;

pub use payload::Payload;
pub use smtp::Smtp;
