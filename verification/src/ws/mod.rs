//! The websocket protocol: framing of requests, answers and pushes, and the
//! decisions of the loop that serves one socket.

pub mod layer;
pub mod service;

pub use layer::{Layer, Mode};
pub use service::Error;
