//! The HTTP side of the server: who may open a socket, and what each
//! request is logged as.

pub mod layer;
