//! Core rules of an Elo table-tennis ladder: input normalization, game
//! validation, the rating table, request routing and the websocket protocol.

pub mod args;
pub mod control;
pub mod handler;
pub mod mailbox;
pub mod rating;
pub mod ratings;
pub mod text;
pub mod types;
pub mod replay;
pub mod server;
pub mod smtp;
pub mod status;
pub mod store;
pub mod ws;
