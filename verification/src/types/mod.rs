//! Plain data shapes exchanged with the remote API.

pub mod chat;
pub mod payments;
pub mod primitive;
pub mod update;
pub mod user;
