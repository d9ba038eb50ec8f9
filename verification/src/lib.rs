//! Client-side logic for a messaging-bot HTTP API: request descriptors,
//! response classification, a long-poll dispatch state machine and a
//! namespaced session layer.

pub mod execute;
pub mod json;
pub mod json_laws;
pub mod longpoll;
pub mod longpoll_laws;
pub mod methods;
pub mod request;
pub mod session;
pub mod session_laws;
pub mod store;
pub mod text;
pub mod types;
