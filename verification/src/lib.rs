//! Mesh networking over a tailnet: who is a peer, who is reached how, and
//! what is said to whom.
pub mod text;
pub mod text_laws;
pub mod text_map;
pub mod commands;
pub mod daemon;
pub mod file_transfer;
pub mod json;
pub mod network;
pub mod node;
pub mod request_reply;
pub mod request_reply_laws;
pub mod resolve;
pub mod resolve_laws;
pub mod session;
pub mod digest;
pub mod tui;
