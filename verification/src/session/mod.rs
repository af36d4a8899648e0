//! Sessions: who is a peer, what identity it publishes, and which connection
//! carries its traffic.
pub mod eager;
pub mod entry_laws;
pub mod error;
pub mod event_laws;
pub mod hello;
pub mod identity;
pub mod model;
pub mod peer;
pub mod registry;
pub mod routing_laws;
pub mod laws;
