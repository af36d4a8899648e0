//! The interactive terminal interface, as a state machine over its events.
pub mod event_laws;
pub mod events;
pub mod key_laws;
pub mod keys;
pub mod line;
pub mod offer_laws;
pub mod offers;
pub mod peers;
pub mod state;
