//! Sending, receiving and serving files.
pub mod header;
pub mod intake;
pub mod offer_laws;
pub mod path_laws;
pub mod paths;
pub mod place;
pub mod prefix;
pub mod prefix_laws;
pub mod receiver;
pub mod reception;
pub mod reception_laws;
pub mod serving;
pub mod serving_laws;
pub mod types;
