//! The daemon's requests, responses and notifications.
pub mod answer_laws;
pub mod handler;
pub mod notify;
pub mod protocol;
pub mod replies;
pub mod request_laws;
