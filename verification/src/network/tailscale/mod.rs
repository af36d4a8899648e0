//! The tailnet provider: a sidecar process reports peers and does the dialing.
pub mod debug_text;
pub mod protocol;
pub mod provider;
pub mod provider_laws;
pub mod report_laws;
pub mod row_laws;
pub mod rows;
pub mod rpc;
pub mod rpc_laws;
pub mod sidecar;
