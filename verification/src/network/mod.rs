//! The network layer: peers as the tailnet reports them, and raw datagrams.
pub mod error_laws;
pub mod glob_laws;
pub mod login_allow;
pub mod tailscale;
pub mod types;
pub mod udp;
