//! Core logic of the Chatte VPN client: subscription handling, server
//! selection, connection bookkeeping and the checks that gate what is handed
//! to the VPN engines.

pub mod text;
pub mod sys;
pub mod vpn;
pub mod state;
pub mod subscription;
pub mod store;
pub mod json;
pub mod singbox;
