//! The Hephaestus control-plane contract: request, response and catalog
//! types, and RPC method paths.
pub mod domain_conversion;
pub mod dto;
pub mod node;
pub mod report_conversion;
pub mod rpc;
pub mod vultr_conversion;
pub mod wire;
