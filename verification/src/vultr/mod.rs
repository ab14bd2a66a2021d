//! Host-neutral Vultr domain types.
pub mod bootstrap;
pub mod error;
pub mod types;
