//! Host-neutral application kit: adapter conventions, app shapes, config
//! parsing helpers and contract descriptors.
pub mod adapters;
pub mod app;
pub mod contract;
pub mod cookies;
pub mod jsonc;
