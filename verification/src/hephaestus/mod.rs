//! Host-neutral Hephaestus fleet-control domain types.
pub mod agent;
pub mod dns;
pub mod health;
pub mod inventory;
pub mod node;
pub mod region;
pub mod report;
