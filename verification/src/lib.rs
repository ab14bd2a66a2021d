//! Validated domain model of the Hephaestus fleet-control plane and of the
//! application kit it is hosted with.
pub mod contract;
pub mod hephaestus;
pub mod kit;
pub mod text;
pub mod vultr;
