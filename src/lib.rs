//! Custody records for material items: creation with a fixed-size
//! identifier, and transfers that only the current holder may make, each
//! advancing the record's transfer counter by one.

pub mod identity;
pub mod laws;
pub mod material;
pub mod transfer;

pub use identity::Identity;
pub use material::{initialize_material, InitializeMaterial, Material};
pub use transfer::{transfer_material, CustodyError, TransferMaterial};
