//! A minimal custodial value vault.
//!
//! The vault pools funds under a single authority: anyone may deposit,
//! only the recorded authority may withdraw, and every balance change is
//! guarded by checked arithmetic so the vault can never be overdrawn.
//! The vault record itself lives at a deterministic address recomputed
//! from a fixed seed and a recorded bump byte, so no caller-supplied
//! address is ever trusted.

pub mod engine;
pub mod errors;
pub mod principal;
pub mod registry;

pub use engine::{deposit, withdraw};
pub use errors::VaultError;
pub use principal::PrincipalId;
pub use registry::{Vault, VaultRecord, VaultRegistry};
