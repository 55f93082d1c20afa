//! A conditional fund-custody vault: a creator deposits an amount that is
//! later released to one of two destinations, depending on whether an
//! authorized verifier attests a milestone before a deadline. The library
//! holds the vault records, the registry that allocates their identifiers,
//! and the state machine that guards every transition; host concerns
//! (authentication, durable storage, the actual asset movement, event
//! publication, the clock) stay outside and are represented by plain values
//! handed in and out.

pub mod errors;
pub mod laws;
pub mod machine;
pub mod registry;
pub mod vault;

pub use errors::VaultError;
pub use registry::DisciplrVault;
pub use vault::{Principal, ProductivityVault, VaultStatus};
