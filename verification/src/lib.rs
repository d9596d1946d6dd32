//! Compliance control-plane for a programmable token: a role-based access
//! registry, a blacklist with a transfer-time veto, and a privileged
//! seizure operation gated on a mint-level forced-transfer capability.
//!
//! The token ledger itself (balances, the value-transfer primitive) is an
//! external collaborator: this crate decides who may do what, vets
//! transfers, and describes the delegated transfer a seizure performs,
//! but never moves value itself.
pub mod blacklist;
pub mod errors;
pub mod laws;
pub mod registry;
pub mod seize;
pub mod state;
pub mod transfer_hook;

pub use blacklist::Blacklist;
pub use errors::ProgramError;
pub use registry::Registry;
pub use seize::{MintDelegateStatus, SeizeTransfer};
pub use state::{Address, BlacklistEntry, Config, Role};
