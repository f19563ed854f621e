pub mod error;
pub mod events;
pub mod governance;
pub mod governance_registry;
pub mod instructions;
pub mod math;
pub mod pubkey;
pub mod state;
