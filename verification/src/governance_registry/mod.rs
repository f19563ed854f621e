pub mod access_control;
pub mod account;
pub mod error;
pub mod instructions;
pub mod properties;
