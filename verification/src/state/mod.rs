pub mod lockup;
pub mod voting_mint_config;
pub mod deposit_entry;
pub mod exchange_entry;
pub mod registrar;
pub mod voter;
pub mod voter_weight_record;
