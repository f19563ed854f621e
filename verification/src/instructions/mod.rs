pub mod deposit;
pub mod withdraw;
pub mod clawback;
pub mod close_deposit_entry;
pub mod reset_lockup;
pub mod create_deposit_entry;
pub mod create_exchange_rate;
pub mod create_voter;
pub mod grant;
pub mod close_voter;
pub mod set_time_offset;
pub mod update_max_vote_weight;
pub mod update_voter_weight_record;
pub mod properties;
