use vstd::prelude::*;
use crate::pubkey::Pubkey;

verus! {

/// What a voter weight account holds.
#[derive(Clone, Copy, Debug, PartialEq, Eq, Structural)]
pub enum VoterWeightAccountType {
    /// Not set up yet.
    Uninitialized,
    /// A voter's weight record.
    VoterWeightRecord,
}

/// The record that the governance program reads as a voter's weight.
#[derive(Clone, Copy, Debug)]
pub struct VoterWeightRecord {
    /// The kind of the account: a voter weight record once set up.
    pub account_type: VoterWeightAccountType,
    /// The Realm the record belongs to.
    pub realm: Pubkey,
    /// Governing Token Mint the record is for.
    pub governing_token_mint: Pubkey,
    /// The owner of the governing tokens and voter.
    pub governing_token_owner: Pubkey,
    /// Voter's weight.
    pub voter_weight: u64,
    /// The slot when the voting weight expires.
    pub voter_weight_expiry: Option<u64>,
}

} // verus!
