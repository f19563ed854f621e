use vstd::prelude::*;
use crate::error::GovernanceError;
use crate::pubkey::Pubkey;

verus! {

/// What the registry reads of a governance token owner record: who owns
/// the deposited governing tokens and whether they are engaged in votes or
/// proposals.
#[derive(Clone, Copy, Debug)]
pub struct TokenOwnerRecord {
    /// The Realm the record belongs to.
    pub realm: Pubkey,
    /// Governing Token Mint the record holds deposit for.
    pub governing_token_mint: Pubkey,
    /// The owner of the deposited governing tokens.
    pub governing_token_owner: Pubkey,
    /// The number of votes cast by the owner but not relinquished yet.
    pub unrelinquished_votes_count: u32,
    /// The number of outstanding proposals the owner currently owns.
    pub outstanding_proposal_count: u8,
}

impl TokenOwnerRecord {
    pub open spec fn spec_can_withdraw(self) -> Result<(), GovernanceError> {
        if self.unrelinquished_votes_count > 0 {
            Err(GovernanceError::AllVotesMustBeRelinquishedToWithdrawGoverningTokens)
        } else if self.outstanding_proposal_count > 0 {
            Err(GovernanceError::AllProposalsMustBeFinalisedToWithdrawGoverningTokens)
        } else {
            Ok(())
        }
    }

    /// Governing tokens may be withdrawn only once every vote is relinquished
    /// and no proposal of the owner is outstanding.
    pub fn assert_can_withdraw_governing_tokens(&self) -> (r: Result<(), GovernanceError>)
        ensures
            r == self.spec_can_withdraw(),
    {
        if self.unrelinquished_votes_count > 0 {
            return Err(GovernanceError::AllVotesMustBeRelinquishedToWithdrawGoverningTokens);
        }
        if self.outstanding_proposal_count > 0 {
            return Err(GovernanceError::AllProposalsMustBeFinalisedToWithdrawGoverningTokens);
        }
        Ok(())
    }
}

} // verus!
