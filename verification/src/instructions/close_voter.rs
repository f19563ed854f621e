use vstd::prelude::*;
use crate::error::ErrorCode;
use crate::pubkey::Pubkey;
use crate::state::deposit_entry::DepositEntry;
use crate::state::voter::Voter;

verus! {

/// The tokens held by the first `n` deposit entries.
pub open spec fn deposited_upto(deposits: Seq<DepositEntry>, n: nat) -> int
    decreases n,
{
    if n == 0 {
        0
    } else {
        deposited_upto(deposits, (n - 1) as nat) + deposits[n - 1].amount_deposited_native
    }
}

pub proof fn lemma_deposited_upto_monotonic(deposits: Seq<DepositEntry>, k: nat, n: nat)
    requires
        k <= n,
    ensures
        0 <= deposited_upto(deposits, k) <= deposited_upto(deposits, n),
    decreases n,
{
    if k < n {
        lemma_deposited_upto_monotonic(deposits, k, (n - 1) as nat);
    } else if n > 0 {
        lemma_deposited_upto_monotonic(deposits, (n - 1) as nat, (n - 1) as nat);
    }
}

/// Replacing entry `i` changes the tokens held by the first `n` entries by
/// what the new entry holds more or less, when `i` is among them.
pub proof fn lemma_deposited_upto_update(deposits: Seq<DepositEntry>, i: int, e: DepositEntry, n: nat)
    requires
        0 <= i < deposits.len(),
        n <= deposits.len(),
    ensures
        deposited_upto(deposits.update(i, e), n) == deposited_upto(deposits, n) + if i < n {
            e.amount_deposited_native - deposits[i].amount_deposited_native
        } else {
            0
        },
    decreases n,
{
    if n > 0 {
        lemma_deposited_upto_update(deposits, i, e, (n - 1) as nat);
    }
}

/// The error closing a voter reports, if any.
pub open spec fn spec_close_voter_error(
    voter: Voter,
    voter_key: Pubkey,
    token_account_owners: Seq<Pubkey>,
) -> Option<ErrorCode> {
    if deposited_upto(voter.deposits@, 32) != 0 {
        Some(ErrorCode::VotingTokenNonZero)
    } else if exists|i: int|
        0 <= i < token_account_owners.len() && !(#[trigger] token_account_owners[i]).key_eq(
            voter_key,
        ) {
        Some(ErrorCode::InvalidAuthority)
    } else {
        None
    }
}

/// Checks that a voter account can be closed: none of its deposit entries
/// holds tokens, and each token account that closes with it (given by its
/// owner) belongs to the voter account `voter_key`. The caller then closes
/// those token accounts and the voter account.
pub fn close_voter(voter: &Voter, voter_key: Pubkey, token_account_owners: &Vec<Pubkey>) -> (r:
    Result<(), ErrorCode>)
    requires
        deposited_upto(voter.deposits@, 32) <= u64::MAX,
    ensures
        match spec_close_voter_error(*voter, voter_key, token_account_owners@) {
            Some(e) => r == Err::<(), ErrorCode>(e),
            None => r is Ok,
        },
{
    let mut amount: u64 = 0;
    let mut i: usize = 0;
    while i < 32
        invariant
            i <= 32,
            amount == deposited_upto(voter.deposits@, i as nat),
            deposited_upto(voter.deposits@, 32) <= u64::MAX,
        decreases 32 - i,
    {
        proof {
            lemma_deposited_upto_monotonic(voter.deposits@, (i + 1) as nat, 32);
        }
        amount = amount.checked_add(voter.deposits[i].amount_deposited_native).unwrap();
        i = i + 1;
    }
    if !(amount == 0) {
        return Err(ErrorCode::VotingTokenNonZero);
    }

    let mut k: usize = 0;
    while k < token_account_owners.len()
        invariant
            k <= token_account_owners@.len(),
            deposited_upto(voter.deposits@, 32) == 0,
            forall|j: int| 0 <= j < k ==> (#[trigger] token_account_owners@[j]).key_eq(voter_key),
        decreases token_account_owners@.len() - k,
    {
        if !(token_account_owners[k] == voter_key) {
            return Err(ErrorCode::InvalidAuthority);
        }
        k = k + 1;
    }
    Ok(())
}

} // verus!
