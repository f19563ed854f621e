use vstd::prelude::*;
use crate::error::ErrorCode;
use crate::governance::TokenOwnerRecord;
use crate::pubkey::Pubkey;
use crate::state::deposit_entry::DepositEntry;
use crate::state::registrar::Registrar;
use crate::state::voting_mint_config::VotingMintConfig;

verus! {

/// User account for minting voting rights.
#[derive(Clone, Copy, Debug)]
pub struct Voter {
    pub voter_authority: Pubkey,
    pub registrar: Pubkey,
    pub deposits: [DepositEntry; 32],
    pub voter_bump: u8,
    pub voter_weight_record_bump: u8,
    /// The most recent slot a deposit was made in.
    pub last_deposit_slot: u64,
    pub padding: [u8; 30],
}

/// The total vote power of the first `n` deposits, skipping unused ones;
/// the first error of a deposit's vote power ends the sum.
pub open spec fn spec_weight_upto(
    deposits: Seq<DepositEntry>,
    mints: Seq<VotingMintConfig>,
    curr_ts: int,
    n: nat,
) -> Result<int, ErrorCode>
    decreases n,
{
    if n == 0 {
        Ok(0)
    } else {
        match spec_weight_upto(deposits, mints, curr_ts, (n - 1) as nat) {
            Err(e) => Err(e),
            Ok(s) => {
                let d = deposits[n - 1];
                if !d.is_used {
                    Ok(s)
                } else {
                    match d.spec_voting_power(mints[d.voting_mint_config_idx as int], curr_ts) {
                        Err(e) => Err(e),
                        Ok(v) => Ok(s + v),
                    }
                }
            },
        }
    }
}

/// Summing the first `n` deposits neither overflows nor reads a voting mint
/// out of bounds, up to the first error.
pub open spec fn weight_fits_upto(
    deposits: Seq<DepositEntry>,
    mints: Seq<VotingMintConfig>,
    curr_ts: int,
    n: nat,
) -> bool
    decreases n,
{
    n == 0 || {
        &&& weight_fits_upto(deposits, mints, curr_ts, (n - 1) as nat)
        &&& (spec_weight_upto(deposits, mints, curr_ts, (n - 1) as nat) is Ok && deposits[n
            - 1].is_used) ==> {
            let d = deposits[n - 1];
            let s = spec_weight_upto(deposits, mints, curr_ts, (n - 1) as nat)->Ok_0;
            &&& d.voting_mint_config_idx < mints.len()
            &&& d.voting_power_fits(mints[d.voting_mint_config_idx as int], curr_ts)
            &&& d.spec_voting_power(mints[d.voting_mint_config_idx as int], curr_ts) matches Ok(v)
                ==> s + v <= u64::MAX
        }
    }
}

pub proof fn lemma_weight_upto_nonneg(
    deposits: Seq<DepositEntry>,
    mints: Seq<VotingMintConfig>,
    curr_ts: int,
    n: nat,
)
    requires
        weight_fits_upto(deposits, mints, curr_ts, n),
    ensures
        spec_weight_upto(deposits, mints, curr_ts, n) matches Ok(s) ==> 0 <= s <= u64::MAX,
    decreases n,
{
    if n > 0 {
        lemma_weight_upto_nonneg(deposits, mints, curr_ts, (n - 1) as nat);
        let d = deposits[n - 1];
        if spec_weight_upto(deposits, mints, curr_ts, (n - 1) as nat) is Ok && d.is_used {
            let c = mints[d.voting_mint_config_idx as int];
            if d.spec_voting_power(c, curr_ts) is Ok {
                d.lemma_voting_power_bounds(c, curr_ts);
            }
        }
    }
}

/// Vote weight decays: between two times at which it can be computed, the
/// summed vote power of the first `n` deposits never grows.
pub proof fn lemma_weight_upto_decays(
    deposits: Seq<DepositEntry>,
    mints: Seq<VotingMintConfig>,
    t1: int,
    t2: int,
    n: nat,
)
    requires
        t1 <= t2,
        weight_fits_upto(deposits, mints, t1, n),
        weight_fits_upto(deposits, mints, t2, n),
        spec_weight_upto(deposits, mints, t1, n) is Ok,
        spec_weight_upto(deposits, mints, t2, n) is Ok,
    ensures
        spec_weight_upto(deposits, mints, t2, n)->Ok_0 <= spec_weight_upto(deposits, mints, t1, n)->Ok_0,
    decreases n,
{
    if n > 0 {
        lemma_weight_upto_decays(deposits, mints, t1, t2, (n - 1) as nat);
        let d = deposits[n - 1];
        if d.is_used {
            let c = mints[d.voting_mint_config_idx as int];
            let m = c.spec_max_lockup_vote_weight(d.amount_initially_locked_native as int)->Some_0;
            c.lemma_vote_weights_in_range(
                d.amount_deposited_native as int,
                d.amount_initially_locked_native as int,
            );
            d.lemma_voting_power_locked_decays(t1, t2, m, c.lockup_saturation_secs as int);
        }
    }
}

impl DepositEntry {
    /// The vote power of a deposit is never negative: it is the weight of
    /// the deposited tokens plus a lockup bonus of at most the maximum
    /// lockup weight of the initially locked tokens.
    pub proof fn lemma_voting_power_bounds(self, config: VotingMintConfig, curr_ts: int)
        requires
            self.voting_power_fits(config, curr_ts),
            self.spec_voting_power(config, curr_ts) is Ok,
        ensures
            0 <= self.spec_voting_power(config, curr_ts)->Ok_0 <= u64::MAX,
            config.spec_unlocked_vote_weight(self.amount_deposited_native as int)->Some_0
                <= self.spec_voting_power(config, curr_ts)->Ok_0
                <= config.spec_unlocked_vote_weight(self.amount_deposited_native as int)->Some_0
                + config.spec_max_lockup_vote_weight(
                self.amount_initially_locked_native as int,
            )->Some_0,
    {
        let u = config.spec_unlocked_vote_weight(self.amount_deposited_native as int)->Some_0;
        let m = config.spec_max_lockup_vote_weight(self.amount_initially_locked_native as int)->Some_0;
        config.lemma_vote_weights_in_range(
            self.amount_deposited_native as int,
            self.amount_initially_locked_native as int,
        );
        self.lemma_voting_power_locked_bounds(curr_ts, m, config.lockup_saturation_secs as int);
    }
}

impl Voter {
    /// Both voters agree on everything but their deposits and the slot of
    /// the last deposit.
    pub open spec fn same_identity(self, other: Voter) -> bool {
        &&& self.voter_authority == other.voter_authority
        &&& self.registrar == other.registrar
        &&& self.voter_bump == other.voter_bump
        &&& self.voter_weight_record_bump == other.voter_weight_record_bump
        &&& self.padding == other.padding
    }

    /// Both voters hold the same state: the same deposits and the same
    /// everything else.
    pub open spec fn same_state(self, other: Voter) -> bool {
        &&& self.deposits@ == other.deposits@
        &&& self.last_deposit_slot == other.last_deposit_slot
        &&& self.same_identity(other)
    }

    /// No deposit entry is in use, as in a freshly created voter account.
    pub open spec fn all_deposits_unused(self) -> bool {
        forall|i: int| 0 <= i < 32 ==> !(#[trigger] self.deposits@[i]).is_used
    }

    pub open spec fn spec_weight(self, registrar: Registrar, curr_ts: int) -> Result<int, ErrorCode> {
        spec_weight_upto(self.deposits@, registrar.voting_mints@, curr_ts, 32)
    }

    /// A voter's weight decays as time passes: without instructions in
    /// between, the weight at a later time is never larger than at an
    /// earlier one.
    pub proof fn lemma_weight_decays(self, registrar: Registrar, t1: int, t2: int)
        requires
            t1 <= t2,
            weight_fits_upto(self.deposits@, registrar.voting_mints@, t1, 32),
            weight_fits_upto(self.deposits@, registrar.voting_mints@, t2, 32),
            self.spec_weight(registrar, t1) is Ok,
            self.spec_weight(registrar, t2) is Ok,
        ensures
            self.spec_weight(registrar, t2)->Ok_0 <= self.spec_weight(registrar, t1)->Ok_0,
    {
        lemma_weight_upto_decays(self.deposits@, registrar.voting_mints@, t1, t2, 32);
    }

    /// The voter's total vote power at the registrar's clock: the sum of the
    /// vote power of every used deposit.
    pub fn weight(&self, registrar: &Registrar, unix_timestamp: i64) -> (r: Result<u64, ErrorCode>)
        requires
            i64::MIN <= unix_timestamp + registrar.time_offset <= i64::MAX,
            weight_fits_upto(
                self.deposits@,
                registrar.voting_mints@,
                unix_timestamp + registrar.time_offset,
                32,
            ),
        ensures
            match (r, self.spec_weight(*registrar, unix_timestamp + registrar.time_offset)) {
                (Ok(v), Ok(s)) => v == s,
                (Err(e), Err(s)) => e == s,
                _ => false,
            },
    {
        let curr_ts = registrar.clock_unix_timestamp(unix_timestamp);
        let ghost deposits = self.deposits@;
        let ghost mints = registrar.voting_mints@;
        let mut sum: u64 = 0;
        let mut i: usize = 0;
        while i < 32
            invariant
                0 <= i <= 32,
                deposits == self.deposits@,
                mints == registrar.voting_mints@,
                curr_ts == unix_timestamp + registrar.time_offset,
                weight_fits_upto(deposits, mints, curr_ts as int, 32),
                spec_weight_upto(deposits, mints, curr_ts as int, i as nat) == Ok::<int, ErrorCode>(
                    sum as int,
                ),
            decreases 32 - i,
        {
            proof {
                lemma_weight_fits_prefix(deposits, mints, curr_ts as int, (i + 1) as nat, 32);
            }
            let d = &self.deposits[i];
            if d.is_used {
                let vp = d.voting_power(&registrar.voting_mints[d.voting_mint_config_idx as usize], curr_ts);
                match vp {
                    Ok(v) => {
                        sum = sum + v;
                    },
                    Err(e) => {
                        proof {
                            assert(deposits[i as int] == *d);
                            assert(spec_weight_upto(deposits, mints, curr_ts as int, (i + 1) as nat)
                                == Err::<int, ErrorCode>(e));
                            lemma_weight_err_propagates(deposits, mints, curr_ts as int, (i + 1) as nat, 32);
                            assert(self.spec_weight(*registrar, curr_ts as int) == Err::<int, ErrorCode>(e));
                        }
                        return Err(e);
                    },
                }
            }
            i = i + 1;
        }
        Ok(sum)
    }

    /// The deposit entry at `index`, which must be in use.
    pub fn active_deposit_mut(&mut self, index: u8) -> (r: Result<&mut DepositEntry, ErrorCode>)
        ensures
            index >= 32 ==> r is Err && r->Err_0 == ErrorCode::OutOfBoundsDepositEntryIndex,
            index < 32 && !old(self).deposits@[index as int].is_used ==> r is Err && r->Err_0
                == ErrorCode::UnusedDepositEntryIndex,
            index < 32 && old(self).deposits@[index as int].is_used ==> r is Ok,
            r is Err ==> *final(self) == *old(self),
            r matches Ok(d) ==> *d == old(self).deposits@[index as int],
            r matches Ok(d) ==> final(self).deposits@ == old(self).deposits@.update(index as int, *final(d)),
            r is Ok ==> final(self).voter_authority == old(self).voter_authority
                && final(self).registrar == old(self).registrar
                && final(self).last_deposit_slot == old(self).last_deposit_slot
                && final(self).voter_bump == old(self).voter_bump
                && final(self).voter_weight_record_bump == old(self).voter_weight_record_bump
                && final(self).padding == old(self).padding,
    {
        let index = index as usize;
        if !(index < 32) {
            return Err(ErrorCode::OutOfBoundsDepositEntryIndex);
        }
        if !self.deposits[index].is_used {
            return Err(ErrorCode::UnusedDepositEntryIndex);
        }
        Ok(&mut self.deposits[index])
    }

    /// Checks that a governance token owner record belongs to this voter's authority.
    pub fn load_token_owner_record(&self, record: TokenOwnerRecord) -> (r: Result<
        TokenOwnerRecord,
        ErrorCode,
    >)
        ensures
            record.governing_token_owner.key_eq(self.voter_authority) ==> r == Ok::<
                TokenOwnerRecord,
                ErrorCode,
            >(record),
            !record.governing_token_owner.key_eq(self.voter_authority) ==> r == Err::<
                TokenOwnerRecord,
                ErrorCode,
            >(ErrorCode::InvalidTokenOwnerRecord),
    {
        if !(record.governing_token_owner == self.voter_authority) {
            return Err(ErrorCode::InvalidTokenOwnerRecord);
        }
        Ok(record)
    }
}

/// The fit condition for a sum holds for every shorter sum.
pub proof fn lemma_weight_fits_prefix(
    deposits: Seq<DepositEntry>,
    mints: Seq<VotingMintConfig>,
    curr_ts: int,
    k: nat,
    n: nat,
)
    requires
        k <= n,
        weight_fits_upto(deposits, mints, curr_ts, n),
    ensures
        weight_fits_upto(deposits, mints, curr_ts, k),
    decreases n,
{
    if k < n {
        lemma_weight_fits_prefix(deposits, mints, curr_ts, k, (n - 1) as nat);
    }
}

/// Once a sum fails, every longer sum fails with the same error.
pub proof fn lemma_weight_err_propagates(
    deposits: Seq<DepositEntry>,
    mints: Seq<VotingMintConfig>,
    curr_ts: int,
    k: nat,
    n: nat,
)
    requires
        k <= n,
        spec_weight_upto(deposits, mints, curr_ts, k) is Err,
    ensures
        spec_weight_upto(deposits, mints, curr_ts, n) == spec_weight_upto(deposits, mints, curr_ts, k),
    decreases n,
{
    if k < n {
        lemma_weight_err_propagates(deposits, mints, curr_ts, k, (n - 1) as nat);
    }
}


/// The sum of the first `n` deposits reads no deposit at or beyond `n`.
pub proof fn lemma_weight_upto_prefix(
    deposits: Seq<DepositEntry>,
    other: Seq<DepositEntry>,
    mints: Seq<VotingMintConfig>,
    curr_ts: int,
    n: nat,
)
    requires
        n <= deposits.len(),
        n <= other.len(),
        forall|k: int| 0 <= k < n ==> deposits[k] == other[k],
    ensures
        spec_weight_upto(deposits, mints, curr_ts, n) == spec_weight_upto(other, mints, curr_ts, n),
    decreases n,
{
    if n > 0 {
        lemma_weight_upto_prefix(deposits, other, mints, curr_ts, (n - 1) as nat);
        assert(deposits[n - 1] == other[n - 1]);
    }
}

/// Setting aside a used deposit `i` among the first `n` takes exactly its
/// vote power off their sum, whichever voting mint it uses; an error of
/// another deposit stays the same error.
pub proof fn lemma_weight_upto_without(
    deposits: Seq<DepositEntry>,
    mints: Seq<VotingMintConfig>,
    curr_ts: int,
    i: int,
    v: int,
    n: nat,
)
    requires
        0 <= i < n <= deposits.len(),
        deposits[i].is_used,
        deposits[i].spec_voting_power(mints[deposits[i].voting_mint_config_idx as int], curr_ts)
            == Ok::<int, ErrorCode>(v),
    ensures
        ({
            let without = deposits.update(i, DepositEntry { is_used: false, ..deposits[i] });
            match spec_weight_upto(deposits, mints, curr_ts, n) {
                Ok(s) => spec_weight_upto(without, mints, curr_ts, n) == Ok::<int, ErrorCode>(s - v),
                Err(e) => spec_weight_upto(without, mints, curr_ts, n) == Err::<int, ErrorCode>(e),
            }
        }),
    decreases n,
{
    let without = deposits.update(i, DepositEntry { is_used: false, ..deposits[i] });
    if n == i + 1 {
        lemma_weight_upto_prefix(deposits, without, mints, curr_ts, i as nat);
    } else {
        lemma_weight_upto_without(deposits, mints, curr_ts, i, v, (n - 1) as nat);
        assert(without[n - 1] == deposits[n - 1]);
    }
}

/// A voter's weight counts a deposit only while it is used.
pub proof fn lemma_weight_upto_single(
    deposits: Seq<DepositEntry>,
    mints: Seq<VotingMintConfig>,
    curr_ts: int,
    i: int,
    n: nat,
)
    requires
        0 <= i < deposits.len(),
        n <= deposits.len(),
        forall|k: int| 0 <= k < deposits.len() && k != i ==> !(#[trigger] deposits[k]).is_used,
    ensures
        spec_weight_upto(deposits, mints, curr_ts, n) == if n <= i || !deposits[i].is_used {
            Ok::<int, ErrorCode>(0)
        } else {
            match deposits[i].spec_voting_power(
                mints[deposits[i].voting_mint_config_idx as int],
                curr_ts,
            ) {
                Ok(v) => Ok::<int, ErrorCode>(v),
                Err(e) => Err(e),
            }
        },
    decreases n,
{
    if n > 0 {
        lemma_weight_upto_single(deposits, mints, curr_ts, i, (n - 1) as nat);
        if n - 1 != i {
            assert(!deposits[n - 1].is_used);
        }
    }
}

impl Voter {
    /// The weight sums the vote power of every used deposit, whichever
    /// voting mint each uses: setting aside one used deposit whose power is
    /// `v` lowers the voter's weight by exactly `v`, and leaves an error of
    /// another deposit as it was.
    pub proof fn law_weight_counts_each_used_deposit(
        self,
        without: Voter,
        registrar: Registrar,
        curr_ts: int,
        i: int,
    )
        requires
            0 <= i < 32,
            self.deposits@[i].is_used,
            self.deposits@[i].spec_voting_power(
                registrar.voting_mints@[self.deposits@[i].voting_mint_config_idx as int],
                curr_ts,
            ) is Ok,
            without.deposits@ == self.deposits@.update(
                i,
                DepositEntry { is_used: false, ..self.deposits@[i] },
            ),
        ensures
            ({
                let v = self.deposits@[i].spec_voting_power(
                    registrar.voting_mints@[self.deposits@[i].voting_mint_config_idx as int],
                    curr_ts,
                )->Ok_0;
                match self.spec_weight(registrar, curr_ts) {
                    Ok(s) => without.spec_weight(registrar, curr_ts) == Ok::<int, ErrorCode>(s - v),
                    Err(e) => without.spec_weight(registrar, curr_ts) == Err::<int, ErrorCode>(e),
                }
            }),
    {
        let v = self.deposits@[i].spec_voting_power(
            registrar.voting_mints@[self.deposits@[i].voting_mint_config_idx as int],
            curr_ts,
        )->Ok_0;
        lemma_weight_upto_without(self.deposits@, registrar.voting_mints@, curr_ts, i, v, 32);
    }

    /// A voter whose only used deposit is `i` weighs exactly that deposit's
    /// vote power, under whichever voting mint it uses.
    pub proof fn law_weight_of_single_deposit(self, registrar: Registrar, curr_ts: int, i: int)
        requires
            0 <= i < 32,
            self.deposits@[i].is_used,
            forall|k: int| 0 <= k < 32 && k != i ==> !(#[trigger] self.deposits@[k]).is_used,
        ensures
            self.spec_weight(registrar, curr_ts) == self.deposits@[i].spec_voting_power(
                registrar.voting_mints@[self.deposits@[i].voting_mint_config_idx as int],
                curr_ts,
            ),
    {
        lemma_weight_upto_single(self.deposits@, registrar.voting_mints@, curr_ts, i, 32);
    }
}

} // verus!
