//! Staking escrow with a time lock: stake, claim the reward once the lock
//! has run, then withdraw the principal.
use crate::key::{authority_seeds, derive_authority, derives, found_address, verify_authority, Key};
use vstd::prelude::*;

verus! {

/// The least stake, in lamports, that can ever earn the reward.
pub const MIN_STAKE_LAMPORTS: u64 = 500_000_000;

/// How long, in seconds, a stake stays locked before the reward: three days.
pub const MIN_STAKE_SECONDS: i64 = 3 * 24 * 60 * 60;

/// Why a staking operation was refused.
#[derive(Clone, Copy, Debug, PartialEq, Eq, Structural)]
pub enum StakingError {
    StakeTooShort,
    InsufficientStake,
    AlreadyClaimed,
    NFTNotClaimed,
    Unauthorized,
    ArithmeticError,
    BumpNotFound,
}

/// One staker's record.
#[derive(Clone, Copy, Debug)]
pub struct StakeAccount {
    pub owner: Key,
    pub start_ts: i64,
    pub amount: u64,
    pub claimed: bool,
    pub escrow_bump: u8,
}

/// The domain tag of a staker's escrow: the bytes of "stake_escrow".
pub open spec fn escrow_tag() -> Seq<u8> {
    seq![115u8, 116u8, 97u8, 107u8, 101u8, 95u8, 101u8, 115u8, 99u8, 114u8, 111u8, 119u8]
}

/// The outcome of staking `amount` at time `now`, given what the escrow
/// derivation found: the new record, or the error.
pub open spec fn stake_outcome(owner: Key, amount: u64, now: i64, found: Option<(Seq<u8>, u8)>)
    -> Result<StakeAccount, StakingError>
{
    if amount < MIN_STAKE_LAMPORTS {
        Err(StakingError::InsufficientStake)
    } else {
        match found {
            None => Err(StakingError::BumpNotFound),
            Some((_, bump)) => Ok(
                StakeAccount { owner, start_ts: now, amount, claimed: false, escrow_bump: bump },
            ),
        }
    }
}

/// The outcome of claiming the reward on `acc` at time `now`: the record
/// after it, or the error.
pub open spec fn claim_outcome(acc: StakeAccount, now: i64) -> Result<StakeAccount, StakingError> {
    if acc.start_ts + MIN_STAKE_SECONDS > i64::MAX {
        Err(StakingError::ArithmeticError)
    } else if now < acc.start_ts + MIN_STAKE_SECONDS {
        Err(StakingError::StakeTooShort)
    } else if acc.amount < MIN_STAKE_LAMPORTS {
        Err(StakingError::InsufficientStake)
    } else if acc.claimed {
        Err(StakingError::AlreadyClaimed)
    } else {
        Ok(StakeAccount { claimed: true, ..acc })
    }
}

/// The outcome of a withdrawal from `acc` by `user`: the record after it and
/// the lamports that leave the escrow, or the error. `escrow_ok` tells
/// whether the escrow presented matches the recorded nonce.
pub open spec fn withdraw_outcome(acc: StakeAccount, user: Seq<u8>, escrow_ok: bool) -> Result<
    (StakeAccount, u64),
    StakingError,
> {
    if !acc.claimed {
        Err(StakingError::NFTNotClaimed)
    } else if acc.owner@ != user {
        Err(StakingError::Unauthorized)
    } else if !escrow_ok {
        Err(StakingError::BumpNotFound)
    } else {
        Ok((StakeAccount { amount: 0, ..acc }, acc.amount))
    }
}

impl StakeAccount {
    /// Whether `escrow` is this staker's escrow under `program`, proved by
    /// the recorded nonce.
    pub open spec fn escrow_ok(&self, program: Seq<u8>, escrow: Seq<u8>) -> bool {
        derives(escrow_tag(), self.owner@, self.escrow_bump, program, escrow)
    }
}

/// The bytes of "stake_escrow".
pub fn escrow_seed() -> (r: Vec<u8>)
    ensures
        r@ == escrow_tag(),
{
    let r: Vec<u8> = vec![115u8, 116u8, 97u8, 107u8, 101u8, 95u8, 101u8, 115u8, 99u8, 114u8, 111u8, 119u8];
    assert(r@ =~= escrow_tag());
    r
}

/// Stakes `amount` lamports for `user` at time `now`. The new record, which
/// replaces any earlier one, starts the lock and holds the nonce of the
/// user's escrow, into which the caller moves `amount`.
pub fn stake(user: Key, amount: u64, now: i64, program_id: &Key) -> (r: Result<StakeAccount, StakingError>)
    ensures
        amount < MIN_STAKE_LAMPORTS ==> r == Err::<StakeAccount, StakingError>(
            StakingError::InsufficientStake,
        ),
        r == stake_outcome(
            user,
            amount,
            now,
            found_address(authority_seeds(escrow_tag(), user@), program_id@),
        ),
        r matches Ok(acc) ==> found_address(authority_seeds(escrow_tag(), user@), program_id@) matches Some(
            (escrow, _),
        ) && acc.escrow_ok(program_id@, escrow),
{
    if amount < MIN_STAKE_LAMPORTS {
        return Err(StakingError::InsufficientStake);
    }
    let tag = escrow_seed();
    let escrow_bump = match derive_authority(&tag, &user, program_id) {
        Some((_, b)) => b,
        None => return Err(StakingError::BumpNotFound),
    };
    Ok(StakeAccount { owner: user, start_ts: now, amount, claimed: false, escrow_bump })
}

/// Grants the reward on `acc` at time `now`: the lock must have run, the
/// stake must reach the minimum, and no reward may have been granted yet.
/// On failure the record is unchanged.
pub fn claim_nft(acc: &mut StakeAccount, now: i64) -> (r: Result<(), StakingError>)
    ensures
        match claim_outcome(*old(acc), now) {
            Ok(next) => r is Ok && *final(acc) == next,
            Err(e) => r == Err::<(), StakingError>(e) && *final(acc) == *old(acc),
        },
{
    let unlock = match acc.start_ts.checked_add(MIN_STAKE_SECONDS) {
        Some(t) => t,
        None => return Err(StakingError::ArithmeticError),
    };
    if now < unlock {
        return Err(StakingError::StakeTooShort);
    }
    if acc.amount < MIN_STAKE_LAMPORTS {
        return Err(StakingError::InsufficientStake);
    }
    if acc.claimed {
        return Err(StakingError::AlreadyClaimed);
    }
    acc.claimed = true;
    Ok(())
}

/// Releases the principal of `acc` to `user` out of `escrow`: the reward must
/// have been granted, `user` must own the stake, and `escrow` must be the
/// owner's escrow. Returns the lamports that the caller moves from the
/// escrow to the user; the record's amount drops to zero, so a repeated
/// withdrawal moves nothing. On failure the record is unchanged.
pub fn withdraw(acc: &mut StakeAccount, user: &Key, escrow: &Key, program_id: &Key) -> (r: Result<
    u64,
    StakingError,
>)
    ensures
        !old(acc).claimed ==> r == Err::<u64, StakingError>(StakingError::NFTNotClaimed),
        old(acc).claimed && old(acc).owner@ != user@ ==> r == Err::<u64, StakingError>(
            StakingError::Unauthorized,
        ),
        match withdraw_outcome(*old(acc), user@, old(acc).escrow_ok(program_id@, escrow@)) {
            Ok((next, paid)) => r == Ok::<u64, StakingError>(paid) && *final(acc) == next,
            Err(e) => r == Err::<u64, StakingError>(e) && *final(acc) == *old(acc),
        },
{
    if !acc.claimed {
        return Err(StakingError::NFTNotClaimed);
    }
    if !acc.owner.same(user) {
        return Err(StakingError::Unauthorized);
    }
    let tag = escrow_seed();
    if !verify_authority(&tag, &acc.owner, acc.escrow_bump, program_id, escrow) {
        return Err(StakingError::BumpNotFound);
    }
    let amount = acc.amount;
    acc.amount = 0;
    Ok(amount)
}

/// The lock ends exactly three days after the stake: on a record that is
/// otherwise claimable, a claim before then fails as too early, and one at
/// that very second succeeds.
pub proof fn lemma_lock_boundary(acc: StakeAccount, now: i64)
    requires
        acc.amount >= MIN_STAKE_LAMPORTS,
        !acc.claimed,
        acc.start_ts + MIN_STAKE_SECONDS <= i64::MAX,
    ensures
        now < acc.start_ts + MIN_STAKE_SECONDS ==> claim_outcome(acc, now) == Err::<
            StakeAccount,
            StakingError,
        >(StakingError::StakeTooShort),
        now == acc.start_ts + MIN_STAKE_SECONDS ==> claim_outcome(acc, now) == Ok::<
            StakeAccount,
            StakingError,
        >(StakeAccount { claimed: true, ..acc }),
{
}

/// The reward is granted at most once per record: after a successful claim,
/// a second claim at the same time or later fails as already claimed.
pub proof fn lemma_claim_once(acc: StakeAccount, now: i64, later: i64)
    requires
        now <= later,
    ensures
        claim_outcome(acc, now) matches Ok(next) ==> claim_outcome(next, later) == Err::<
            StakeAccount,
            StakingError,
        >(StakingError::AlreadyClaimed),
{
}

/// A stake of `amount`, its reward claim and its withdrawal by the owner give
/// the principal back unchanged: the staker's balance ends where it began,
/// and the escrow gives up exactly what it took in.
pub proof fn lemma_round_trip(
    owner: Key,
    amount: u64,
    staked_at: i64,
    found: Option<(Seq<u8>, u8)>,
    claimed_at: i64,
    escrow_ok: bool,
    staker_balance: int,
    escrow_balance: int,
)
    ensures
        stake_outcome(owner, amount, staked_at, found) matches Ok(acc) ==> (claim_outcome(
            acc,
            claimed_at,
        ) matches Ok(claimed) ==> (withdraw_outcome(claimed, owner@, escrow_ok) matches Ok(
            (done, paid),
        ) ==> {
            &&& paid == amount
            &&& (staker_balance - amount) + paid == staker_balance
            &&& (escrow_balance + amount) - paid == escrow_balance
            &&& done.amount == 0
        })),
{
}

} // verus!
