//! Airdrop pool accounting: a pool carved out of a fixed supply, debited by
//! claims that may carry a referral bonus.
use crate::key::{authority_seeds, derive_authority, derives, found_address, verify_authority, Key};
use vstd::prelude::*;

verus! {

/// Units of the token that exist in all.
pub const TOTAL_SUPPLY: u64 = 850_000_000;

/// Share of the supply, in percent, that the airdrop pool starts with.
pub const AIRDROP_PERCENT: u64 = 60;

/// The pool right after initialization: the airdrop share of the supply.
pub const INITIAL_POOL: u64 = TOTAL_SUPPLY * AIRDROP_PERCENT / 100;

/// Referral bonus in basis points of the recipient's amount.
pub const REFERRAL_BPS: u64 = 2400;

/// Basis points in a whole.
pub const BPS_DENOMINATOR: u64 = 10000;

/// The most decimals the token may have.
pub const MAX_DECIMALS: u8 = 9;

/// Why an airdrop operation was refused.
#[derive(Clone, Copy, Debug, PartialEq, Eq, Structural)]
pub enum AirdropError {
    InsufficientPool,
    ZeroAmount,
    ArithmeticError,
    InvalidDecimals,
    BumpNotFound,
}

/// The airdrop's configuration record.
#[derive(Clone, Copy, Debug)]
pub struct Config {
    pub admin: Key,
    pub mint: Key,
    pub token_decimals: u8,
    pub total_supply: u64,
    pub airdrop_pool: u64,
    pub treasury_bump: u8,
}

/// What a successful claim moves out of the treasury.
#[derive(Clone, Copy, Debug, PartialEq, Eq, Structural)]
pub struct Payout {
    /// Units sent to the recipient.
    pub recipient: u64,
    /// Units sent to the referrer; zero where there is none.
    pub referral: u64,
}

/// The pool right after initialization.
pub open spec fn initial_pool() -> int {
    (TOTAL_SUPPLY * AIRDROP_PERCENT) as int / 100
}

/// The domain tag of the treasury authority: the bytes of "treasury".
pub open spec fn treasury_tag() -> Seq<u8> {
    seq![116u8, 114u8, 101u8, 97u8, 115u8, 117u8, 114u8, 121u8]
}

/// The referral bonus owed on `amount`, or `None` where computing it
/// overflows 64 bits.
pub open spec fn referral_of(amount: u64, referrer_present: bool) -> Option<u64> {
    if !referrer_present {
        Some(0u64)
    } else if amount * REFERRAL_BPS > u64::MAX {
        None
    } else {
        Some(((amount * REFERRAL_BPS) as int / BPS_DENOMINATOR as int) as u64)
    }
}

/// The outcome of a claim against a pool holding `pool`: the pool after it
/// and the payout, or the error. `authority_ok` tells whether the treasury
/// authority presented matches the recorded nonce.
pub open spec fn claim_outcome(pool: u64, amount: u64, referrer_present: bool, authority_ok: bool)
    -> Result<(u64, Payout), AirdropError>
{
    if amount == 0 {
        Err(AirdropError::ZeroAmount)
    } else {
        match referral_of(amount, referrer_present) {
            None => Err(AirdropError::ArithmeticError),
            Some(referral) => {
                let total = amount + referral;
                if total > u64::MAX {
                    Err(AirdropError::ArithmeticError)
                } else if total > pool {
                    Err(AirdropError::InsufficientPool)
                } else if !authority_ok {
                    Err(AirdropError::BumpNotFound)
                } else {
                    Ok(((pool - total) as u64, Payout { recipient: amount, referral }))
                }
            },
        }
    }
}

impl Config {
    /// The record's invariant: the supply is the fixed one, the pool never
    /// holds more than it started with, and the decimals are in range.
    pub open spec fn wf(&self) -> bool {
        &&& self.total_supply == TOTAL_SUPPLY
        &&& self.airdrop_pool <= initial_pool()
        &&& self.token_decimals <= MAX_DECIMALS
    }

    /// Whether `authority` is the treasury authority of `program`, proved by
    /// the recorded nonce.
    pub open spec fn treasury_ok(&self, program: Seq<u8>, authority: Seq<u8>) -> bool {
        derives(treasury_tag(), program, self.treasury_bump, program, authority)
    }

    /// Whether the record holds its invariant.
    pub fn is_wf(&self) -> (r: bool)
        ensures
            r == self.wf(),
    {
        self.total_supply == TOTAL_SUPPLY && self.airdrop_pool <= INITIAL_POOL && self.token_decimals
            <= MAX_DECIMALS
    }
}

/// The bytes of "treasury".
pub fn treasury_seed() -> (r: Vec<u8>)
    ensures
        r@ == treasury_tag(),
{
    let r: Vec<u8> = vec![116u8, 114u8, 101u8, 97u8, 115u8, 117u8, 114u8, 121u8];
    assert(r@ =~= treasury_tag());
    r
}

/// Creates the configuration: the fixed supply, its airdrop share as the
/// pool, and the nonce of the treasury authority of `program_id`.
pub fn initialize(admin: Key, mint: Key, token_decimals: u8, program_id: &Key) -> (r: Result<
    Config,
    AirdropError,
>)
    ensures
        token_decimals > MAX_DECIMALS ==> r == Err::<Config, AirdropError>(
            AirdropError::InvalidDecimals,
        ),
        token_decimals <= MAX_DECIMALS && found_address(
            authority_seeds(treasury_tag(), program_id@),
            program_id@,
        ) is None ==> r == Err::<Config, AirdropError>(AirdropError::BumpNotFound),
        token_decimals <= MAX_DECIMALS && found_address(
            authority_seeds(treasury_tag(), program_id@),
            program_id@,
        ) is Some ==> r is Ok,
        r matches Ok(c) ==> {
            &&& c.wf()
            &&& c.admin == admin
            &&& c.mint == mint
            &&& c.token_decimals == token_decimals
            &&& c.total_supply == TOTAL_SUPPLY
            &&& c.airdrop_pool == initial_pool()
            &&& found_address(authority_seeds(treasury_tag(), program_id@), program_id@) matches Some(
                (k, b),
            ) && b == c.treasury_bump && c.treasury_ok(program_id@, k)
        },
{
    if token_decimals > MAX_DECIMALS {
        return Err(AirdropError::InvalidDecimals);
    }
    let scaled = match TOTAL_SUPPLY.checked_mul(AIRDROP_PERCENT) {
        Some(v) => v,
        None => return Err(AirdropError::ArithmeticError),
    };
    let airdrop_pool = match scaled.checked_div(100) {
        Some(v) => v,
        None => return Err(AirdropError::ArithmeticError),
    };
    let tag = treasury_seed();
    let treasury_bump = match derive_authority(&tag, program_id, program_id) {
        Some((_, b)) => b,
        None => return Err(AirdropError::BumpNotFound),
    };
    Ok(
        Config {
            admin,
            mint,
            token_decimals,
            total_supply: TOTAL_SUPPLY,
            airdrop_pool,
            treasury_bump,
        },
    )
}

/// The referral bonus owed on `recipient_amount`: 24% of it, rounded down,
/// where a referrer is present, and nothing otherwise. `None` where the
/// computation overflows.
pub fn referral_amount(recipient_amount: u64, referrer_present: bool) -> (r: Option<u64>)
    ensures
        r == referral_of(recipient_amount, referrer_present),
{
    if !referrer_present {
        return Some(0);
    }
    match recipient_amount.checked_mul(REFERRAL_BPS) {
        Some(scaled) => scaled.checked_div(BPS_DENOMINATOR),
        None => None,
    }
}

/// Pays a claim of `recipient_amount` out of the pool. The proof payload is
/// carried through unchecked. On success the pool is debited by the amount
/// and its referral bonus, and the payout says what the treasury, under
/// `treasury_authority`, must send; on failure the record is unchanged.
pub fn claim_airdrop(
    cfg: &mut Config,
    recipient_amount: u64,
    proof: &Vec<u8>,
    referrer_present: bool,
    program_id: &Key,
    treasury_authority: &Key,
) -> (r: Result<Payout, AirdropError>)
    requires
        old(cfg).wf(),
    ensures
        final(cfg).wf(),
        final(cfg).airdrop_pool <= old(cfg).airdrop_pool,
        recipient_amount == 0 ==> r == Err::<Payout, AirdropError>(AirdropError::ZeroAmount),
        referral_of(recipient_amount, referrer_present) matches Some(referral) && recipient_amount
            > 0 && recipient_amount + referral > old(cfg).airdrop_pool ==> r == Err::<
            Payout,
            AirdropError,
        >(AirdropError::InsufficientPool) && *final(cfg) == *old(cfg),
        r matches Ok(payout) ==> final(cfg).airdrop_pool + payout.recipient + payout.referral
            == old(cfg).airdrop_pool,
        match claim_outcome(
            old(cfg).airdrop_pool,
            recipient_amount,
            referrer_present,
            old(cfg).treasury_ok(program_id@, treasury_authority@),
        ) {
            Ok((pool, payout)) => r == Ok::<Payout, AirdropError>(payout) && *final(cfg) == (Config {
                airdrop_pool: pool,
                ..*old(cfg)
            }),
            Err(e) => r == Err::<Payout, AirdropError>(e) && *final(cfg) == *old(cfg),
        },
{
    if recipient_amount == 0 {
        return Err(AirdropError::ZeroAmount);
    }
    let referral = match referral_amount(recipient_amount, referrer_present) {
        Some(v) => v,
        None => return Err(AirdropError::ArithmeticError),
    };
    let total_required = match recipient_amount.checked_add(referral) {
        Some(v) => v,
        None => return Err(AirdropError::ArithmeticError),
    };
    if cfg.airdrop_pool < total_required {
        return Err(AirdropError::InsufficientPool);
    }
    let tag = treasury_seed();
    if !verify_authority(&tag, program_id, cfg.treasury_bump, program_id, treasury_authority) {
        return Err(AirdropError::BumpNotFound);
    }
    cfg.airdrop_pool = match cfg.airdrop_pool.checked_sub(total_required) {
        Some(v) => v,
        None => return Err(AirdropError::ArithmeticError),
    };
    Ok(Payout { recipient: recipient_amount, referral })
}

/// The pool after a run of claims, each an amount, whether a referrer is
/// present, and whether the treasury authority checked out. A claim that
/// fails leaves the pool as it was.
pub open spec fn pool_after(pool: u64, claims: Seq<(u64, bool, bool)>) -> u64
    decreases claims.len(),
{
    if claims.len() == 0 {
        pool
    } else {
        let c = claims.last();
        let before = pool_after(pool, claims.drop_last());
        match claim_outcome(before, c.0, c.1, c.2) {
            Ok((next, _)) => next,
            Err(_) => before,
        }
    }
}

/// A single claim never raises the pool, and on success takes exactly what
/// it pays out.
pub proof fn lemma_claim_debits_payout(pool: u64, amount: u64, referrer_present: bool, authority_ok: bool)
    ensures
        claim_outcome(pool, amount, referrer_present, authority_ok) matches Ok((next, payout)) ==> next
            + payout.recipient + payout.referral == pool,
        claim_outcome(pool, amount, referrer_present, authority_ok) matches Ok((next, _)) ==> next
            <= pool,
{
}

/// Over any run of claims the pool never grows: starting from a well-formed
/// record it stays between zero and its initial size.
pub proof fn lemma_pool_never_grows(pool: u64, claims: Seq<(u64, bool, bool)>)
    ensures
        pool_after(pool, claims) <= pool,
        pool <= initial_pool() ==> 0 <= pool_after(pool, claims) <= initial_pool(),
    decreases claims.len(),
{
    if claims.len() > 0 {
        let c = claims.last();
        lemma_pool_never_grows(pool, claims.drop_last());
        lemma_claim_debits_payout(pool_after(pool, claims.drop_last()), c.0, c.1, c.2);
    }
}

} // verus!
