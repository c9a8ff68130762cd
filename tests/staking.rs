use dojo3::key::{derive_authority, Key};
use dojo3::staking::{
    claim_nft, escrow_seed, stake, withdraw, StakeAccount, StakingError, MIN_STAKE_LAMPORTS,
    MIN_STAKE_SECONDS,
};

const T0: i64 = 1_700_000_000;

fn program() -> Key {
    Key::new([7u8; 32])
}

fn user() -> Key {
    Key::new([5u8; 32])
}

fn escrow_of(owner: &Key) -> Key {
    derive_authority(&escrow_seed(), owner, &program()).unwrap().0
}

fn staked(amount: u64) -> StakeAccount {
    stake(user(), amount, T0, &program()).unwrap()
}

#[test]
fn stake_below_minimum_fails() {
    assert_eq!(stake(user(), 499_999_999, T0, &program()).unwrap_err(), StakingError::InsufficientStake);
    assert_eq!(stake(user(), 0, T0, &program()).unwrap_err(), StakingError::InsufficientStake);
}

#[test]
fn stake_at_minimum_starts_the_lock() {
    let acc = staked(500_000_000);
    assert_eq!(MIN_STAKE_LAMPORTS, 500_000_000);
    assert_eq!(acc.owner, user());
    assert_eq!(acc.start_ts, T0);
    assert_eq!(acc.amount, 500_000_000);
    assert!(!acc.claimed);
    let (_, bump) = derive_authority(&escrow_seed(), &user(), &program()).unwrap();
    assert_eq!(acc.escrow_bump, bump);
}

#[test]
fn claim_before_lock_ends_fails_and_at_the_second_succeeds() {
    assert_eq!(MIN_STAKE_SECONDS, 259_200);
    let mut acc = staked(600_000_000);
    assert_eq!(claim_nft(&mut acc, T0 + 259_199), Err(StakingError::StakeTooShort));
    assert!(!acc.claimed);
    assert_eq!(claim_nft(&mut acc, T0), Err(StakingError::StakeTooShort));
    assert_eq!(claim_nft(&mut acc, T0 + 259_200), Ok(()));
    assert!(acc.claimed);
}

#[test]
fn claim_succeeds_only_once() {
    let mut acc = staked(600_000_000);
    assert_eq!(claim_nft(&mut acc, T0 + 300_000), Ok(()));
    assert_eq!(claim_nft(&mut acc, T0 + 300_000), Err(StakingError::AlreadyClaimed));
    assert_eq!(claim_nft(&mut acc, T0 + 900_000), Err(StakingError::AlreadyClaimed));
    assert!(acc.claimed);
}

#[test]
fn claim_on_small_stake_fails() {
    let mut acc = staked(600_000_000);
    acc.amount = 1;
    assert_eq!(claim_nft(&mut acc, T0 + 300_000), Err(StakingError::InsufficientStake));
    assert!(!acc.claimed);
}

#[test]
fn claim_with_overflowing_unlock_time_fails() {
    let mut acc = staked(600_000_000);
    acc.start_ts = i64::MAX - 10;
    assert_eq!(claim_nft(&mut acc, i64::MAX), Err(StakingError::ArithmeticError));
}

#[test]
fn withdraw_before_claim_fails() {
    let mut acc = staked(600_000_000);
    let e = escrow_of(&user());
    assert_eq!(withdraw(&mut acc, &user(), &e, &program()), Err(StakingError::NFTNotClaimed));
    assert_eq!(acc.amount, 600_000_000);
}

#[test]
fn withdraw_by_another_fails() {
    let mut acc = staked(600_000_000);
    claim_nft(&mut acc, T0 + 259_200).unwrap();
    let e = escrow_of(&user());
    let other = Key::new([6u8; 32]);
    assert_eq!(withdraw(&mut acc, &other, &e, &program()), Err(StakingError::Unauthorized));
    assert_eq!(acc.amount, 600_000_000);
}

#[test]
fn withdraw_from_wrong_escrow_fails() {
    let mut acc = staked(600_000_000);
    claim_nft(&mut acc, T0 + 259_200).unwrap();
    let wrong = escrow_of(&Key::new([6u8; 32]));
    assert_eq!(withdraw(&mut acc, &user(), &wrong, &program()), Err(StakingError::BumpNotFound));
    assert_eq!(acc.amount, 600_000_000);
}

#[test]
fn stake_claim_withdraw_returns_the_principal() {
    let a: u64 = 750_000_000;
    let mut staker: i128 = 2_000_000_000;
    let mut escrow: i128 = 0;
    let mut acc = staked(a);
    staker -= a as i128;
    escrow += a as i128;
    claim_nft(&mut acc, T0 + 259_200).unwrap();
    let e = escrow_of(&user());
    let paid = withdraw(&mut acc, &user(), &e, &program()).unwrap();
    assert_eq!(paid, a);
    staker += paid as i128;
    escrow -= paid as i128;
    assert_eq!(staker, 2_000_000_000);
    assert_eq!(escrow, 0);
    assert_eq!(acc.amount, 0);
    assert_eq!(withdraw(&mut acc, &user(), &e, &program()), Ok(0));
}
