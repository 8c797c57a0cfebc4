use amm_q3::actions::{u64_le_bytes, AccountRole, ConfigSigner, LpBurn, LpMint, TokenTransfer};
use amm_q3::deposit::{deposit_amounts_from_liquidity, Deposit, DepositPlan};
use amm_q3::error::{AmmError, CurveError};
use amm_q3::state::Config;
use amm_q3::withdraw::{CurveQuery, Withdraw, WithdrawPlan, XYAmounts, CURVE_PRECISION};

fn config(locked: bool) -> Config {
    Config {
        seed: 123,
        authority: None,
        mint_x: [1u8; 32],
        mint_y: [2u8; 32],
        fee: 30,
        locked,
        config_bump: 254,
        lp_bump: 253,
    }
}

fn pool(locked: bool, lp_supply: u64, vault_x: u64, vault_y: u64) -> Deposit {
    Deposit { config: config(locked), lp_supply, vault_x, vault_y }
}

fn withdraw_pool(locked: bool, lp_supply: u64, vault_x: u64, vault_y: u64) -> Withdraw {
    Withdraw { config: config(locked), lp_supply, vault_x, vault_y }
}

fn signer() -> ConfigSigner {
    ConfigSigner { seed: 123, bump: 254 }
}

#[test]
fn test_deposit() {
    // A freshly initialised pool takes the depositor's maximum amounts as they are.
    let plan = pool(false, 0, 0, 0).deposit(1_000_000, 5_000_000, 7_000_000).unwrap();
    assert_eq!(
        plan,
        DepositPlan {
            transfer_x: TokenTransfer {
                from: AccountRole::UserX,
                to: AccountRole::VaultX,
                authority: AccountRole::User,
                amount: 5_000_000,
                signer: None,
            },
            transfer_y: TokenTransfer {
                from: AccountRole::UserY,
                to: AccountRole::VaultY,
                authority: AccountRole::User,
                amount: 7_000_000,
                signer: None,
            },
            mint: LpMint {
                mint: AccountRole::MintLp,
                to: AccountRole::UserLp,
                authority: AccountRole::Config,
                amount: 1_000_000,
                signer: signer(),
            },
        }
    );
}

#[test]
fn test_withdraw() {
    // After the first deposit the pool holds the deposit; a withdrawal asks
    // the curve and pays out what it assigned.
    let w = withdraw_pool(false, 1_000_000, 5_000_000, 7_000_000);
    let query = w.withdraw_query(500_000).unwrap();
    assert_eq!(
        query,
        CurveQuery { x: 5_000_000, y: 7_000_000, l: 1_000_000, a: 500_000, precision: 6 }
    );
    let plan = w.withdraw(500_000, 2_000_000, 3_000_000, XYAmounts { x: 2_500_000, y: 3_500_000 }).unwrap();
    assert_eq!(
        plan,
        WithdrawPlan {
            burn: LpBurn {
                mint: AccountRole::MintLp,
                from: AccountRole::UserLp,
                authority: AccountRole::User,
                amount: 500_000,
            },
            transfer_x: TokenTransfer {
                from: AccountRole::VaultX,
                to: AccountRole::UserX,
                authority: AccountRole::Config,
                amount: 2_500_000,
                signer: Some(signer()),
            },
            transfer_y: TokenTransfer {
                from: AccountRole::VaultY,
                to: AccountRole::UserY,
                authority: AccountRole::Config,
                amount: 3_500_000,
                signer: Some(signer()),
            },
        }
    );
}

#[test]
fn deposit_into_funded_pool_pays_share_rounded_up() {
    // 3 of 10 LP tokens: 30% of 100 is 30 exactly, 30% of 205 is 61.5 -> 62.
    let plan = pool(false, 10, 100, 205).deposit(3, 30, 62).unwrap();
    assert_eq!(plan.transfer_x.amount, 30);
    assert_eq!(plan.transfer_y.amount, 62);
    assert_eq!(plan.mint.amount, 3);
}

#[test]
fn deposit_amounts_exact_values() {
    assert_eq!(deposit_amounts_from_liquidity(100, 205, 10, 3, 6), Ok((30, 62)));
    assert_eq!(deposit_amounts_from_liquidity(1, 1, 3, 1, 6), Ok((1, 1)));
    assert_eq!(deposit_amounts_from_liquidity(0, 9, 3, 1, 6), Ok((0, 3)));
    assert_eq!(deposit_amounts_from_liquidity(7, 7, 7, 0, 6), Ok((0, 0)));
    assert_eq!(
        deposit_amounts_from_liquidity(u64::MAX, u64::MAX, u64::MAX, u64::MAX, 6),
        Ok((u64::MAX, u64::MAX))
    );
}

#[test]
fn deposit_amounts_zero_supply_is_invalid() {
    assert_eq!(deposit_amounts_from_liquidity(100, 100, 0, 5, 6), Err(AmmError::InvalidAmount));
}

#[test]
fn deposit_amounts_overflow_is_invalid() {
    assert_eq!(deposit_amounts_from_liquidity(u64::MAX, 1, 1, 2, 6), Err(AmmError::InvalidAmount));
    assert_eq!(deposit_amounts_from_liquidity(1, u64::MAX, 1, 2, 6), Err(AmmError::InvalidAmount));
}

#[test]
fn deposit_into_locked_pool_is_refused() {
    assert_eq!(pool(true, 10, 100, 100).deposit(1, 100, 100), Err(AmmError::PoolLocked));
    assert_eq!(pool(true, 0, 0, 0).deposit(0, 1, 1), Err(AmmError::PoolLocked));
}

#[test]
fn deposit_of_zero_is_refused() {
    assert_eq!(pool(false, 10, 100, 100).deposit(0, 100, 100), Err(AmmError::InvalidAmount));
}

#[test]
fn deposit_above_limits_is_refused() {
    assert_eq!(pool(false, 10, 100, 205).deposit(3, 29, 62), Err(AmmError::SlippageExceeded));
    assert_eq!(pool(false, 10, 100, 205).deposit(3, 30, 61), Err(AmmError::SlippageExceeded));
}

#[test]
fn deposit_into_pool_without_supply_but_with_reserves_is_invalid() {
    assert_eq!(pool(false, 0, 5, 0).deposit(3, 100, 100), Err(AmmError::InvalidAmount));
}

#[test]
fn deposit_overflowing_share_is_invalid() {
    assert_eq!(pool(false, 1, u64::MAX, 1).deposit(2, u64::MAX, u64::MAX), Err(AmmError::InvalidAmount));
}

#[test]
fn withdraw_refusals() {
    let locked = withdraw_pool(true, 10, 100, 100);
    assert_eq!(locked.withdraw_query(1), Err(AmmError::PoolLocked));
    assert_eq!(locked.withdraw(1, 0, 0, XYAmounts { x: 10, y: 10 }), Err(AmmError::PoolLocked));
    let open = withdraw_pool(false, 10, 100, 100);
    assert_eq!(open.withdraw_query(0), Err(AmmError::InvalidAmount));
    assert_eq!(open.withdraw(0, 0, 0, XYAmounts { x: 10, y: 10 }), Err(AmmError::InvalidAmount));
    assert_eq!(open.withdraw(1, 11, 0, XYAmounts { x: 10, y: 10 }), Err(AmmError::SlippageExceeded));
    assert_eq!(open.withdraw(1, 0, 11, XYAmounts { x: 10, y: 10 }), Err(AmmError::SlippageExceeded));
    assert!(open.withdraw(1, 10, 10, XYAmounts { x: 10, y: 10 }).is_ok());
}

#[test]
fn curve_precision_is_six() {
    assert_eq!(CURVE_PRECISION, 6);
}

#[test]
fn transfer_builders() {
    let d = pool(false, 0, 0, 0);
    let w = withdraw_pool(false, 0, 0, 0);
    for is_x in [true, false] {
        let dt = d.deposit_tokens(is_x, 42);
        let wt = w.withdraw_tokens(is_x, 42);
        assert_eq!(wt.from, dt.to);
        assert_eq!(wt.to, dt.from);
        assert_eq!(wt.amount, 42);
        assert_eq!(dt.authority, AccountRole::User);
        assert_eq!(wt.authority, AccountRole::Config);
        assert_eq!(wt.signer, Some(signer()));
        assert_eq!(dt.signer, None);
    }
    assert_eq!(d.deposit_tokens(true, 1).from, AccountRole::UserX);
    assert_eq!(d.deposit_tokens(false, 1).to, AccountRole::VaultY);
    assert_eq!(
        w.burn_lp_tokens(9),
        LpBurn { mint: AccountRole::MintLp, from: AccountRole::UserLp, authority: AccountRole::User, amount: 9 }
    );
    assert_eq!(d.mint_lp_tokens(9).signer, signer());
}

#[test]
fn curve_errors_map_to_pool_errors() {
    assert_eq!(AmmError::from(CurveError::InvalidPrecision), AmmError::InvalidPrecision);
    assert_eq!(AmmError::from(CurveError::Overflow), AmmError::Overflow);
    assert_eq!(AmmError::from(CurveError::Underflow), AmmError::Underflow);
    assert_eq!(AmmError::from(CurveError::InvalidFeeAmount), AmmError::InvalidFee);
    assert_eq!(AmmError::from(CurveError::InsufficientBalance), AmmError::InsufficientBalance);
    assert_eq!(AmmError::from(CurveError::ZeroBalance), AmmError::ZeroBalance);
    assert_eq!(AmmError::from(CurveError::SlippageLimitExceeded), AmmError::SlippageExceeded);
}

#[test]
fn error_messages() {
    assert_eq!(AmmError::PoolLocked.message(), "this pool is locked.");
    assert_eq!(AmmError::SlippageExceeded.message(), "slippage exceeded.");
    assert_eq!(AmmError::InvalidAmount.message(), "invalid amount");
    assert_eq!(AmmError::InvalidFee.message(), "fee is greater than 100%, this is not a very good deal");
}

#[test]
fn config_signer_seeds() {
    let seeds = config(false).signer().seeds();
    assert_eq!(seeds.len(), 3);
    assert_eq!(seeds[0], b"config".to_vec());
    assert_eq!(seeds[1], 123u64.to_le_bytes().to_vec());
    assert_eq!(seeds[2], vec![254u8]);
    assert_eq!(u64_le_bytes(0x0102_0304_0506_0708), 0x0102_0304_0506_0708u64.to_le_bytes().to_vec());
    assert_eq!(u64_le_bytes(u64::MAX), vec![255u8; 8]);
}

#[test]
fn deposit_never_dilutes_example() {
    // Share of 7 out of 9 LP tokens in reserves 1000 and 1: paid x*9 >= 1000*7.
    let (x, y) = deposit_amounts_from_liquidity(1000, 1, 9, 7, 6).unwrap();
    assert_eq!((x, y), (778, 1));
    assert!(x as u128 * 9 >= 1000 * 7 && (x as u128) * 9 < 1000 * 7 + 9);
    assert!(y as u128 * 9 >= 7 && (y as u128) * 9 < 7 + 9);
}

#[test]
fn deposit_cost_monotone_example() {
    let a = deposit_amounts_from_liquidity(1000, 333, 9, 4, 6).unwrap();
    let b = deposit_amounts_from_liquidity(1000, 333, 9, 5, 6).unwrap();
    assert!(a.0 <= b.0 && a.1 <= b.1);
}

#[test]
fn distinct_pools_have_distinct_seeds() {
    let a = ConfigSigner { seed: 1, bump: 7 }.seeds();
    let b = ConfigSigner { seed: 256, bump: 7 }.seeds();
    assert_ne!(a, b);
}
