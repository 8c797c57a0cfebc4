//! Properties of the pool that hold across all inputs and across its
//! operations.
use vstd::arithmetic::div_mod::{lemma_div_is_ordered, lemma_fundamental_div_mod};
use vstd::prelude::*;

use crate::actions::{config_seeds, from_le_bytes, le_bytes, AccountRole, ConfigSigner};
use crate::deposit::{deposit_amounts_spec, Deposit};
use crate::error::{amm_error_of_curve, AmmError, CurveError};
use crate::state::Config;
use crate::withdraw::{CurveQuery, Withdraw, XYAmounts};

verus! {

/// Rounding a quotient up gives at least the exact quotient and less than one more.
proof fn lemma_ceil_div_bounds(a: int, b: int)
    requires
        a >= 0,
        b > 0,
    ensures
        ((a + b - 1) / b) * b >= a,
        ((a + b - 1) / b) * b < a + b,
{
    lemma_fundamental_div_mod(a + b - 1, b);
    let q = (a + b - 1) / b;
    assert(q * b == b * q) by (nonlinear_arith);
}

/// A deposit into a non-empty pool never dilutes the liquidity providers:
/// for `amount` LP tokens out of a supply of `s`, the depositor pays at least
/// the proportional share `reserve * amount / s` of each reserve, and less
/// than one token more than it.
pub proof fn deposit_pays_proportional_share(
    reserve_x: u64,
    reserve_y: u64,
    liquidity_supply: u64,
    amount: u64,
)
    requires
        deposit_amounts_spec(reserve_x, reserve_y, liquidity_supply, amount) is Ok,
    ensures
        ({
            let (x, y) = deposit_amounts_spec(reserve_x, reserve_y, liquidity_supply, amount)->Ok_0;
            &&& x * liquidity_supply >= reserve_x * amount
            &&& x * liquidity_supply < reserve_x * amount + liquidity_supply
            &&& y * liquidity_supply >= reserve_y * amount
            &&& y * liquidity_supply < reserve_y * amount + liquidity_supply
        }),
{
    assert(reserve_x * amount >= 0) by (nonlinear_arith);
    assert(reserve_y * amount >= 0) by (nonlinear_arith);
    lemma_ceil_div_bounds(reserve_x * amount, liquidity_supply as int);
    lemma_ceil_div_bounds(reserve_y * amount, liquidity_supply as int);
}

/// Asking for more liquidity never costs less: in the same pool, a larger LP
/// amount is paid with at least as much of each token.
pub proof fn deposit_cost_is_monotone(
    reserve_x: u64,
    reserve_y: u64,
    liquidity_supply: u64,
    smaller: u64,
    larger: u64,
)
    requires
        smaller <= larger,
        deposit_amounts_spec(reserve_x, reserve_y, liquidity_supply, smaller) is Ok,
        deposit_amounts_spec(reserve_x, reserve_y, liquidity_supply, larger) is Ok,
    ensures
        deposit_amounts_spec(reserve_x, reserve_y, liquidity_supply, smaller)->Ok_0.0
            <= deposit_amounts_spec(reserve_x, reserve_y, liquidity_supply, larger)->Ok_0.0,
        deposit_amounts_spec(reserve_x, reserve_y, liquidity_supply, smaller)->Ok_0.1
            <= deposit_amounts_spec(reserve_x, reserve_y, liquidity_supply, larger)->Ok_0.1,
{
    let s = liquidity_supply as int;
    assert(reserve_x * smaller <= reserve_x * larger) by (nonlinear_arith)
        requires
            smaller <= larger,
    ;
    assert(reserve_y * smaller <= reserve_y * larger) by (nonlinear_arith)
        requires
            smaller <= larger,
    ;
    lemma_div_is_ordered(reserve_x * smaller + s - 1, reserve_x * larger + s - 1, s);
    lemma_div_is_ordered(reserve_y * smaller + s - 1, reserve_y * larger + s - 1, s);
}

/// A locked pool refuses every deposit and every withdrawal with `PoolLocked`,
/// whatever the amounts.
pub proof fn locked_pool_refuses_everything(
    config: Config,
    lp_supply: u64,
    vault_x: u64,
    vault_y: u64,
    amount: u64,
    max_x: u64,
    max_y: u64,
    min_x: u64,
    min_y: u64,
    amounts: XYAmounts,
)
    requires
        config.locked,
    ensures
        (Deposit { config, lp_supply, vault_x, vault_y }).deposit_amounts(amount, max_x, max_y)
            == Err::<(u64, u64), AmmError>(AmmError::PoolLocked),
        (Withdraw { config, lp_supply, vault_x, vault_y }).query(amount) is Err,
        (Withdraw { config, lp_supply, vault_x, vault_y }).query(amount)->Err_0 == AmmError::PoolLocked,
        (Withdraw { config, lp_supply, vault_x, vault_y }).payout(amount, min_x, min_y, amounts)
            == Err::<(u64, u64), AmmError>(AmmError::PoolLocked),
{
}

/// A zero amount is refused with `InvalidAmount` by deposit and withdrawal
/// alike, on every unlocked pool.
pub proof fn zero_amount_is_refused(
    config: Config,
    lp_supply: u64,
    vault_x: u64,
    vault_y: u64,
    max_x: u64,
    max_y: u64,
    min_x: u64,
    min_y: u64,
    amounts: XYAmounts,
)
    requires
        !config.locked,
    ensures
        (Deposit { config, lp_supply, vault_x, vault_y }).deposit_amounts(0, max_x, max_y)
            == Err::<(u64, u64), AmmError>(AmmError::InvalidAmount),
        (Withdraw { config, lp_supply, vault_x, vault_y }).query(0) is Err,
        (Withdraw { config, lp_supply, vault_x, vault_y }).query(0)->Err_0 == AmmError::InvalidAmount,
        (Withdraw { config, lp_supply, vault_x, vault_y }).payout(0, min_x, min_y, amounts)
            == Err::<(u64, u64), AmmError>(AmmError::InvalidAmount),
{
}

/// An accepted deposit never takes more than the user's limits, and an
/// accepted withdrawal never pays less than the user's limits.
pub proof fn accepted_requests_respect_slippage_limits(
    deposit: Deposit,
    withdraw: Withdraw,
    amount: u64,
    max_x: u64,
    max_y: u64,
    min_x: u64,
    min_y: u64,
    amounts: XYAmounts,
)
    ensures
        deposit.deposit_amounts(amount, max_x, max_y) matches Ok((x, y)) ==> x <= max_x && y
            <= max_y,
        withdraw.payout(amount, min_x, min_y, amounts) matches Ok((x, y)) ==> x >= min_x && y
            >= min_y,
{
}

/// A withdrawal's transfer of a token runs the opposite way of a deposit's
/// transfer of the same token: from the vault back to the user's account.
pub proof fn withdraw_transfer_reverses_deposit_transfer(
    deposit: Deposit,
    withdraw: Withdraw,
    is_x: bool,
    amount: u64,
)
    ensures
        withdraw.withdraw_transfer(is_x, amount).from == deposit.deposit_transfer(is_x, amount).to,
        withdraw.withdraw_transfer(is_x, amount).to == deposit.deposit_transfer(is_x, amount).from,
        withdraw.withdraw_transfer(is_x, amount).amount == deposit.deposit_transfer(
            is_x,
            amount,
        ).amount,
{
}

/// `256` to the power `k`.
pub open spec fn byte_capacity(k: nat) -> nat
    decreases k,
{
    if k == 0 {
        1
    } else {
        256 * byte_capacity((k - 1) as nat)
    }
}

/// Reading back the `k` little-endian bytes of a number below `256^k` gives the number.
pub proof fn le_bytes_round_trip(n: nat, k: nat)
    requires
        n < byte_capacity(k),
    ensures
        from_le_bytes(le_bytes(n, k)) == n,
    decreases k,
{
    if k > 0 {
        let rest = le_bytes(n / 256, (k - 1) as nat);
        assert(n / 256 < byte_capacity((k - 1) as nat)) by {
            lemma_fundamental_div_mod(n as int, 256);
        }
        le_bytes_round_trip(n / 256, (k - 1) as nat);
        assert(le_bytes(n, k).drop_first() =~= rest);
        lemma_fundamental_div_mod(n as int, 256);
    }
}

/// Different pools sign with different seeds: the config account's signer
/// seeds determine the pool seed and the bump.
pub proof fn config_seeds_identify_pool(seed1: u64, bump1: u8, seed2: u64, bump2: u8)
    requires
        config_seeds(seed1, bump1) == config_seeds(seed2, bump2),
    ensures
        seed1 == seed2,
        bump1 == bump2,
{
    reveal_with_fuel(byte_capacity, 9);
    assert(byte_capacity(8) == 0x1_0000_0000_0000_0000);
    le_bytes_round_trip(seed1 as nat, 8);
    le_bytes_round_trip(seed2 as nat, 8);
    assert(config_seeds(seed1, bump1)[1] == le_bytes(seed1 as nat, 8));
    assert(config_seeds(seed2, bump2)[1] == le_bytes(seed2 as nat, 8));
    assert(config_seeds(seed1, bump1)[2][0] == bump1);
    assert(config_seeds(seed2, bump2)[2][0] == bump2);
}

/// Distinct curve errors are reported as distinct pool errors.
pub proof fn curve_errors_stay_distinct(e1: CurveError, e2: CurveError)
    requires
        amm_error_of_curve(e1) == amm_error_of_curve(e2),
    ensures
        e1 == e2,
{
}

/// The deposit amounts owed for LP tokens are exactly each reserve's share
/// rounded up: a number `x` with `x * s >= reserve * amount > x * s - s`.
/// They are refused only when the supply is zero or a share does not fit in
/// a `u64`; otherwise they are accepted, whatever the amounts.
pub proof fn deposit_amounts_are_rounded_up_shares(
    reserve_x: u64,
    reserve_y: u64,
    liquidity_supply: u64,
    amount: u64,
)
    ensures
        liquidity_supply == 0 ==> deposit_amounts_spec(reserve_x, reserve_y, liquidity_supply, amount)
            == Err::<(u64, u64), AmmError>(AmmError::InvalidAmount),
        liquidity_supply > 0 ==> {
            let s = liquidity_supply as int;
            let cx = (reserve_x * amount + s - 1) / s;
            let cy = (reserve_y * amount + s - 1) / s;
            &&& (cx <= u64::MAX && cy <= u64::MAX) ==> deposit_amounts_spec(
                reserve_x,
                reserve_y,
                liquidity_supply,
                amount,
            ) is Ok
            &&& (cx > u64::MAX || cy > u64::MAX) ==> deposit_amounts_spec(
                reserve_x,
                reserve_y,
                liquidity_supply,
                amount,
            ) == Err::<(u64, u64), AmmError>(AmmError::InvalidAmount)
        },
        deposit_amounts_spec(reserve_x, reserve_y, liquidity_supply, amount) matches Ok((x, y)) ==> {
            &&& liquidity_supply > 0
            &&& x * liquidity_supply >= reserve_x * amount
            &&& x * liquidity_supply < reserve_x * amount + liquidity_supply
            &&& y * liquidity_supply >= reserve_y * amount
            &&& y * liquidity_supply < reserve_y * amount + liquidity_supply
        },
{
    if deposit_amounts_spec(reserve_x, reserve_y, liquidity_supply, amount) is Ok {
        deposit_pays_proportional_share(reserve_x, reserve_y, liquidity_supply, amount);
    }
}

/// On an unlocked pool that already holds liquidity, a deposit of `amount > 0`
/// LP tokens takes from the user exactly each reserve's share of `amount`
/// out of the LP supply, rounded up, whatever the user's limits are; it is
/// refused with `InvalidAmount` when the supply is zero or a share does not
/// fit in a `u64`, and with `SlippageExceeded` exactly when a share exceeds
/// the user's limit. Its movements move those shares from the user's accounts
/// into the vaults and mint `amount` LP tokens to the user.
pub proof fn deposit_into_funded_pool_takes_proportional_shares(
    deposit: Deposit,
    amount: u64,
    max_x: u64,
    max_y: u64,
)
    requires
        !deposit.config.locked,
        amount > 0,
        !(deposit.lp_supply == 0 && deposit.vault_x == 0 && deposit.vault_y == 0),
    ensures
        deposit.lp_supply == 0 ==> deposit.deposit_amounts(amount, max_x, max_y) == Err::<
            (u64, u64),
            AmmError,
        >(AmmError::InvalidAmount),
        deposit.lp_supply > 0 ==> {
            let s = deposit.lp_supply as int;
            let cx = (deposit.vault_x * amount + s - 1) / s;
            let cy = (deposit.vault_y * amount + s - 1) / s;
            &&& (cx > u64::MAX || cy > u64::MAX) ==> deposit.deposit_amounts(amount, max_x, max_y)
                == Err::<(u64, u64), AmmError>(AmmError::InvalidAmount)
            &&& (cx <= u64::MAX && cy <= u64::MAX && cx <= max_x && cy <= max_y)
                ==> deposit.deposit_amounts(amount, max_x, max_y) is Ok
            &&& (cx <= u64::MAX && cy <= u64::MAX && !(cx <= max_x && cy <= max_y))
                ==> deposit.deposit_amounts(amount, max_x, max_y) == Err::<(u64, u64), AmmError>(
                AmmError::SlippageExceeded,
            )
        },
        deposit.deposit_amounts(amount, max_x, max_y) matches Ok((x, y)) ==> {
            &&& Ok::<(u64, u64), AmmError>((x, y)) == deposit_amounts_spec(
                deposit.vault_x,
                deposit.vault_y,
                deposit.lp_supply,
                amount,
            )
            &&& x * deposit.lp_supply >= deposit.vault_x * amount
            &&& x * deposit.lp_supply < deposit.vault_x * amount + deposit.lp_supply
            &&& y * deposit.lp_supply >= deposit.vault_y * amount
            &&& y * deposit.lp_supply < deposit.vault_y * amount + deposit.lp_supply
            &&& x <= max_x
            &&& y <= max_y
            &&& deposit.plan(x, y, amount).transfer_x.amount == x
            &&& deposit.plan(x, y, amount).transfer_y.amount == y
            &&& deposit.plan(x, y, amount).mint.amount == amount
        },
{
    deposit_amounts_are_rounded_up_shares(deposit.vault_x, deposit.vault_y, deposit.lp_supply, amount);
}

/// Into an unlocked empty pool, a deposit of `amount > 0` takes exactly the
/// user's `max_x` and `max_y` and mints `amount`.
pub proof fn first_deposit_takes_the_offered_amounts(
    deposit: Deposit,
    amount: u64,
    max_x: u64,
    max_y: u64,
)
    requires
        !deposit.config.locked,
        amount > 0,
        deposit.lp_supply == 0,
        deposit.vault_x == 0,
        deposit.vault_y == 0,
    ensures
        deposit.deposit_amounts(amount, max_x, max_y) == Ok::<(u64, u64), AmmError>((max_x, max_y)),
        deposit.plan(max_x, max_y, amount).transfer_x.amount == max_x,
        deposit.plan(max_x, max_y, amount).transfer_y.amount == max_y,
        deposit.plan(max_x, max_y, amount).mint.amount == amount,
{
}

/// The movements of a deposit: `x` from the user's account of `x` into the
/// vault of `x` and `y` likewise, both signed by the user, and `amount` LP
/// tokens minted to the user, signed with the config account's seed and bump.
pub proof fn deposit_movements(deposit: Deposit, x: u64, y: u64, amount: u64)
    ensures
        deposit.plan(x, y, amount).transfer_x == (crate::actions::TokenTransfer {
            from: AccountRole::UserX,
            to: AccountRole::VaultX,
            authority: AccountRole::User,
            amount: x,
            signer: None,
        }),
        deposit.plan(x, y, amount).transfer_y == (crate::actions::TokenTransfer {
            from: AccountRole::UserY,
            to: AccountRole::VaultY,
            authority: AccountRole::User,
            amount: y,
            signer: None,
        }),
        deposit.plan(x, y, amount).mint == (crate::actions::LpMint {
            mint: AccountRole::MintLp,
            to: AccountRole::UserLp,
            authority: AccountRole::Config,
            amount,
            signer: ConfigSigner { seed: deposit.config.seed, bump: deposit.config.config_bump },
        }),
{
}

/// On an unlocked pool a withdrawal of `amount > 0` asks the curve about the
/// pool's own reserves and supply and the requested amount, at precision 6.
pub proof fn withdraw_query_carries_pool_figures(withdraw: Withdraw, amount: u64)
    requires
        !withdraw.config.locked,
        amount > 0,
    ensures
        withdraw.query(amount) == Ok::<CurveQuery, AmmError>(
            CurveQuery {
                x: withdraw.vault_x,
                y: withdraw.vault_y,
                l: withdraw.lp_supply,
                a: amount,
                precision: 6,
            },
        ),
{
}

/// On an unlocked pool a withdrawal of `amount > 0` is accepted exactly when
/// the curve's amounts reach the user's minimums, and then pays out exactly
/// those amounts; otherwise it is refused with `SlippageExceeded`. Its
/// movements burn exactly `amount` LP tokens from the user, signed by the
/// user, and move the amounts from the vaults to the user's accounts, signed
/// with the config account's seed and bump.
pub proof fn withdraw_pays_curve_amounts_and_burns_request(
    withdraw: Withdraw,
    amount: u64,
    min_x: u64,
    min_y: u64,
    amounts: XYAmounts,
)
    requires
        !withdraw.config.locked,
        amount > 0,
    ensures
        amounts.x >= min_x && amounts.y >= min_y ==> withdraw.payout(amount, min_x, min_y, amounts)
            == Ok::<(u64, u64), AmmError>((amounts.x, amounts.y)),
        !(amounts.x >= min_x && amounts.y >= min_y) ==> withdraw.payout(
            amount,
            min_x,
            min_y,
            amounts,
        ) == Err::<(u64, u64), AmmError>(AmmError::SlippageExceeded),
        withdraw.plan(amount, amounts.x, amounts.y).burn == (crate::actions::LpBurn {
            mint: AccountRole::MintLp,
            from: AccountRole::UserLp,
            authority: AccountRole::User,
            amount,
        }),
        withdraw.plan(amount, amounts.x, amounts.y).transfer_x == (crate::actions::TokenTransfer {
            from: AccountRole::VaultX,
            to: AccountRole::UserX,
            authority: AccountRole::Config,
            amount: amounts.x,
            signer: Some(ConfigSigner { seed: withdraw.config.seed, bump: withdraw.config.config_bump }),
        }),
        withdraw.plan(amount, amounts.x, amounts.y).transfer_y == (crate::actions::TokenTransfer {
            from: AccountRole::VaultY,
            to: AccountRole::UserY,
            authority: AccountRole::Config,
            amount: amounts.y,
            signer: Some(ConfigSigner { seed: withdraw.config.seed, bump: withdraw.config.config_bump }),
        }),
{
}

/// Every LP burn burns exactly the amount asked for, from the user's LP account.
pub proof fn burn_takes_exactly_the_request(withdraw: Withdraw, amount: u64)
    ensures
        withdraw.lp_burn(amount).amount == amount,
        withdraw.lp_burn(amount).from == AccountRole::UserLp,
        withdraw.lp_burn(amount).mint == AccountRole::MintLp,
{
}

/// Each curve error is reported as the pool error of the same meaning.
pub proof fn curve_errors_keep_their_meaning()
    ensures
        amm_error_of_curve(CurveError::InvalidPrecision) == AmmError::InvalidPrecision,
        amm_error_of_curve(CurveError::Overflow) == AmmError::Overflow,
        amm_error_of_curve(CurveError::Underflow) == AmmError::Underflow,
        amm_error_of_curve(CurveError::InvalidFeeAmount) == AmmError::InvalidFee,
        amm_error_of_curve(CurveError::InsufficientBalance) == AmmError::InsufficientBalance,
        amm_error_of_curve(CurveError::ZeroBalance) == AmmError::ZeroBalance,
        amm_error_of_curve(CurveError::SlippageLimitExceeded) == AmmError::SlippageExceeded,
{
}

/// The config account signs with three seeds: the bytes of `config`, the
/// pool seed as 8 bytes that read back, least significant first, as the
/// seed, and the bump as a single byte.
pub proof fn config_seeds_spell_out_the_pool(seed: u64, bump: u8)
    ensures
        config_seeds(seed, bump).len() == 3,
        config_seeds(seed, bump)[0] == seq![99u8, 111u8, 110u8, 102u8, 105u8, 103u8],
        config_seeds(seed, bump)[1].len() == 8,
        from_le_bytes(config_seeds(seed, bump)[1]) == seed,
        config_seeds(seed, bump)[2] == seq![bump],
{
    reveal_with_fuel(byte_capacity, 9);
    reveal_with_fuel(le_bytes, 9);
    assert(byte_capacity(8) == 0x1_0000_0000_0000_0000);
    le_bytes_round_trip(seed as nat, 8);
    assert(config_seeds(seed, bump)[1] == le_bytes(seed as nat, 8));
}

} // verus!
