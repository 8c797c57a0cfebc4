//! Adding liquidity: the pool takes tokens `x` and `y` from the user and
//! mints LP tokens to the user in return.
use vstd::prelude::*;

use crate::actions::{AccountRole, LpMint, TokenTransfer};
use crate::error::AmmError;
use crate::state::Config;

verus! {

/// What a deposit reads of the on-chain accounts: the pool's config, the
/// LP mint's supply and the two vaults' balances.
#[derive(Debug, Clone, Copy)]
pub struct Deposit {
    pub config: Config,
    pub lp_supply: u64,
    pub vault_x: u64,
    pub vault_y: u64,
}

/// The token movements of an accepted deposit, in the order they are made.
#[derive(Debug, Clone, Copy, PartialEq, Eq, Structural)]
pub struct DepositPlan {
    pub transfer_x: TokenTransfer,
    pub transfer_y: TokenTransfer,
    pub mint: LpMint,
}

/// `a / b` rounded up, for `b > 0`.
pub open spec fn ceil_div(a: int, b: int) -> int {
    (a + b - 1) / b
}

/// The share of a reserve that `liquidity_amount` LP tokens out of
/// `liquidity_supply` stand for, rounded up.
pub open spec fn share_rounded_up(reserve: u64, liquidity_supply: u64, liquidity_amount: u64) -> int {
    ceil_div(reserve * liquidity_amount, liquidity_supply as int)
}

/// The token amounts owed for minting `liquidity_amount` LP tokens into a
/// pool with the given reserves and LP supply: each reserve's share,
/// rounded up. Fails with `InvalidAmount` when the supply is zero or a share
/// does not fit in a `u64`.
pub open spec fn deposit_amounts_spec(
    reserve_x: u64,
    reserve_y: u64,
    liquidity_supply: u64,
    liquidity_amount: u64,
) -> Result<(u64, u64), AmmError> {
    if liquidity_supply == 0 {
        Err(AmmError::InvalidAmount)
    } else if share_rounded_up(reserve_x, liquidity_supply, liquidity_amount) > u64::MAX
        || share_rounded_up(reserve_y, liquidity_supply, liquidity_amount) > u64::MAX {
        Err(AmmError::InvalidAmount)
    } else {
        Ok(
            (
                share_rounded_up(reserve_x, liquidity_supply, liquidity_amount) as u64,
                share_rounded_up(reserve_y, liquidity_supply, liquidity_amount) as u64,
            ),
        )
    }
}

/// The share of `reserve` owed for `amount` LP tokens out of `supply`, if it fits in a `u64`.
fn share_of_reserve(reserve: u64, supply: u64, amount: u64) -> (res: Option<u64>)
    requires
        supply > 0,
    ensures
        res == (if share_rounded_up(reserve, supply, amount) <= u64::MAX {
            Some(share_rounded_up(reserve, supply, amount) as u64)
        } else {
            None
        }),
{
    let supply = supply as u128;
    let amount = amount as u128;
    let reserve = reserve as u128;
    assert(reserve * amount <= 0xffff_ffff_ffff_ffffu128 * 0xffff_ffff_ffff_ffffu128) by (nonlinear_arith)
        requires
            reserve <= 0xffff_ffff_ffff_ffffu128,
            amount <= 0xffff_ffff_ffff_ffffu128,
    ;
    let product = reserve * amount;
    let rounded = product + (supply - 1);
    let share = rounded / supply;
    if share <= 0xffff_ffff_ffff_ffffu128 {
        Some(share as u64)
    } else {
        None
    }
}

/// Computes, for a non-empty pool, the token amounts owed for minting
/// `liquidity_amount` LP tokens: each reserve's proportional share, rounded
/// up in the pool's favour.
pub fn deposit_amounts_from_liquidity(
    reserve_x: u64,
    reserve_y: u64,
    liquidity_supply: u64,
    liquidity_amount: u64,
    _decimals: u8,
) -> (res: Result<(u64, u64), AmmError>)
    ensures
        res == deposit_amounts_spec(reserve_x, reserve_y, liquidity_supply, liquidity_amount),
{
    if liquidity_supply == 0 {
        return Err(AmmError::InvalidAmount);
    }
    let x = match share_of_reserve(reserve_x, liquidity_supply, liquidity_amount) {
        Some(x) => x,
        None => return Err(AmmError::InvalidAmount),
    };
    let y = match share_of_reserve(reserve_y, liquidity_supply, liquidity_amount) {
        Some(y) => y,
        None => return Err(AmmError::InvalidAmount),
    };
    Ok((x, y))
}

impl Deposit {
    /// A pool into which nothing has been deposited yet.
    pub open spec fn is_empty_pool(self) -> bool {
        self.lp_supply == 0 && self.vault_x == 0 && self.vault_y == 0
    }

    /// The token amounts that a deposit of `amount` LP tokens takes from the
    /// user, or the error with which it is refused.
    pub open spec fn deposit_amounts(self, amount: u64, max_x: u64, max_y: u64) -> Result<
        (u64, u64),
        AmmError,
    > {
        if self.config.locked {
            Err(AmmError::PoolLocked)
        } else if amount == 0 {
            Err(AmmError::InvalidAmount)
        } else if self.is_empty_pool() {
            Ok((max_x, max_y))
        } else {
            match deposit_amounts_spec(self.vault_x, self.vault_y, self.lp_supply, amount) {
                Err(e) => Err(e),
                Ok((x, y)) => if x <= max_x && y <= max_y {
                    Ok((x, y))
                } else {
                    Err(AmmError::SlippageExceeded)
                },
            }
        }
    }

    /// The transfer of `amount` tokens from the user into the vault of `x`
    /// (when `is_x`) or of `y`, signed by the user.
    pub open spec fn deposit_transfer(self, is_x: bool, amount: u64) -> TokenTransfer {
        TokenTransfer {
            from: if is_x { AccountRole::UserX } else { AccountRole::UserY },
            to: if is_x { AccountRole::VaultX } else { AccountRole::VaultY },
            authority: AccountRole::User,
            amount,
            signer: None,
        }
    }

    /// Minting `amount` LP tokens to the user, signed by the config account.
    pub open spec fn lp_mint(self, amount: u64) -> LpMint {
        LpMint {
            mint: AccountRole::MintLp,
            to: AccountRole::UserLp,
            authority: AccountRole::Config,
            amount,
            signer: crate::actions::ConfigSigner { seed: self.config.seed, bump: self.config.config_bump },
        }
    }

    /// The movements of a deposit that takes `x` and `y` and mints `amount`.
    pub open spec fn plan(self, x: u64, y: u64, amount: u64) -> DepositPlan {
        DepositPlan {
            transfer_x: self.deposit_transfer(true, x),
            transfer_y: self.deposit_transfer(false, y),
            mint: self.lp_mint(amount),
        }
    }

    /// Decides a deposit of liquidity worth `amount` LP tokens.
    ///
    /// A locked pool refuses with `PoolLocked`, a zero amount with
    /// `InvalidAmount`. Into an empty pool the user puts `max_x` and `max_y`;
    /// otherwise the user pays each reserve's share for `amount` out of the
    /// LP supply, rounded up, and the deposit is refused with
    /// `SlippageExceeded` when that is more than `max_x` or `max_y`.
    pub fn deposit(&self, amount: u64, max_x: u64, max_y: u64) -> (res: Result<DepositPlan, AmmError>)
        ensures
            match self.deposit_amounts(amount, max_x, max_y) {
                Ok((x, y)) => res == Ok::<DepositPlan, AmmError>(self.plan(x, y, amount)),
                Err(e) => res == Err::<DepositPlan, AmmError>(e),
            },
    {
        if self.config.locked {
            return Err(AmmError::PoolLocked);
        }
        if amount == 0 {
            return Err(AmmError::InvalidAmount);
        }
        let (x, y) = if self.lp_supply == 0 && self.vault_x == 0 && self.vault_y == 0 {
            (max_x, max_y)
        } else {
            let (x, y) = match deposit_amounts_from_liquidity(
                self.vault_x,
                self.vault_y,
                self.lp_supply,
                amount,
                6,
            ) {
                Ok(amounts) => amounts,
                Err(e) => return Err(e),
            };
            if !(x <= max_x && y <= max_y) {
                return Err(AmmError::SlippageExceeded);
            }
            (x, y)
        };
        let transfer_x = self.deposit_tokens(true, x);
        let transfer_y = self.deposit_tokens(false, y);
        let mint = self.mint_lp_tokens(amount);
        Ok(DepositPlan { transfer_x, transfer_y, mint })
    }

    /// The transfer of `amount` tokens from the user's account of `x` (when
    /// `is_x`) or of `y` into the matching vault, authorised by the user.
    pub fn deposit_tokens(&self, is_x: bool, amount: u64) -> (res: TokenTransfer)
        ensures
            res == self.deposit_transfer(is_x, amount),
    {
        let (from, to) = match is_x {
            true => (AccountRole::UserX, AccountRole::VaultX),
            false => (AccountRole::UserY, AccountRole::VaultY),
        };
        TokenTransfer { from, to, authority: AccountRole::User, amount, signer: None }
    }

    /// Minting `amount` LP tokens into the user's LP account, authorised by
    /// the config account with its seeds.
    pub fn mint_lp_tokens(&self, amount: u64) -> (res: LpMint)
        ensures
            res == self.lp_mint(amount),
    {
        LpMint {
            mint: AccountRole::MintLp,
            to: AccountRole::UserLp,
            authority: AccountRole::Config,
            amount,
            signer: self.config.signer(),
        }
    }
}

} // verus!
