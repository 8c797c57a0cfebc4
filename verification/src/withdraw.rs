//! Removing liquidity: the user burns LP tokens and the pool pays out the
//! amounts of `x` and `y` that the constant-product curve assigns to them.
use vstd::prelude::*;

use crate::actions::{AccountRole, ConfigSigner, LpBurn, TokenTransfer};
use crate::error::AmmError;
use crate::state::Config;

verus! {

/// The precision with which the pool asks the curve for withdrawal amounts.
pub const CURVE_PRECISION: u8 = 6;

/// What a withdrawal reads of the on-chain accounts: the pool's config, the
/// LP mint's supply and the two vaults' balances.
#[derive(Debug, Clone, Copy)]
pub struct Withdraw {
    pub config: Config,
    pub lp_supply: u64,
    pub vault_x: u64,
    pub vault_y: u64,
}

/// The amounts of `x` and `y` that the curve assigns to burnt LP tokens.
#[derive(Debug, Clone, Copy, PartialEq, Eq, Structural)]
pub struct XYAmounts {
    pub x: u64,
    pub y: u64,
}

/// The question a withdrawal puts to the curve: what `a` LP tokens out of a
/// supply of `l` are worth in reserves `x` and `y`, at `precision`.
#[derive(Debug, Clone, Copy, PartialEq, Eq, Structural)]
pub struct CurveQuery {
    pub x: u64,
    pub y: u64,
    pub l: u64,
    pub a: u64,
    pub precision: u8,
}

/// The token movements of an accepted withdrawal, in the order they are made.
#[derive(Debug, Clone, Copy, PartialEq, Eq, Structural)]
pub struct WithdrawPlan {
    pub burn: LpBurn,
    pub transfer_x: TokenTransfer,
    pub transfer_y: TokenTransfer,
}

impl Withdraw {
    /// The error with which a withdrawal of `amount` is refused before any
    /// amounts are computed, if any.
    pub open spec fn precheck(self, amount: u64) -> Option<AmmError> {
        if self.config.locked {
            Some(AmmError::PoolLocked)
        } else if amount == 0 {
            Some(AmmError::InvalidAmount)
        } else {
            None
        }
    }

    /// The curve query for a withdrawal of `amount`, or the error with which it is refused.
    pub open spec fn query(self, amount: u64) -> Result<CurveQuery, AmmError> {
        match self.precheck(amount) {
            Some(e) => Err(e),
            None => Ok(
                CurveQuery {
                    x: self.vault_x,
                    y: self.vault_y,
                    l: self.lp_supply,
                    a: amount,
                    precision: CURVE_PRECISION,
                },
            ),
        }
    }

    /// The amounts paid out for a withdrawal of `amount` given what the curve
    /// assigned to it, or the error with which it is refused.
    pub open spec fn payout(self, amount: u64, min_x: u64, min_y: u64, amounts: XYAmounts) -> Result<
        (u64, u64),
        AmmError,
    > {
        match self.precheck(amount) {
            Some(e) => Err(e),
            None => if amounts.x >= min_x && amounts.y >= min_y {
                Ok((amounts.x, amounts.y))
            } else {
                Err(AmmError::SlippageExceeded)
            },
        }
    }

    /// The transfer of `amount` tokens from the vault of `x` (when `is_x`) or
    /// of `y` to the user, signed by the config account.
    pub open spec fn withdraw_transfer(self, is_x: bool, amount: u64) -> TokenTransfer {
        TokenTransfer {
            from: if is_x { AccountRole::VaultX } else { AccountRole::VaultY },
            to: if is_x { AccountRole::UserX } else { AccountRole::UserY },
            authority: AccountRole::Config,
            amount,
            signer: Some(ConfigSigner { seed: self.config.seed, bump: self.config.config_bump }),
        }
    }

    /// Burning `amount` of the user's LP tokens, signed by the user.
    pub open spec fn lp_burn(self, amount: u64) -> LpBurn {
        LpBurn {
            mint: AccountRole::MintLp,
            from: AccountRole::UserLp,
            authority: AccountRole::User,
            amount,
        }
    }

    /// The movements of a withdrawal that burns `amount` and pays `x` and `y`.
    pub open spec fn plan(self, amount: u64, x: u64, y: u64) -> WithdrawPlan {
        WithdrawPlan {
            burn: self.lp_burn(amount),
            transfer_x: self.withdraw_transfer(true, x),
            transfer_y: self.withdraw_transfer(false, y),
        }
    }

    /// The first step of a withdrawal of `amount` LP tokens: a locked pool
    /// refuses with `PoolLocked`, a zero amount with `InvalidAmount`;
    /// otherwise the question to put to the curve.
    pub fn withdraw_query(&self, amount: u64) -> (res: Result<CurveQuery, AmmError>)
        ensures
            res == self.query(amount),
    {
        if self.config.locked {
            return Err(AmmError::PoolLocked);
        }
        if amount == 0 {
            return Err(AmmError::InvalidAmount);
        }
        Ok(
            CurveQuery {
                x: self.vault_x,
                y: self.vault_y,
                l: self.lp_supply,
                a: amount,
                precision: CURVE_PRECISION,
            },
        )
    }

    /// Decides a withdrawal of `amount` LP tokens, given the amounts that the
    /// curve assigned to them.
    ///
    /// A locked pool refuses with `PoolLocked`, a zero amount with
    /// `InvalidAmount`; a payout below `min_x` or `min_y` is refused with
    /// `SlippageExceeded`. Otherwise the user's LP tokens are burnt and the
    /// curve's amounts are paid out of the vaults.
    pub fn withdraw(&self, amount: u64, min_x: u64, min_y: u64, amounts: XYAmounts) -> (res: Result<
        WithdrawPlan,
        AmmError,
    >)
        ensures
            match self.payout(amount, min_x, min_y, amounts) {
                Ok((x, y)) => res == Ok::<WithdrawPlan, AmmError>(self.plan(amount, x, y)),
                Err(e) => res == Err::<WithdrawPlan, AmmError>(e),
            },
    {
        if self.config.locked {
            return Err(AmmError::PoolLocked);
        }
        if amount == 0 {
            return Err(AmmError::InvalidAmount);
        }
        let (x, y) = (amounts.x, amounts.y);
        if !(x >= min_x && y >= min_y) {
            return Err(AmmError::SlippageExceeded);
        }
        let burn = self.burn_lp_tokens(amount);
        let transfer_x = self.withdraw_tokens(true, x);
        let transfer_y = self.withdraw_tokens(false, y);
        Ok(WithdrawPlan { burn, transfer_x, transfer_y })
    }

    /// The transfer of `amount` tokens from the vault of `x` (when `is_x`) or
    /// of `y` into the user's matching account, authorised by the config
    /// account with its seeds.
    pub fn withdraw_tokens(&self, is_x: bool, amount: u64) -> (res: TokenTransfer)
        ensures
            res == self.withdraw_transfer(is_x, amount),
    {
        let (from, to) = match is_x {
            true => (AccountRole::VaultX, AccountRole::UserX),
            false => (AccountRole::VaultY, AccountRole::UserY),
        };
        TokenTransfer {
            from,
            to,
            authority: AccountRole::Config,
            amount,
            signer: Some(self.config.signer()),
        }
    }

    /// Burning `amount` LP tokens from the user's LP account, authorised by the user.
    pub fn burn_lp_tokens(&self, amount: u64) -> (res: LpBurn)
        ensures
            res == self.lp_burn(amount),
    {
        LpBurn {
            mint: AccountRole::MintLp,
            from: AccountRole::UserLp,
            authority: AccountRole::User,
            amount,
        }
    }
}

} // verus!
