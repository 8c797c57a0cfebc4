//! Errors of the pool, and the mapping from the curve library's errors.
use vstd::prelude::*;

verus! {

/// Every error that the pool's instructions report.
#[derive(Debug, Clone, Copy, PartialEq, Eq, Structural)]
pub enum AmmError {
    FeePErcentErr,
    DefaultError,
    OfferExpired,
    PoolLocked,
    SlippageExceeded,
    Overflow,
    Underflow,
    InvalidToken,
    LiquidityLessThanMinimum,
    NoLiquidityInPool,
    BumpError,
    CurveError,
    InvalidFee,
    InvalidAuthority,
    NoAuthoritySet,
    InvalidAmount,
    InvalidPrecision,
    InsufficientBalance,
    ZeroBalance,
}

/// The errors that the constant-product curve computations report.
#[derive(Debug, Clone, Copy, PartialEq, Eq, Structural)]
pub enum CurveError {
    InvalidPrecision,
    Overflow,
    Underflow,
    InvalidFeeAmount,
    InsufficientBalance,
    ZeroBalance,
    SlippageLimitExceeded,
}

/// The pool error that stands for a curve error.
pub open spec fn amm_error_of_curve(error: CurveError) -> AmmError {
    match error {
        CurveError::InvalidPrecision => AmmError::InvalidPrecision,
        CurveError::Overflow => AmmError::Overflow,
        CurveError::Underflow => AmmError::Underflow,
        CurveError::InvalidFeeAmount => AmmError::InvalidFee,
        CurveError::InsufficientBalance => AmmError::InsufficientBalance,
        CurveError::ZeroBalance => AmmError::ZeroBalance,
        CurveError::SlippageLimitExceeded => AmmError::SlippageExceeded,
    }
}

impl From<CurveError> for AmmError {
    fn from(error: CurveError) -> (res: AmmError) {
        match error {
            CurveError::InvalidPrecision => AmmError::InvalidPrecision,
            CurveError::Overflow => AmmError::Overflow,
            CurveError::Underflow => AmmError::Underflow,
            CurveError::InvalidFeeAmount => AmmError::InvalidFee,
            CurveError::InsufficientBalance => AmmError::InsufficientBalance,
            CurveError::ZeroBalance => AmmError::ZeroBalance,
            CurveError::SlippageLimitExceeded => AmmError::SlippageExceeded,
        }
    }
}

impl vstd::std_specs::convert::FromSpecImpl<CurveError> for AmmError {
    open spec fn obeys_from_spec() -> bool {
        true
    }

    open spec fn from_spec(error: CurveError) -> AmmError {
        amm_error_of_curve(error)
    }
}

/// The human-readable description of each pool error.
pub open spec fn message_of(error: AmmError) -> Seq<char> {
    match error {
        AmmError::FeePErcentErr => "fee percentage can only be btween 0 to 100."@,
        AmmError::DefaultError => "default error."@,
        AmmError::OfferExpired => "offer expired."@,
        AmmError::PoolLocked => "this pool is locked."@,
        AmmError::SlippageExceeded => "slippage exceeded."@,
        AmmError::Overflow => "overflow detected."@,
        AmmError::Underflow => "underflow detected"@,
        AmmError::InvalidToken => "invalid token."@,
        AmmError::LiquidityLessThanMinimum => "actual liquidity is less than minimum"@,
        AmmError::NoLiquidityInPool => "No liquidity in pool."@,
        AmmError::BumpError => "Bump error."@,
        AmmError::CurveError => "curve error."@,
        AmmError::InvalidFee => "fee is greater than 100%, this is not a very good deal"@,
        AmmError::InvalidAuthority => "invalid update authority"@,
        AmmError::NoAuthoritySet => "no update authority set"@,
        AmmError::InvalidAmount => "invalid amount"@,
        AmmError::InvalidPrecision => "invalid precision."@,
        AmmError::InsufficientBalance => "insufficient balance"@,
        AmmError::ZeroBalance => "zero balance"@,
    }
}

impl AmmError {
    /// The message that the program reports with this error.
    pub fn message(&self) -> (res: &'static str)
        ensures
            res@ == message_of(*self),
    {
        match self {
            AmmError::FeePErcentErr => "fee percentage can only be btween 0 to 100.",
            AmmError::DefaultError => "default error.",
            AmmError::OfferExpired => "offer expired.",
            AmmError::PoolLocked => "this pool is locked.",
            AmmError::SlippageExceeded => "slippage exceeded.",
            AmmError::Overflow => "overflow detected.",
            AmmError::Underflow => "underflow detected",
            AmmError::InvalidToken => "invalid token.",
            AmmError::LiquidityLessThanMinimum => "actual liquidity is less than minimum",
            AmmError::NoLiquidityInPool => "No liquidity in pool.",
            AmmError::BumpError => "Bump error.",
            AmmError::CurveError => "curve error.",
            AmmError::InvalidFee => "fee is greater than 100%, this is not a very good deal",
            AmmError::InvalidAuthority => "invalid update authority",
            AmmError::NoAuthoritySet => "no update authority set",
            AmmError::InvalidAmount => "invalid amount",
            AmmError::InvalidPrecision => "invalid precision.",
            AmmError::InsufficientBalance => "insufficient balance",
            AmmError::ZeroBalance => "zero balance",
        }
    }
}

} // verus!
