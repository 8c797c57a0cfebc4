//! The pool's configuration account, held as plain values.
use vstd::prelude::*;

use crate::actions::ConfigSigner;

verus! {

/// The central pool state. A public key is held as its 32 bytes.
#[derive(Debug, Clone, Copy, PartialEq, Eq)]
pub struct Config {
    /// Tells different pools apart; part of the config account's address seeds.
    pub seed: u64,
    /// An optional authority that may lock the pool.
    pub authority: Option<[u8; 32]>,
    pub mint_x: [u8; 32],
    pub mint_y: [u8; 32],
    /// Swap fee in basis points.
    pub fee: u16,
    /// A locked pool accepts no deposit and no withdrawal.
    pub locked: bool,
    /// Bump seed of the config account's address.
    pub config_bump: u8,
    /// Bump seed of the LP mint's address.
    pub lp_bump: u8,
}

impl Config {
    /// The signer that lets the config account authorise token movements:
    /// its address seeds (`"config"`, the pool seed) and its bump.
    pub fn signer(&self) -> (res: ConfigSigner)
        ensures
            res == (ConfigSigner { seed: self.seed, bump: self.config_bump }),
    {
        ConfigSigner { seed: self.seed, bump: self.config_bump }
    }
}

} // verus!
