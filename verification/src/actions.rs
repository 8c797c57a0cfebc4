//! The token movements that an accepted instruction consists of, and the
//! signer seeds with which the pool's config account authorises them.
use vstd::prelude::*;

verus! {

/// The accounts that take part in the pool's token movements.
#[derive(Debug, Clone, Copy, PartialEq, Eq, Structural)]
pub enum AccountRole {
    /// The user who signs the instruction.
    User,
    /// The user's token account for mint `x`.
    UserX,
    /// The user's token account for mint `y`.
    UserY,
    /// The user's token account for the LP mint.
    UserLp,
    /// The pool's reserve of token `x`, owned by the config account.
    VaultX,
    /// The pool's reserve of token `y`, owned by the config account.
    VaultY,
    /// The pool's config account.
    Config,
    /// The LP mint, whose authority is the config account.
    MintLp,
}

/// The config account's signature: its address seed and bump.
#[derive(Debug, Clone, Copy, PartialEq, Eq, Structural)]
pub struct ConfigSigner {
    pub seed: u64,
    pub bump: u8,
}

/// A transfer of `amount` tokens from `from` to `to`, authorised by `authority`
/// (with the config account's seeds when the config account signs).
#[derive(Debug, Clone, Copy, PartialEq, Eq, Structural)]
pub struct TokenTransfer {
    pub from: AccountRole,
    pub to: AccountRole,
    pub authority: AccountRole,
    pub amount: u64,
    pub signer: Option<ConfigSigner>,
}

/// Minting `amount` LP tokens into `to`.
#[derive(Debug, Clone, Copy, PartialEq, Eq, Structural)]
pub struct LpMint {
    pub mint: AccountRole,
    pub to: AccountRole,
    pub authority: AccountRole,
    pub amount: u64,
    pub signer: ConfigSigner,
}

/// Burning `amount` LP tokens held in `from`.
#[derive(Debug, Clone, Copy, PartialEq, Eq, Structural)]
pub struct LpBurn {
    pub mint: AccountRole,
    pub from: AccountRole,
    pub authority: AccountRole,
    pub amount: u64,
}

/// The bytes of the text `config`, the first of the config account's seeds.
pub open spec fn config_prefix() -> Seq<u8> {
    seq![99u8, 111u8, 110u8, 102u8, 105u8, 103u8]
}

/// The `count` lowest base-256 digits of `n`, least significant first.
pub open spec fn le_bytes(n: nat, count: nat) -> Seq<u8>
    decreases count,
{
    if count == 0 {
        seq![]
    } else {
        seq![(n % 256) as u8] + le_bytes(n / 256, (count - 1) as nat)
    }
}

/// The number whose base-256 digits, least significant first, are `bytes`.
pub open spec fn from_le_bytes(bytes: Seq<u8>) -> nat
    decreases bytes.len(),
{
    if bytes.len() == 0 {
        0
    } else {
        bytes[0] as nat + 256 * from_le_bytes(bytes.drop_first())
    }
}

/// The seeds with which the config account signs: `"config"`, the pool
/// seed as 8 little-endian bytes, and the bump as one byte.
pub open spec fn config_seeds(seed: u64, bump: u8) -> Seq<Seq<u8>> {
    seq![config_prefix(), le_bytes(seed as nat, 8), seq![bump]]
}

/// The 8 little-endian bytes of `n`.
pub fn u64_le_bytes(n: u64) -> (res: Vec<u8>)
    ensures
        res@ == le_bytes(n as nat, 8),
{
    let mut out: Vec<u8> = Vec::new();
    let mut rest: u64 = n;
    let mut i: usize = 0;
    while i < 8
        invariant
            i <= 8,
            out@ + le_bytes(rest as nat, (8 - i) as nat) == le_bytes(n as nat, 8),
        decreases 8 - i,
    {
        let ghost before = out@;
        let byte: u8 = (rest % 256) as u8;
        out.push(byte);
        proof {
            let tail = le_bytes((rest / 256) as nat, (8 - i - 1) as nat);
            assert(le_bytes(rest as nat, (8 - i) as nat) == seq![byte] + tail);
            assert(out@ + tail =~= before + (seq![byte] + tail));
        }
        rest = rest / 256;
        i = i + 1;
    }
    out
}

impl ConfigSigner {
    /// The seeds as byte strings, in the order the runtime expects them.
    pub fn seeds(&self) -> (res: Vec<Vec<u8>>)
        ensures
            res@.len() == 3,
            forall|i: int| 0 <= i < 3 ==> #[trigger] res@[i]@ == config_seeds(self.seed, self.bump)[i],
    {
        let prefix: Vec<u8> = vec![99u8, 111u8, 110u8, 102u8, 105u8, 103u8];
        let seed_bytes = u64_le_bytes(self.seed);
        let bump: Vec<u8> = vec![self.bump];
        let mut res: Vec<Vec<u8>> = Vec::new();
        res.push(prefix);
        res.push(seed_bytes);
        res.push(bump);
        proof {
            assert(res@[0]@ =~= config_prefix());
            assert(res@[2]@ =~= seq![self.bump]);
        }
        res
    }
}

} // verus!
