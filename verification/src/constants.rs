use vstd::prelude::*;
use crate::pubkey::Pubkey;

verus! {

/// How many token positions a user account holds.
pub const MAX_POSITIONS: usize = 10;


/// Decimals of a pool's LP token.
pub const LP_DECIMALS: u8 = 6;
/// LP tokens minted into a pool's vault when the pool is created.
pub const LP_SUPPLY: u64 = 1_000_000_000_000_000;

/// Pool fee, in basis points, that a new configuration gives new pools (1%).
pub const DEFAULT_POOL_FEE_BPS: u16 = 100;

/// Decimals of the precision used by the curve.
pub const PRECISION_DECIMALS: u32 = 9;

/// The bytes of the administrator's address
/// (`3Qu3rYLyv2BCjkpBGufgnyjtHAvEzgKVR5AHMpgAaGqS`).
pub open spec fn admin_bytes() -> [u8; 32] {
    [
        35, 214, 149, 174, 64, 126, 242, 39, 170, 189, 75, 207, 65, 155, 109, 37,
        181, 237, 230, 16, 53, 191, 160, 66, 42, 188, 196, 25, 97, 233, 145, 237,
    ]
}

/// The only address allowed to initialize the configuration.
pub fn admin() -> (r: Pubkey)
    ensures
        r.bytes == admin_bytes(),
{
    Pubkey {
        bytes: [
            35, 214, 149, 174, 64, 126, 242, 39, 170, 189, 75, 207, 65, 155, 109, 37,
            181, 237, 230, 16, 53, 191, 160, 66, 42, 188, 196, 25, 97, 233, 145, 237,
        ],
    }
}

} // verus!
