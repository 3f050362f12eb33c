use vstd::prelude::*;
use crate::constants::MAX_POSITIONS;
use crate::pubkey::Pubkey;

verus! {

/// The protocol-wide settings.
#[derive(Clone, Copy, Debug)]
pub struct Config {
    pub bump: u8,
    pub paused: bool,
    pub admin: Pubkey,
    pub delegate_program: Pubkey,
    pub er_validator: Pubkey,
    pub permission_program: Pubkey,
    pub default_pool_fee_bps: u16,
}

/// Whether a pool accepts swaps.
#[derive(Clone, Copy, Debug, PartialEq, Eq, Structural)]
pub enum LiquidityPoolStatus {
    Active,
    Paused,
}

/// A constant-product pool over two mints, whose reserves are kept as numbers only.
#[derive(Clone, Copy, Debug)]
pub struct LiquidityPool {
    pub bump: u8,
    pub mint_lp_bump: u8,
    pub status: LiquidityPoolStatus,
    pub authority: Pubkey,
    pub mint_a: Pubkey,
    pub mint_b: Pubkey,
    pub vault_a: Pubkey,
    pub vault_b: Pubkey,
    pub virtual_reserve_a: u64,
    pub virtual_reserve_b: u64,
    pub lp_mint: Pubkey,
    pub lp_supply: u64,
    /// Fees are collected in virtual reserves,
    /// generating yield for lp providers.
    pub pool_fee_bps: u16,
}

/// A user's account: a fixed number of token positions.
#[derive(Clone, Copy, Debug)]
pub struct User {
    pub bump: u8,
    pub authority: Pubkey,
    pub positions: [Position; MAX_POSITIONS],
}

/// An amount of one mint held by a user; the all-zero mint marks a free slot.
#[derive(Clone, Copy, Debug)]
pub struct Position {
    pub mint: Pubkey,
    pub amount: u64,
}

impl Position {
    /// A free slot.
    pub open spec fn empty() -> Position {
        Position { mint: Pubkey::empty(), amount: 0 }
    }
}

impl Default for Position {
    fn default() -> (r: Position)
        ensures
            r == Position::empty(),
    {
        Position { mint: Pubkey::default(), amount: 0 }
    }
}

} // verus!
