use vstd::prelude::*;
use crate::errors::ErrorCode;
use crate::pubkey::Pubkey;
use crate::state::{Config, LiquidityPool, LiquidityPoolStatus};

verus! {

/// The bump seeds found for the accounts a pool creation makes.
#[derive(Clone, Copy, Debug)]
pub struct CreateLpBumps {
    pub lp: u8,
    pub mint_lp: u8,
}

/// What a pool creation reads and writes: the signer, the new pool, the configuration,
/// the pool's mints, its LP mint and the vaults of all three.
#[derive(Clone, Copy, Debug)]
pub struct CreateLp {
    pub sender: Pubkey,
    pub lp: LiquidityPool,
    pub config: Config,
    pub mint_a: Pubkey,
    pub mint_b: Pubkey,
    pub mint_lp: Pubkey,
    pub vault_a: Pubkey,
    pub vault_b: Pubkey,
    pub vault_lp: Pubkey,
}

impl CreateLp {
    /// The pool that creation writes: paused, empty, under the administrator, with the
    /// configuration's default fee.
    pub open spec fn new_pool(self, bump: u8, mint_lp_bump: u8) -> LiquidityPool {
        LiquidityPool {
            bump,
            mint_lp_bump,
            status: LiquidityPoolStatus::Paused,
            authority: self.config.admin,
            mint_a: self.mint_a,
            mint_b: self.mint_b,
            vault_a: self.vault_a,
            vault_b: self.vault_b,
            virtual_reserve_a: 0,
            virtual_reserve_b: 0,
            lp_mint: self.mint_lp,
            lp_supply: 0,
            pool_fee_bps: self.config.default_pool_fee_bps,
        }
    }

    /// Creates the pool unless the protocol is paused. Minting the LP supply into the
    /// pool's LP vault is done by the caller once this has succeeded.
    pub fn create_lp(&mut self, bumps: &CreateLpBumps) -> (r: Result<(), ErrorCode>)
        ensures
            old(self).config.paused ==> r == Err::<(), ErrorCode>(ErrorCode::Paused) && *final(self) == *old(self),
            !old(self).config.paused ==> r is Ok && *final(self) == (CreateLp {
                lp: old(self).new_pool(bumps.lp, bumps.mint_lp),
                ..*old(self)
            }),
            r is Ok ==> final(self).lp.bump == bumps.lp && final(self).lp.mint_lp_bump == bumps.mint_lp,
    {
        if self.config.paused {
            return Err(ErrorCode::Paused);
        }
        self.initialize(bumps.lp, bumps.mint_lp)
    }

    /// Writes the new pool.
    pub fn initialize(&mut self, bump: u8, mint_lp_bump: u8) -> (r: Result<(), ErrorCode>)
        ensures
            r is Ok,
            *final(self) == (CreateLp { lp: old(self).new_pool(bump, mint_lp_bump), ..*old(self) }),
    {
        self.lp = LiquidityPool {
            bump,
            mint_lp_bump,
            status: LiquidityPoolStatus::Paused,
            authority: self.config.admin,
            mint_a: self.mint_a,
            mint_b: self.mint_b,
            vault_a: self.vault_a,
            vault_b: self.vault_b,
            virtual_reserve_a: 0,
            virtual_reserve_b: 0,
            lp_mint: self.mint_lp,
            lp_supply: 0,
            pool_fee_bps: self.config.default_pool_fee_bps,
        };
        Ok(())
    }
}

/// A new pool carries its own bump and its LP mint's bump as given, the two mints, the
/// vaults and the LP mint of the creation, the configuration's administrator as authority
/// and its default fee; it starts paused with empty reserves and no LP supply.
pub proof fn law_create_lp_pool(c: CreateLp, bump: u8, mint_lp_bump: u8)
    ensures
        ({
            let p = c.new_pool(bump, mint_lp_bump);
            &&& p.bump == bump
            &&& p.mint_lp_bump == mint_lp_bump
            &&& p.status == LiquidityPoolStatus::Paused
            &&& p.authority == c.config.admin
            &&& p.mint_a == c.mint_a && p.mint_b == c.mint_b
            &&& p.vault_a == c.vault_a && p.vault_b == c.vault_b
            &&& p.lp_mint == c.mint_lp
            &&& p.virtual_reserve_a == 0 && p.virtual_reserve_b == 0
            &&& p.lp_supply == 0
            &&& p.pool_fee_bps == c.config.default_pool_fee_bps
        }),
{
}

} // verus!
