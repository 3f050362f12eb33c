use vstd::prelude::*;
use crate::errors::ErrorCode;
use crate::pubkey::Pubkey;
use crate::state::{Config, User};
use crate::utils::{get_position, increase_fits, increase_no_overflow, spec_increase};

verus! {

/// What a deposit reads and writes: the depositor's account, the configuration and the mint.
#[derive(Clone, Copy, Debug)]
pub struct Deposit {
    pub sender: Pubkey,
    pub user: User,
    pub config: Config,
    pub mint: Pubkey,
}

impl Deposit {
    /// Whether a deposit of `amount` stays within range, so that `deposit` may be called.
    pub fn no_overflow(&self, amount: u64) -> (r: bool)
        ensures
            r == (!self.config.paused ==> increase_fits(self.user.positions@, self.mint, amount)),
    {
        self.config.paused || increase_no_overflow(&self.user.positions, self.mint, amount)
    }

    /// Records `amount` of the mint in the depositor's positions, unless the protocol is paused.
    /// The token transfer into the vault is made by the caller once this has succeeded.
    pub fn deposit(&mut self, amount: u64) -> (r: Result<(), ErrorCode>)
        requires
            !old(self).config.paused ==> increase_fits(old(self).user.positions@, old(self).mint, amount),
        ensures
            old(self).config.paused ==> r == Err::<(), ErrorCode>(ErrorCode::Paused) && *final(self) == *old(self),
            !old(self).config.paused ==> match spec_increase(old(self).user.positions@, old(self).mint, amount) {
                Ok(s) => r is Ok && final(self).user.positions@ == s,
                Err(e) => r == Err::<(), ErrorCode>(e) && final(self).user.positions@ == old(self).user.positions@,
            },
            final(self).sender == old(self).sender,
            final(self).config == old(self).config,
            final(self).mint == old(self).mint,
            final(self).user.bump == old(self).user.bump,
            final(self).user.authority == old(self).user.authority,
    {
        if self.config.paused {
            return Err(ErrorCode::Paused);
        }
        self.increase_position(amount)
    }

    /// Adds `amount` to the position of the mint, taking a free slot if the mint has none.
    pub fn increase_position(&mut self, amount: u64) -> (r: Result<(), ErrorCode>)
        requires
            increase_fits(old(self).user.positions@, old(self).mint, amount),
        ensures
            match spec_increase(old(self).user.positions@, old(self).mint, amount) {
                Ok(s) => r is Ok && final(self).user.positions@ == s,
                Err(e) => r == Err::<(), ErrorCode>(e) && final(self).user.positions@ == old(self).user.positions@,
            },
            final(self).sender == old(self).sender,
            final(self).config == old(self).config,
            final(self).mint == old(self).mint,
            final(self).user.bump == old(self).user.bump,
            final(self).user.authority == old(self).user.authority,
    {
        let mint = self.mint;
        let position = get_position(&mut self.user.positions, mint)?;
        position.mint = mint;
        position.amount = position.amount + amount;
        Ok(())
    }
}

} // verus!
