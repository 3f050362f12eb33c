use vstd::prelude::*;
use crate::errors::ErrorCode;
use crate::pubkey::Pubkey;
use crate::state::{Config, Position, User};
use crate::utils::{
    balance, decrease_position, holds, increase_fits, increase_no_overflow, increase_position, law_decrease_balances,
    law_increase_balances, positions_wf, spec_decrease, spec_increase,
};

verus! {

/// What a transfer between two users reads and writes.
#[derive(Clone, Copy, Debug)]
pub struct Transfer {
    pub user_account: User,
    pub config: Config,
    pub destination_user_account: User,
    pub mint: Pubkey,
}

impl Transfer {
    /// The positions of sender and receiver after a transfer of `amount`, or the error that refuses it.
    pub open spec fn transfer_outcome(self, amount: u64) -> Result<(Seq<Position>, Seq<Position>), ErrorCode> {
        if self.config.paused {
            Err(ErrorCode::Paused)
        } else {
            match spec_decrease(self.user_account.positions@, self.mint, amount) {
                Err(e) => Err(e),
                Ok(s) => match spec_increase(self.destination_user_account.positions@, self.mint, amount) {
                    Err(e) => Err(e),
                    Ok(d) => Ok((s, d)),
                },
            }
        }
    }

    /// Whether a transfer of `amount` stays within range, so that `transfer` may be called.
    pub fn no_overflow(&self, amount: u64) -> (r: bool)
        ensures
            r == (!self.config.paused && spec_decrease(self.user_account.positions@, self.mint, amount) is Ok
                ==> increase_fits(self.destination_user_account.positions@, self.mint, amount)),
    {
        if self.config.paused {
            return true;
        }
        let mut source = self.user_account.positions;
        match decrease_position(&mut source, self.mint, amount) {
            Ok(()) => increase_no_overflow(&self.destination_user_account.positions, self.mint, amount),
            Err(_) => true,
        }
    }

    /// Moves `amount` of the mint from the sender's positions to the receiver's.
    /// A refused transfer changes neither account.
    pub fn transfer(&mut self, amount: u64) -> (r: Result<(), ErrorCode>)
        requires
            !old(self).config.paused && spec_decrease(old(self).user_account.positions@, old(self).mint, amount) is Ok
                ==> increase_fits(old(self).destination_user_account.positions@, old(self).mint, amount),
        ensures
            old(self).config.paused ==> r == Err::<(), ErrorCode>(ErrorCode::Paused),
            match old(self).transfer_outcome(amount) {
                Ok((s, d)) => {
                    &&& r is Ok
                    &&& final(self).user_account.positions@ == s
                    &&& final(self).destination_user_account.positions@ == d
                    &&& final(self).config == old(self).config
                    &&& final(self).mint == old(self).mint
                    &&& final(self).user_account.bump == old(self).user_account.bump
                    &&& final(self).user_account.authority == old(self).user_account.authority
                    &&& final(self).destination_user_account.bump == old(self).destination_user_account.bump
                    &&& final(self).destination_user_account.authority == old(self).destination_user_account.authority
                },
                Err(e) => r == Err::<(), ErrorCode>(e) && *final(self) == *old(self),
            },
    {
        if self.config.paused {
            return Err(ErrorCode::Paused);
        }
        let mint = self.mint;
        let mut source = self.user_account.positions;
        decrease_position(&mut source, mint, amount)?;
        let mut destination = self.destination_user_account.positions;
        increase_position(&mut destination, mint, amount)?;
        self.user_account.positions = source;
        self.destination_user_account.positions = destination;
        Ok(())
    }
}

/// A transfer between well-formed accounts of a mint that is not the free marker succeeds
/// exactly when the protocol is not paused, the sender holds at least the amount and the
/// receiver holds the mint or has a free slot. It moves the amount from one balance to the
/// other, so their sum is kept, leaves every other balance of both accounts unchanged, and
/// keeps both accounts well formed.
pub proof fn law_transfer_conserves(t: Transfer, amount: u64)
    requires
        positions_wf(t.user_account.positions@),
        positions_wf(t.destination_user_account.positions@),
        t.mint != Pubkey::empty(),
        increase_fits(t.destination_user_account.positions@, t.mint, amount),
    ensures
        t.transfer_outcome(amount) is Ok <==> {
            &&& !t.config.paused
            &&& holds(t.user_account.positions@, t.mint)
            &&& balance(t.user_account.positions@, t.mint) >= amount
            &&& (holds(t.destination_user_account.positions@, t.mint)
                || holds(t.destination_user_account.positions@, Pubkey::empty()))
        },
        t.transfer_outcome(amount) matches Ok((s, d)) ==> {
            let s0 = t.user_account.positions@;
            let d0 = t.destination_user_account.positions@;
            &&& positions_wf(s) && positions_wf(d)
            &&& balance(s, t.mint) == balance(s0, t.mint) - amount
            &&& balance(d, t.mint) == balance(d0, t.mint) + amount
            &&& balance(s, t.mint) + balance(d, t.mint) == balance(s0, t.mint) + balance(d0, t.mint)
            &&& forall|k: Pubkey| k != t.mint ==> balance(s, k) == balance(s0, k) && balance(d, k) == balance(d0, k)
        },
{
    law_decrease_balances(t.user_account.positions@, t.mint, amount);
    law_increase_balances(t.destination_user_account.positions@, t.mint, amount);
}

} // verus!
