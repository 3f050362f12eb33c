use vstd::prelude::*;
use crate::errors::ErrorCode;
use crate::pubkey::Pubkey;
use crate::state::{Config, User};
use crate::utils::{
    balance, get_position, increase_fits, law_decrease_keeping_slot_balances, law_increase_balances,
    lemma_balance_nonneg, positions_wf, spec_decrease_keeping_slot, spec_increase,
};
use crate::state::Position;

verus! {

/// What a withdrawal reads and writes: the owner's account, the configuration and the mint.
#[derive(Clone, Copy, Debug)]
pub struct Withdraw {
    pub sender: Pubkey,
    pub user: User,
    pub config: Config,
    pub mint: Pubkey,
}

impl Withdraw {
    /// Takes `amount` of the mint out of the owner's positions, unless the protocol is paused.
    /// The token transfer out of the vault is made by the caller once this has succeeded.
    pub fn withdraw(&mut self, amount: u64) -> (r: Result<(), ErrorCode>)
        ensures
            old(self).config.paused ==> r == Err::<(), ErrorCode>(ErrorCode::Paused) && *final(self) == *old(self),
            !old(self).config.paused ==> match spec_decrease_keeping_slot(old(self).user.positions@, old(self).mint, amount) {
                Ok(s) => r is Ok && final(self).user.positions@ == s,
                Err(e) => r == Err::<(), ErrorCode>(e) && final(self).user.positions@ == old(self).user.positions@,
            },
            final(self).sender == old(self).sender,
            final(self).config == old(self).config,
            final(self).mint == old(self).mint,
            final(self).user.bump == old(self).user.bump,
            final(self).user.authority == old(self).user.authority,
    {
        if self.config.paused {
            return Err(ErrorCode::Paused);
        }
        self.decrease_position(amount)
    }

    /// Takes `amount` from the position of the mint; the position keeps its mint even at zero.
    pub fn decrease_position(&mut self, amount: u64) -> (r: Result<(), ErrorCode>)
        ensures
            match spec_decrease_keeping_slot(old(self).user.positions@, old(self).mint, amount) {
                Ok(s) => r is Ok && final(self).user.positions@ == s,
                Err(e) => r == Err::<(), ErrorCode>(e) && final(self).user.positions@ == old(self).user.positions@,
            },
            final(self).sender == old(self).sender,
            final(self).config == old(self).config,
            final(self).mint == old(self).mint,
            final(self).user.bump == old(self).user.bump,
            final(self).user.authority == old(self).user.authority,
    {
        let mint = self.mint;
        let position = get_position(&mut self.user.positions, mint)?;
        if !position.mint.key_eq(&mint) {
            return Err(ErrorCode::PositionNotFound);
        }
        if position.amount < amount {
            return Err(ErrorCode::InsufficientBalance);
        }
        position.amount = position.amount - amount;
        Ok(())
    }
}

/// Depositing an amount of a mint into a well-formed account and withdrawing the same amount
/// again both succeed and leave the balance of every mint as it was.
pub proof fn law_deposit_then_withdraw(s: Seq<Position>, m: Pubkey, a: u64)
    requires
        positions_wf(s),
        m != Pubkey::empty(),
        increase_fits(s, m, a),
        spec_increase(s, m, a) is Ok,
    ensures
        spec_increase(s, m, a) matches Ok(t) ==> (spec_decrease_keeping_slot(t, m, a) matches Ok(u) && forall|k: Pubkey|
            balance(u, k) == balance(s, k)),
{
    law_increase_balances(s, m, a);
    lemma_balance_nonneg(s, m);
    if let Ok(t) = spec_increase(s, m, a) {
        law_decrease_keeping_slot_balances(t, m, a);
        let u = spec_decrease_keeping_slot(t, m, a)->Ok_0;
        assert forall|k: Pubkey| balance(u, k) == balance(s, k) by {
            if k != m {
                assert(balance(t, k) == balance(s, k));
            }
        }
    }
}

} // verus!
