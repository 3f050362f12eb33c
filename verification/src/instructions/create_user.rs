use vstd::prelude::*;
use crate::constants::MAX_POSITIONS;
use crate::errors::ErrorCode;
use crate::pubkey::Pubkey;
use crate::state::{Config, Position, User};
use crate::utils::positions_wf;

verus! {

/// The bump seeds found for the accounts a user creation makes.
#[derive(Clone, Copy, Debug)]
pub struct CreateUserBumps {
    pub user: u8,
}

/// What a user creation reads and writes: the signer, the new account and the configuration.
#[derive(Clone, Copy, Debug)]
pub struct CreateUser {
    pub sender: Pubkey,
    pub user: User,
    pub config: Config,
}

impl CreateUser {
    /// Writes a fresh account owned by the signer, with every position free,
    /// unless the protocol is paused.
    pub fn create_user(&mut self, bumps: &CreateUserBumps) -> (r: Result<(), ErrorCode>)
        ensures
            old(self).config.paused ==> r == Err::<(), ErrorCode>(ErrorCode::Paused) && *final(self) == *old(self),
            !old(self).config.paused ==> {
                &&& r is Ok
                &&& final(self).user.bump == bumps.user
                &&& final(self).user.authority == old(self).sender
                &&& final(self).user.positions@ == Seq::new(MAX_POSITIONS as nat, |i: int| Position::empty())
                &&& positions_wf(final(self).user.positions@)
                &&& final(self).sender == old(self).sender
                &&& final(self).config == old(self).config
            },
    {
        if self.config.paused {
            return Err(ErrorCode::Paused);
        }
        let free = Position::default();
        self.user = User { bump: bumps.user, authority: self.sender, positions: [free; MAX_POSITIONS] };
        assert(self.user.positions@ =~= Seq::new(MAX_POSITIONS as nat, |i: int| Position::empty()));
        Ok(())
    }
}

} // verus!
