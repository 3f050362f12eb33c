use vstd::prelude::*;
use crate::constants::{admin, admin_bytes, DEFAULT_POOL_FEE_BPS};
use crate::errors::ErrorCode;
use crate::pubkey::Pubkey;
use crate::state::Config;

verus! {

/// The bump seeds found for the accounts an initialization creates.
#[derive(Clone, Copy, Debug)]
pub struct InitializeBumps {
    pub config: u8,
}

/// What the initialization reads and writes: the signer, the configuration account
/// and the addresses the configuration records.
#[derive(Clone, Copy, Debug)]
pub struct Initialize {
    pub sender: Pubkey,
    pub config: Config,
    pub delegate_program: Pubkey,
    pub er_validator: Pubkey,
    pub permission_program: Pubkey,
}

impl Initialize {
    /// The configuration that initialization writes.
    pub open spec fn initial_config(self, bump: u8) -> Config {
        Config {
            bump,
            paused: false,
            admin: self.sender,
            delegate_program: self.delegate_program,
            er_validator: self.er_validator,
            permission_program: self.permission_program,
            default_pool_fee_bps: DEFAULT_POOL_FEE_BPS,
        }
    }

    /// Writes the configuration: unpaused, with the signer as administrator and the
    /// default pool fee. Only the administrator's address may do it.
    pub fn initialize(&mut self, bumps: &InitializeBumps) -> (r: Result<(), ErrorCode>)
        ensures
            old(self).sender.bytes == admin_bytes() ==> r is Ok && *final(self) == (Initialize {
                config: old(self).initial_config(bumps.config),
                ..*old(self)
            }),
            r is Ok ==> {
                &&& final(self).config.admin == old(self).sender
                &&& final(self).config.delegate_program == old(self).delegate_program
                &&& final(self).config.er_validator == old(self).er_validator
                &&& final(self).config.permission_program == old(self).permission_program
            },
            old(self).sender.bytes != admin_bytes() ==> r == Err::<(), ErrorCode>(ErrorCode::NotAdmin)
                && *final(self) == *old(self),
    {
        let expected = admin();
        if !self.sender.key_eq(&expected) {
            return Err(ErrorCode::NotAdmin);
        }
        self.config = Config {
            bump: bumps.config,
            paused: false,
            admin: self.sender,
            delegate_program: self.delegate_program,
            er_validator: self.er_validator,
            permission_program: self.permission_program,
            default_pool_fee_bps: DEFAULT_POOL_FEE_BPS,
        };
        Ok(())
    }
}

/// The initialized configuration records each given address in its own field: the signer
/// as administrator, and the delegate program, rollup validator and permission program as
/// given. It starts unpaused, with the given bump and a 1% default pool fee.
pub proof fn law_initialize_records(i: Initialize, bump: u8)
    ensures
        i.initial_config(bump).admin == i.sender,
        i.initial_config(bump).delegate_program == i.delegate_program,
        i.initial_config(bump).er_validator == i.er_validator,
        i.initial_config(bump).permission_program == i.permission_program,
        i.initial_config(bump).bump == bump,
        !i.initial_config(bump).paused,
        i.initial_config(bump).default_pool_fee_bps == 100,
{
}

} // verus!
