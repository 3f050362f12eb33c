use vstd::prelude::*;
use crate::errors::ErrorCode;
use crate::pubkey::Pubkey;
use crate::state::Config;

verus! {

/// What a configuration update reads and writes: the signer, the configuration and,
/// if given, a new rollup validator.
#[derive(Clone, Copy, Debug)]
pub struct UpdateConfig {
    pub sender: Pubkey,
    pub config: Config,
    pub er_validator: Option<Pubkey>,
}

impl UpdateConfig {
    /// The configuration after an update: each setting that is given replaces the old one.
    pub open spec fn updated_config(self, is_paused: Option<bool>, default_pool_fee_bps: Option<u16>) -> Config {
        Config {
            paused: match is_paused {
                Some(p) => p,
                None => self.config.paused,
            },
            er_validator: match self.er_validator {
                Some(v) => v,
                None => self.config.er_validator,
            },
            default_pool_fee_bps: match default_pool_fee_bps {
                Some(f) => f,
                None => self.config.default_pool_fee_bps,
            },
            ..self.config
        }
    }

    /// Changes the pause flag, the rollup validator and the default pool fee, each only if
    /// given. Only the configuration's administrator may do it.
    pub fn update_config(&mut self, is_paused: Option<bool>, default_pool_fee_bps: Option<u16>) -> (r: Result<(), ErrorCode>)
        ensures
            old(self).sender == old(self).config.admin ==> r is Ok && *final(self) == (UpdateConfig {
                config: old(self).updated_config(is_paused, default_pool_fee_bps),
                ..*old(self)
            }),
            r is Ok && is_paused is None ==> final(self).config.paused == old(self).config.paused,
            r is Ok && default_pool_fee_bps is None ==> final(self).config.default_pool_fee_bps
                == old(self).config.default_pool_fee_bps,
            old(self).sender != old(self).config.admin ==> r == Err::<(), ErrorCode>(ErrorCode::NotAdmin)
                && *final(self) == *old(self),
    {
        if !self.sender.key_eq(&self.config.admin) {
            return Err(ErrorCode::NotAdmin);
        }
        if let Some(p) = is_paused {
            self.config.paused = p;
        }
        if let Some(v) = self.er_validator {
            self.config.er_validator = v;
        }
        if let Some(f) = default_pool_fee_bps {
            self.config.default_pool_fee_bps = f;
        }
        Ok(())
    }
}

/// An update by the administrator sets each setting that is given to its new value and leaves
/// each one that is not given, and every other field of the configuration, as it was.
pub proof fn law_update_config_settings(u: UpdateConfig, is_paused: Option<bool>, default_pool_fee_bps: Option<u16>)
    ensures
        ({
            let c = u.updated_config(is_paused, default_pool_fee_bps);
            &&& is_paused matches Some(p) ==> c.paused == p
            &&& is_paused is None ==> c.paused == u.config.paused
            &&& u.er_validator matches Some(v) ==> c.er_validator == v
            &&& u.er_validator is None ==> c.er_validator == u.config.er_validator
            &&& default_pool_fee_bps matches Some(f) ==> c.default_pool_fee_bps == f
            &&& default_pool_fee_bps is None ==> c.default_pool_fee_bps == u.config.default_pool_fee_bps
            &&& c.bump == u.config.bump
            &&& c.admin == u.config.admin
            &&& c.delegate_program == u.config.delegate_program
            &&& c.permission_program == u.config.permission_program
        }),
        u.er_validator is None ==> u.updated_config(None, None) == u.config,
{
}

} // verus!
