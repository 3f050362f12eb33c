use vstd::prelude::*;
use crate::errors::ErrorCode;
use crate::pubkey::Pubkey;
use crate::state::{Config, LiquidityPool, LiquidityPoolStatus, Position, User};
use crate::utils::{
    balance, decrease_position, holds, increase_fits, increase_no_overflow, increase_position, law_decrease_balances,
    law_increase_balances, lemma_decrease_holds, positions_wf, spec_decrease, spec_increase,
};

verus! {

/// The reserve of side x (`is_x`) or side y of a pool.
pub open spec fn reserve_of(pool: LiquidityPool, is_x: bool) -> u64 {
    if is_x {
        pool.virtual_reserve_a
    } else {
        pool.virtual_reserve_b
    }
}

/// The pool with the reserve of one side replaced.
pub open spec fn with_reserve(pool: LiquidityPool, is_x: bool, v: u64) -> LiquidityPool {
    if is_x {
        LiquidityPool { virtual_reserve_a: v, ..pool }
    } else {
        LiquidityPool { virtual_reserve_b: v, ..pool }
    }
}

/// What a swap reads and writes: the trader's account, the pool, the configuration and
/// the pool's two mints.
#[derive(Clone, Copy, Debug)]
pub struct Swap {
    pub user_account: User,
    pub lp: LiquidityPool,
    pub config: Config,
    pub mint_a: Pubkey,
    pub mint_b: Pubkey,
}

impl Swap {
    /// The mint of side x (`is_x`) or side y.
    pub open spec fn mint_of(self, is_x: bool) -> Pubkey {
        if is_x {
            self.mint_a
        } else {
            self.mint_b
        }
    }

    /// Whether the pool takes swaps: the protocol is not paused, the pool is active
    /// and holds liquidity.
    pub open spec fn pool_outcome(self) -> Result<(), ErrorCode> {
        if self.config.paused {
            Err(ErrorCode::Paused)
        } else if self.lp.status != LiquidityPoolStatus::Active {
            Err(ErrorCode::PoolNotActive)
        } else if self.lp.lp_supply == 0 {
            Err(ErrorCode::NoLiquidityInPool)
        } else {
            Ok(())
        }
    }

    /// The checks a swap makes before the curve is asked for its amounts.
    pub fn check_pool(&self) -> (r: Result<(), ErrorCode>)
        ensures
            r == self.pool_outcome(),
            r is Ok <==> (!self.config.paused && self.lp.status == LiquidityPoolStatus::Active
                && self.lp.lp_supply != 0),
    {
        if self.config.paused {
            return Err(ErrorCode::Paused);
        }
        if self.lp.status != LiquidityPoolStatus::Active {
            return Err(ErrorCode::PoolNotActive);
        }
        if self.lp.lp_supply == 0 {
            return Err(ErrorCode::NoLiquidityInPool);
        }
        Ok(())
    }

    /// The trader's positions and the pool after a swap that puts `deposit` of side `is_x`
    /// in and takes `withdraw` of the other side out, or the error that refuses it.
    pub open spec fn swap_outcome(self, is_x: bool, deposit: u64, withdraw: u64) -> Result<
        (Seq<Position>, LiquidityPool),
        ErrorCode,
    > {
        match self.pool_outcome() {
            Err(e) => Err(e),
            Ok(_) => match spec_decrease(self.user_account.positions@, self.mint_of(is_x), deposit) {
                Err(e) => Err(e),
                Ok(s) => match spec_increase(s, self.mint_of(!is_x), withdraw) {
                    Err(e) => Err(e),
                    Ok(t) => if reserve_of(self.lp, !is_x) < withdraw {
                        Err(ErrorCode::InsufficientPoolBalance)
                    } else {
                        Ok(
                            (
                                t,
                                with_reserve(
                                    with_reserve(self.lp, is_x, (reserve_of(self.lp, is_x) + deposit) as u64),
                                    !is_x,
                                    (reserve_of(self.lp, !is_x) - withdraw) as u64,
                                ),
                            ),
                        )
                    },
                },
            },
        }
    }

    /// No sum in a swap overflows once the checks before it have passed.
    pub open spec fn swap_fits(self, is_x: bool, deposit: u64, withdraw: u64) -> bool {
        self.pool_outcome() is Ok ==> match spec_decrease(self.user_account.positions@, self.mint_of(is_x), deposit) {
            Ok(s) => reserve_of(self.lp, is_x) + deposit <= u64::MAX && increase_fits(s, self.mint_of(!is_x), withdraw),
            Err(_) => true,
        }
    }

    /// Whether the swap stays within range, so that `swap` may be called.
    pub fn no_overflow(&self, is_x: bool, deposit: u64, withdraw: u64) -> (r: bool)
        ensures
            r == self.swap_fits(is_x, deposit, withdraw),
    {
        if self.check_pool().is_err() {
            return true;
        }
        let pay = if is_x {
            self.mint_a
        } else {
            self.mint_b
        };
        let get = if is_x {
            self.mint_b
        } else {
            self.mint_a
        };
        let reserve = if is_x {
            self.lp.virtual_reserve_a
        } else {
            self.lp.virtual_reserve_b
        };
        let mut positions = self.user_account.positions;
        match decrease_position(&mut positions, pay, deposit) {
            Ok(()) => reserve <= u64::MAX - deposit && increase_no_overflow(&positions, get, withdraw),
            Err(_) => true,
        }
    }

    /// Swaps on the pool: `deposit` of side `is_x` goes from the trader to the pool and
    /// `withdraw` of the other side from the pool to the trader, the two amounts being those
    /// the constant-product curve gave for the trade. A refused swap changes nothing.
    pub fn swap(&mut self, is_x: bool, deposit: u64, withdraw: u64) -> (r: Result<(), ErrorCode>)
        requires
            old(self).swap_fits(is_x, deposit, withdraw),
        ensures
            old(self).config.paused ==> r == Err::<(), ErrorCode>(ErrorCode::Paused),
            match old(self).swap_outcome(is_x, deposit, withdraw) {
                Ok((s, pool)) => {
                    &&& r is Ok
                    &&& final(self).user_account.positions@ == s
                    &&& final(self).lp == pool
                    &&& final(self).config == old(self).config
                    &&& final(self).mint_a == old(self).mint_a
                    &&& final(self).mint_b == old(self).mint_b
                    &&& final(self).user_account.bump == old(self).user_account.bump
                    &&& final(self).user_account.authority == old(self).user_account.authority
                },
                Err(e) => r == Err::<(), ErrorCode>(e) && *final(self) == *old(self),
            },
    {
        self.check_pool()?;
        let mut next = *self;
        next.deposit_tokens(is_x, deposit)?;
        next.withdraw_tokens(!is_x, withdraw)?;
        *self = next;
        Ok(())
    }

    /// Virtual transfer of tokens from the trader to the pool.
    pub fn deposit_tokens(&mut self, is_x: bool, amount: u64) -> (r: Result<(), ErrorCode>)
        requires
            spec_decrease(old(self).user_account.positions@, old(self).mint_of(is_x), amount) is Ok
                ==> reserve_of(old(self).lp, is_x) + amount <= u64::MAX,
        ensures
            match spec_decrease(old(self).user_account.positions@, old(self).mint_of(is_x), amount) {
                Ok(s) => {
                    &&& r is Ok
                    &&& final(self).user_account.positions@ == s
                    &&& final(self).lp == with_reserve(old(self).lp, is_x, (reserve_of(old(self).lp, is_x) + amount) as u64)
                    &&& final(self).config == old(self).config
                    &&& final(self).mint_a == old(self).mint_a
                    &&& final(self).mint_b == old(self).mint_b
                    &&& final(self).user_account.bump == old(self).user_account.bump
                    &&& final(self).user_account.authority == old(self).user_account.authority
                },
                Err(e) => r == Err::<(), ErrorCode>(e) && *final(self) == *old(self),
            },
    {
        let mint = if is_x {
            self.mint_a
        } else {
            self.mint_b
        };
        let ghost before = *self;
        match decrease_position(&mut self.user_account.positions, mint, amount) {
            Ok(()) => {},
            Err(e) => {
                assert(self.user_account.positions =~= before.user_account.positions);
                return Err(e);
            },
        }
        if is_x {
            self.lp.virtual_reserve_a = self.lp.virtual_reserve_a + amount;
        } else {
            self.lp.virtual_reserve_b = self.lp.virtual_reserve_b + amount;
        }
        Ok(())
    }

    /// Virtual transfer of tokens from the pool to the trader. The trader's position is
    /// credited before the reserve is checked, so a refusal for want of reserve comes
    /// after that credit.
    pub fn withdraw_tokens(&mut self, is_x: bool, amount: u64) -> (r: Result<(), ErrorCode>)
        requires
            increase_fits(old(self).user_account.positions@, old(self).mint_of(is_x), amount),
        ensures
            match spec_increase(old(self).user_account.positions@, old(self).mint_of(is_x), amount) {
                Ok(s) => {
                    &&& final(self).user_account.positions@ == s
                    &&& if reserve_of(old(self).lp, is_x) >= amount {
                        &&& r is Ok
                        &&& final(self).lp == with_reserve(old(self).lp, is_x, (reserve_of(old(self).lp, is_x) - amount) as u64)
                    } else {
                        &&& r == Err::<(), ErrorCode>(ErrorCode::InsufficientPoolBalance)
                        &&& final(self).lp == old(self).lp
                    }
                    &&& final(self).config == old(self).config
                    &&& final(self).mint_a == old(self).mint_a
                    &&& final(self).mint_b == old(self).mint_b
                    &&& final(self).user_account.bump == old(self).user_account.bump
                    &&& final(self).user_account.authority == old(self).user_account.authority
                },
                Err(e) => r == Err::<(), ErrorCode>(e) && *final(self) == *old(self),
            },
    {
        let mint = if is_x {
            self.mint_a
        } else {
            self.mint_b
        };
        let ghost before = *self;
        match increase_position(&mut self.user_account.positions, mint, amount) {
            Ok(()) => {},
            Err(e) => {
                assert(self.user_account.positions =~= before.user_account.positions);
                return Err(e);
            },
        }
        if is_x {
            if self.lp.virtual_reserve_a < amount {
                return Err(ErrorCode::InsufficientPoolBalance);
            }
            self.lp.virtual_reserve_a = self.lp.virtual_reserve_a - amount;
        } else {
            if self.lp.virtual_reserve_b < amount {
                return Err(ErrorCode::InsufficientPoolBalance);
            }
            self.lp.virtual_reserve_b = self.lp.virtual_reserve_b - amount;
        }
        Ok(())
    }
}

/// A swap on a pool with two distinct mints, neither of them the free marker, over a
/// well-formed account succeeds exactly when the pool takes swaps, the trader holds at least
/// `deposit` of the side paid in, a slot can take the side paid out, and the pool's other
/// reserve covers `withdraw`. It then moves `deposit` from the trader's balance into the
/// pool's reserve of that side and `withdraw` from the other reserve into the trader's
/// balance: for each of the two mints the trader's balance plus the pool's reserve is kept.
/// No other balance, the LP supply, the status and the fee change, and the account stays
/// well formed.
pub proof fn law_swap_conserves(t: Swap, is_x: bool, deposit: u64, withdraw: u64)
    requires
        positions_wf(t.user_account.positions@),
        t.mint_a != t.mint_b,
        t.mint_a != Pubkey::empty(),
        t.mint_b != Pubkey::empty(),
        t.swap_fits(is_x, deposit, withdraw),
    ensures
        t.swap_outcome(is_x, deposit, withdraw) is Ok <==> {
            let s0 = t.user_account.positions@;
            &&& !t.config.paused
            &&& t.lp.status == LiquidityPoolStatus::Active
            &&& t.lp.lp_supply != 0
            &&& holds(s0, t.mint_of(is_x))
            &&& balance(s0, t.mint_of(is_x)) >= deposit
            &&& (holds(s0, t.mint_of(!is_x)) || holds(s0, Pubkey::empty()) || balance(s0, t.mint_of(is_x))
                == deposit)
            &&& reserve_of(t.lp, !is_x) >= withdraw
        },
        t.swap_outcome(is_x, deposit, withdraw) matches Ok((s, pool)) ==> {
            let s0 = t.user_account.positions@;
            let pay = t.mint_of(is_x);
            let get = t.mint_of(!is_x);
            &&& positions_wf(s)
            &&& balance(s, pay) == balance(s0, pay) - deposit
            &&& balance(s, get) == balance(s0, get) + withdraw
            &&& reserve_of(pool, is_x) == reserve_of(t.lp, is_x) + deposit
            &&& reserve_of(pool, !is_x) == reserve_of(t.lp, !is_x) - withdraw
            &&& balance(s, pay) + reserve_of(pool, is_x) == balance(s0, pay) + reserve_of(t.lp, is_x)
            &&& balance(s, get) + reserve_of(pool, !is_x) == balance(s0, get) + reserve_of(t.lp, !is_x)
            &&& forall|k: Pubkey| k != t.mint_a && k != t.mint_b ==> balance(s, k) == balance(s0, k)
            &&& pool.lp_supply == t.lp.lp_supply
            &&& pool.status == t.lp.status
            &&& pool.pool_fee_bps == t.lp.pool_fee_bps
            &&& pool.mint_a == t.lp.mint_a && pool.mint_b == t.lp.mint_b && pool.lp_mint == t.lp.lp_mint
        },
{
    let s0 = t.user_account.positions@;
    let pay = t.mint_of(is_x);
    let get = t.mint_of(!is_x);
    law_decrease_balances(s0, pay, deposit);
    lemma_decrease_holds(s0, pay, deposit);
    if t.pool_outcome() is Ok {
        if let Ok(s1) = spec_decrease(s0, pay, deposit) {
            law_increase_balances(s1, get, withdraw);
        }
    }
}

/// A pool takes swaps exactly when the protocol is not paused, the pool is active and its LP
/// supply is not zero; nothing else, such as the pool's fee or the configuration's default
/// fee, bears on it. Each refusal comes with its own error, checked in that order.
pub proof fn law_swap_pool_check(t: Swap)
    ensures
        t.pool_outcome() is Ok <==> (!t.config.paused && t.lp.status == LiquidityPoolStatus::Active
            && t.lp.lp_supply != 0),
        t.pool_outcome() == Err::<(), ErrorCode>(ErrorCode::Paused) <==> t.config.paused,
        t.pool_outcome() == Err::<(), ErrorCode>(ErrorCode::PoolNotActive) <==> (!t.config.paused
            && t.lp.status != LiquidityPoolStatus::Active),
        t.pool_outcome() == Err::<(), ErrorCode>(ErrorCode::NoLiquidityInPool) <==> (!t.config.paused
            && t.lp.status == LiquidityPoolStatus::Active && t.lp.lp_supply == 0),
        forall|fee: u16, default_fee: u16|
            (Swap {
                lp: LiquidityPool { pool_fee_bps: fee, ..t.lp },
                config: Config { default_pool_fee_bps: default_fee, ..t.config },
                ..t
            }).pool_outcome() == t.pool_outcome(),
{
}

/// Whether a swap succeeds does not depend on the pool's fee or on the configuration's
/// default fee.
pub proof fn law_swap_ignores_fees(t: Swap, is_x: bool, deposit: u64, withdraw: u64, fee: u16, default_fee: u16)
    ensures
        (Swap {
            lp: LiquidityPool { pool_fee_bps: fee, ..t.lp },
            config: Config { default_pool_fee_bps: default_fee, ..t.config },
            ..t
        }).swap_outcome(is_x, deposit, withdraw) is Ok == t.swap_outcome(is_x, deposit, withdraw) is Ok,
{
}

} // verus!
