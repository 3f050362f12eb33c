use vstd::prelude::*;
use crate::errors::ErrorCode;
use crate::pubkey::Pubkey;
use crate::state::{Config, LiquidityPool, Position, User};
use crate::utils::{
    balance, decrease_position, holds, increase_fits, increase_no_overflow, increase_position, law_decrease_balances,
    law_increase_balances, positions_wf, spec_decrease, spec_increase,
};
use crate::instructions::swap::{reserve_of, with_reserve};

verus! {

/// What a removal of liquidity reads and writes: the provider's account, the pool,
/// the configuration, the pool's two mints and its LP mint.
#[derive(Clone, Copy, Debug)]
pub struct RemoveLiquidity {
    pub user_account: User,
    pub lp: LiquidityPool,
    pub config: Config,
    pub mint_a: Pubkey,
    pub mint_b: Pubkey,
    pub mint_lp: Pubkey,
}

impl RemoveLiquidity {
    /// The mint of side x (`is_x`) or side y.
    pub open spec fn mint_of(self, is_x: bool) -> Pubkey {
        if is_x {
            self.mint_a
        } else {
            self.mint_b
        }
    }

    /// Whether liquidity can be taken out: the protocol is not paused and the pool holds some.
    pub open spec fn pool_outcome(self) -> Result<(), ErrorCode> {
        if self.config.paused {
            Err(ErrorCode::Paused)
        } else if self.lp.lp_supply == 0 {
            Err(ErrorCode::NoLiquidityInPool)
        } else {
            Ok(())
        }
    }

    /// The checks a removal makes before the curve is asked for its amounts.
    pub fn check_pool(&self) -> (r: Result<(), ErrorCode>)
        ensures
            r == self.pool_outcome(),
    {
        if self.config.paused {
            return Err(ErrorCode::Paused);
        }
        if self.lp.lp_supply == 0 {
            return Err(ErrorCode::NoLiquidityInPool);
        }
        Ok(())
    }

    /// The amounts `(x, y)` that the curve gave for the LP tokens burned, refused when
    /// the pool holds no liquidity or when either falls short of its minimum.
    pub fn remove_liquidity_amounts_xy(&self, x: u64, y: u64, min_x: u64, min_y: u64) -> (r: Result<(u64, u64), ErrorCode>)
        ensures
            self.lp.lp_supply == 0 ==> r == Err::<(u64, u64), ErrorCode>(ErrorCode::NoLiquidityInPool),
            self.lp.lp_supply != 0 && (x < min_x || y < min_y) ==> r == Err::<(u64, u64), ErrorCode>(ErrorCode::SlippageExceeded),
            self.lp.lp_supply != 0 && x >= min_x && y >= min_y ==> r == Ok::<(u64, u64), ErrorCode>((x, y)),
    {
        if self.lp.lp_supply == 0 {
            return Err(ErrorCode::NoLiquidityInPool);
        }
        if !(x >= min_x && y >= min_y) {
            return Err(ErrorCode::SlippageExceeded);
        }
        Ok((x, y))
    }

    /// The provider's positions and the pool after burning `amount` LP tokens for `x` of
    /// side x and `y` of side y, or the error that refuses it.
    pub open spec fn removal_outcome(self, amount: u64, min_x: u64, min_y: u64, x: u64, y: u64) -> Result<
        (Seq<Position>, LiquidityPool),
        ErrorCode,
    > {
        if self.config.paused {
            Err(ErrorCode::Paused)
        } else if self.lp.lp_supply == 0 {
            Err(ErrorCode::NoLiquidityInPool)
        } else if x < min_x || y < min_y {
            Err(ErrorCode::SlippageExceeded)
        } else {
            match spec_increase(self.user_account.positions@, self.mint_a, x) {
                Err(e) => Err(e),
                Ok(s1) => if self.lp.virtual_reserve_a < x {
                    Err(ErrorCode::InsufficientPoolBalance)
                } else {
                    match spec_increase(s1, self.mint_b, y) {
                        Err(e) => Err(e),
                        Ok(s2) => if self.lp.virtual_reserve_b < y {
                            Err(ErrorCode::InsufficientPoolBalance)
                        } else {
                            match spec_decrease(s2, self.mint_lp, amount) {
                                Err(e) => Err(e),
                                Ok(s3) => if self.lp.lp_supply < amount {
                                    Err(ErrorCode::InsufficientPoolBalance)
                                } else {
                                    Ok(
                                        (
                                            s3,
                                            LiquidityPool {
                                                virtual_reserve_a: (self.lp.virtual_reserve_a - x) as u64,
                                                virtual_reserve_b: (self.lp.virtual_reserve_b - y) as u64,
                                                lp_supply: (self.lp.lp_supply - amount) as u64,
                                                ..self.lp
                                            },
                                        ),
                                    )
                                },
                            }
                        },
                    }
                },
            }
        }
    }

    /// No credit in a removal overflows once the checks before it have passed.
    pub open spec fn removal_fits(self, min_x: u64, min_y: u64, x: u64, y: u64) -> bool {
        !self.config.paused && self.lp.lp_supply != 0 && x >= min_x && y >= min_y ==> {
            &&& increase_fits(self.user_account.positions@, self.mint_a, x)
            &&& spec_increase(self.user_account.positions@, self.mint_a, x) matches Ok(s1) ==> increase_fits(
                s1,
                self.mint_b,
                y,
            )
        }
    }

    /// Whether the removal stays within range, so that `remove_liquidity` may be called.
    pub fn no_overflow(&self, min_x: u64, min_y: u64, x: u64, y: u64) -> (r: bool)
        ensures
            r == self.removal_fits(min_x, min_y, x, y),
    {
        if self.config.paused || self.lp.lp_supply == 0 || x < min_x || y < min_y {
            return true;
        }
        if !increase_no_overflow(&self.user_account.positions, self.mint_a, x) {
            return false;
        }
        let mut positions = self.user_account.positions;
        match increase_position(&mut positions, self.mint_a, x) {
            Ok(()) => increase_no_overflow(&positions, self.mint_b, y),
            Err(_) => true,
        }
    }

    /// Burns `amount` of the provider's LP tokens and credits the provider with `x` of
    /// side x and `y` of side y out of the pool's reserves, the two amounts being those the
    /// constant-product curve gave for the burn. A refused removal changes nothing.
    pub fn remove_liquidity(&mut self, amount: u64, min_x: u64, min_y: u64, x: u64, y: u64) -> (r: Result<(), ErrorCode>)
        requires
            old(self).removal_fits(min_x, min_y, x, y),
        ensures
            old(self).config.paused ==> r == Err::<(), ErrorCode>(ErrorCode::Paused),
            match old(self).removal_outcome(amount, min_x, min_y, x, y) {
                Ok((s, pool)) => {
                    &&& r is Ok
                    &&& final(self).user_account.positions@ == s
                    &&& final(self).lp == pool
                    &&& final(self).config == old(self).config
                    &&& final(self).mint_a == old(self).mint_a
                    &&& final(self).mint_b == old(self).mint_b
                    &&& final(self).mint_lp == old(self).mint_lp
                    &&& final(self).user_account.bump == old(self).user_account.bump
                    &&& final(self).user_account.authority == old(self).user_account.authority
                },
                Err(e) => r == Err::<(), ErrorCode>(e) && *final(self) == *old(self),
            },
            r == Err::<(), ErrorCode>(ErrorCode::SlippageExceeded) <==> (!old(self).config.paused
                && old(self).lp.lp_supply != 0 && (x < min_x || y < min_y)),
    {
        proof {
            law_remove_liquidity_refusals(*old(self), amount, min_x, min_y, x, y);
        }
        if self.config.paused {
            return Err(ErrorCode::Paused);
        }
        let (x, y) = self.remove_liquidity_amounts_xy(x, y, min_x, min_y)?;
        let mut next = *self;
        next.withdraw_tokens(true, x)?;
        next.withdraw_tokens(false, y)?;
        next.burn_lp_tokens(amount)?;
        *self = next;
        Ok(())
    }

    /// Virtual transfer of tokens from the pool to the provider. The provider's position is
    /// credited before the reserve is checked, so a refusal for want of reserve comes
    /// after that credit.
    pub fn withdraw_tokens(&mut self, is_x: bool, amount: u64) -> (r: Result<(), ErrorCode>)
        requires
            increase_fits(old(self).user_account.positions@, old(self).mint_of(is_x), amount),
        ensures
            match spec_increase(old(self).user_account.positions@, old(self).mint_of(is_x), amount) {
                Ok(s) => {
                    &&& final(self).user_account.positions@ == s
                    &&& if reserve_of(old(self).lp, is_x) >= amount {
                        &&& r is Ok
                        &&& final(self).lp == with_reserve(old(self).lp, is_x, (reserve_of(old(self).lp, is_x) - amount) as u64)
                    } else {
                        &&& r == Err::<(), ErrorCode>(ErrorCode::InsufficientPoolBalance)
                        &&& final(self).lp == old(self).lp
                    }
                    &&& final(self).config == old(self).config
                    &&& final(self).mint_a == old(self).mint_a
                    &&& final(self).mint_b == old(self).mint_b
                    &&& final(self).mint_lp == old(self).mint_lp
                    &&& final(self).user_account.bump == old(self).user_account.bump
                    &&& final(self).user_account.authority == old(self).user_account.authority
                },
                Err(e) => r == Err::<(), ErrorCode>(e) && *final(self) == *old(self),
            },
    {
        let mint = if is_x {
            self.mint_a
        } else {
            self.mint_b
        };
        let ghost before = *self;
        match increase_position(&mut self.user_account.positions, mint, amount) {
            Ok(()) => {},
            Err(e) => {
                assert(self.user_account.positions =~= before.user_account.positions);
                return Err(e);
            },
        }
        if is_x {
            if self.lp.virtual_reserve_a < amount {
                return Err(ErrorCode::InsufficientPoolBalance);
            }
            self.lp.virtual_reserve_a = self.lp.virtual_reserve_a - amount;
        } else {
            if self.lp.virtual_reserve_b < amount {
                return Err(ErrorCode::InsufficientPoolBalance);
            }
            self.lp.virtual_reserve_b = self.lp.virtual_reserve_b - amount;
        }
        Ok(())
    }

    /// Virtual burning of LP tokens from the provider. The provider's LP position is
    /// debited before the supply is checked, so a refusal for want of supply comes after
    /// that debit.
    pub fn burn_lp_tokens(&mut self, amount: u64) -> (r: Result<(), ErrorCode>)
        ensures
            match spec_decrease(old(self).user_account.positions@, old(self).mint_lp, amount) {
                Ok(s) => {
                    &&& final(self).user_account.positions@ == s
                    &&& if old(self).lp.lp_supply >= amount {
                        &&& r is Ok
                        &&& final(self).lp == LiquidityPool { lp_supply: (old(self).lp.lp_supply - amount) as u64, ..old(self).lp }
                    } else {
                        &&& r == Err::<(), ErrorCode>(ErrorCode::InsufficientPoolBalance)
                        &&& final(self).lp == old(self).lp
                    }
                    &&& final(self).config == old(self).config
                    &&& final(self).mint_a == old(self).mint_a
                    &&& final(self).mint_b == old(self).mint_b
                    &&& final(self).mint_lp == old(self).mint_lp
                    &&& final(self).user_account.bump == old(self).user_account.bump
                    &&& final(self).user_account.authority == old(self).user_account.authority
                },
                Err(e) => r == Err::<(), ErrorCode>(e) && *final(self) == *old(self),
            },
    {
        let mint_lp = self.mint_lp;
        let ghost before = *self;
        match decrease_position(&mut self.user_account.positions, mint_lp, amount) {
            Ok(()) => {},
            Err(e) => {
                assert(self.user_account.positions =~= before.user_account.positions);
                return Err(e);
            },
        }
        if self.lp.lp_supply < amount {
            return Err(ErrorCode::InsufficientPoolBalance);
        }
        self.lp.lp_supply = self.lp.lp_supply - amount;
        Ok(())
    }
}

/// A removal on a pool whose two mints and LP mint are distinct and none of them the free
/// marker, over a well-formed account, keeps for each side the provider's balance plus the
/// pool's reserve, lowers the provider's LP balance and the pool's LP supply by the amount
/// burned, leaves every other balance, the status and the fee as they were, and keeps the
/// account well formed.
pub proof fn law_remove_liquidity_conserves(t: RemoveLiquidity, amount: u64, min_x: u64, min_y: u64, x: u64, y: u64)
    requires
        positions_wf(t.user_account.positions@),
        t.mint_a != t.mint_b,
        t.mint_a != t.mint_lp,
        t.mint_b != t.mint_lp,
        t.mint_a != Pubkey::empty(),
        t.mint_b != Pubkey::empty(),
        t.mint_lp != Pubkey::empty(),
        t.removal_fits(min_x, min_y, x, y),
    ensures
        t.removal_outcome(amount, min_x, min_y, x, y) matches Ok((s, pool)) ==> {
            let s0 = t.user_account.positions@;
            &&& positions_wf(s)
            &&& balance(s, t.mint_a) == balance(s0, t.mint_a) + x
            &&& balance(s, t.mint_b) == balance(s0, t.mint_b) + y
            &&& balance(s, t.mint_lp) == balance(s0, t.mint_lp) - amount
            &&& balance(s, t.mint_a) + pool.virtual_reserve_a == balance(s0, t.mint_a) + t.lp.virtual_reserve_a
            &&& balance(s, t.mint_b) + pool.virtual_reserve_b == balance(s0, t.mint_b) + t.lp.virtual_reserve_b
            &&& pool.lp_supply == t.lp.lp_supply - amount
            &&& forall|k: Pubkey|
                k != t.mint_a && k != t.mint_b && k != t.mint_lp ==> balance(s, k) == balance(s0, k)
            &&& pool.status == t.lp.status
            &&& pool.pool_fee_bps == t.lp.pool_fee_bps
        },
{
    let s0 = t.user_account.positions@;
    if t.removal_outcome(amount, min_x, min_y, x, y) is Ok {
        law_increase_balances(s0, t.mint_a, x);
        let s1 = spec_increase(s0, t.mint_a, x)->Ok_0;
        law_increase_balances(s1, t.mint_b, y);
        let s2 = spec_increase(s1, t.mint_b, y)->Ok_0;
        law_decrease_balances(s2, t.mint_lp, amount);
    }
}

/// A removal is refused for slippage exactly when, on an unpaused pool holding liquidity,
/// the amount of side x falls short of `min_x` or that of side y falls short of `min_y`;
/// refusals for a paused protocol and an empty pool come first.
pub proof fn law_remove_liquidity_refusals(t: RemoveLiquidity, amount: u64, min_x: u64, min_y: u64, x: u64, y: u64)
    ensures
        t.removal_outcome(amount, min_x, min_y, x, y) == Err::<(Seq<Position>, LiquidityPool), ErrorCode>(
            ErrorCode::Paused,
        ) <==> t.config.paused,
        t.removal_outcome(amount, min_x, min_y, x, y) == Err::<(Seq<Position>, LiquidityPool), ErrorCode>(
            ErrorCode::NoLiquidityInPool,
        ) <==> (!t.config.paused && t.lp.lp_supply == 0),
        t.removal_outcome(amount, min_x, min_y, x, y) == Err::<(Seq<Position>, LiquidityPool), ErrorCode>(
            ErrorCode::SlippageExceeded,
        ) <==> (!t.config.paused && t.lp.lp_supply != 0 && (x < min_x || y < min_y)),
{
}

/// On an unpaused pool holding liquidity, a removal whose amounts meet both minimums, whose
/// provider already holds both sides and at least `amount` LP tokens, and whose pool's
/// reserves and supply cover it, succeeds.
pub proof fn law_remove_liquidity_succeeds(t: RemoveLiquidity, amount: u64, min_x: u64, min_y: u64, x: u64, y: u64)
    requires
        positions_wf(t.user_account.positions@),
        t.mint_a != t.mint_b,
        t.mint_a != t.mint_lp,
        t.mint_b != t.mint_lp,
        t.mint_a != Pubkey::empty(),
        t.mint_b != Pubkey::empty(),
        t.mint_lp != Pubkey::empty(),
        t.removal_fits(min_x, min_y, x, y),
        !t.config.paused,
        t.lp.lp_supply != 0,
        x >= min_x,
        y >= min_y,
        holds(t.user_account.positions@, t.mint_a),
        holds(t.user_account.positions@, t.mint_b),
        holds(t.user_account.positions@, t.mint_lp),
        balance(t.user_account.positions@, t.mint_lp) >= amount,
        t.lp.virtual_reserve_a >= x,
        t.lp.virtual_reserve_b >= y,
        t.lp.lp_supply >= amount,
    ensures
        t.removal_outcome(amount, min_x, min_y, x, y) is Ok,
{
    let s0 = t.user_account.positions@;
    law_increase_balances(s0, t.mint_a, x);
    let s1 = spec_increase(s0, t.mint_a, x)->Ok_0;
    assert(holds(s1, t.mint_b));
    assert(holds(s1, t.mint_lp));
    law_increase_balances(s1, t.mint_b, y);
    let s2 = spec_increase(s1, t.mint_b, y)->Ok_0;
    assert(holds(s2, t.mint_lp));
    law_decrease_balances(s2, t.mint_lp, amount);
}

} // verus!
