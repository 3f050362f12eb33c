use private_dex::constants::{admin, MAX_POSITIONS};
use private_dex::errors::ErrorCode;
use private_dex::instructions::create_lp::{CreateLp, CreateLpBumps};
use private_dex::instructions::create_user::{CreateUser, CreateUserBumps};
use private_dex::instructions::deposit::Deposit;
use private_dex::instructions::init::{Initialize, InitializeBumps};
use private_dex::instructions::remove_liquidity::RemoveLiquidity;
use private_dex::instructions::swap::Swap;
use private_dex::instructions::transfer::Transfer;
use private_dex::instructions::update_config::UpdateConfig;
use private_dex::instructions::withdraw::Withdraw;
use private_dex::pubkey::Pubkey;
use private_dex::state::{Config, LiquidityPool, LiquidityPoolStatus, Position, User};
use private_dex::utils::{decrease_position, get_position, get_position_index, increase_position};

fn key(n: u8) -> Pubkey {
    Pubkey { bytes: [n; 32] }
}

fn config(paused: bool) -> Config {
    Config {
        bump: 1,
        paused,
        admin: key(99),
        delegate_program: key(98),
        er_validator: key(97),
        permission_program: key(96),
        default_pool_fee_bps: 100,
    }
}

fn free() -> [Position; MAX_POSITIONS] {
    [Position::default(); MAX_POSITIONS]
}

fn user_with(entries: &[(u8, u64)]) -> User {
    let mut positions = free();
    for (i, (m, a)) in entries.iter().enumerate() {
        positions[i] = Position { mint: key(*m), amount: *a };
    }
    User { bump: 1, authority: key(1), positions }
}

fn balance(user: &User, mint: Pubkey) -> u64 {
    user.positions.iter().filter(|p| p.mint.key_eq(&mint)).map(|p| p.amount).sum()
}

fn pool(reserve_a: u64, reserve_b: u64, supply: u64, status: LiquidityPoolStatus) -> LiquidityPool {
    LiquidityPool {
        bump: 1,
        mint_lp_bump: 1,
        status,
        authority: key(99),
        mint_a: key(10),
        mint_b: key(11),
        vault_a: key(20),
        vault_b: key(21),
        virtual_reserve_a: reserve_a,
        virtual_reserve_b: reserve_b,
        lp_mint: key(12),
        lp_supply: supply,
        pool_fee_bps: 100,
    }
}

fn same_positions(a: &User, b: &User) -> bool {
    a.positions.iter().zip(b.positions.iter()).all(|(p, q)| p.mint.key_eq(&q.mint) && p.amount == q.amount)
}

#[test]
fn key_equality_and_default() {
    assert!(key(3).key_eq(&key(3)));
    assert!(!key(3).key_eq(&key(4)));
    let mut bytes = [7u8; 32];
    bytes[31] = 8;
    assert!(!key(7).key_eq(&Pubkey::new_from_array(bytes)));
    assert!(Pubkey::default().is_none());
    assert!(!key(1).is_none());
    assert_eq!(Pubkey::new_from_array(bytes).to_bytes(), bytes);
}

#[test]
fn admin_address_bytes() {
    assert_eq!(admin().to_bytes()[0], 35);
    assert_eq!(admin().to_bytes()[31], 237);
}

#[test]
fn index_prefers_existing_position_over_free_slot() {
    let u = user_with(&[(5, 1), (0, 0), (6, 2)]);
    assert_eq!(get_position_index(&u.positions, key(6)), Ok(2));
    assert_eq!(get_position_index(&u.positions, key(7)), Ok(1));
}

#[test]
fn index_refused_when_full() {
    let entries: Vec<(u8, u64)> = (1..=MAX_POSITIONS as u8).map(|m| (m, 1)).collect();
    let u = user_with(&entries);
    assert_eq!(get_position_index(&u.positions, key(200)), Err(ErrorCode::MaxPositionsReached));
    assert_eq!(get_position_index(&u.positions, key(3)), Ok(2));
}

#[test]
fn get_position_hands_out_the_slot() {
    let mut u = user_with(&[(5, 1)]);
    {
        let p = get_position(&mut u.positions, key(5)).unwrap();
        p.amount = 40;
    }
    assert_eq!(u.positions[0].amount, 40);
    let entries: Vec<(u8, u64)> = (1..=MAX_POSITIONS as u8).map(|m| (m, 1)).collect();
    let mut full = user_with(&entries);
    assert!(matches!(get_position(&mut full.positions, key(200)), Err(ErrorCode::MaxPositionsReached)));
}

#[test]
fn decrease_to_zero_frees_the_slot() {
    let mut u = user_with(&[(5, 10)]);
    decrease_position(&mut u.positions, key(5), 10).unwrap();
    assert!(u.positions[0].mint.is_none());
    assert_eq!(u.positions[0].amount, 0);
}

#[test]
fn decrease_errors() {
    let mut u = user_with(&[(5, 10)]);
    assert_eq!(decrease_position(&mut u.positions, key(5), 11), Err(ErrorCode::InsufficientBalance));
    assert_eq!(decrease_position(&mut u.positions, key(6), 1), Err(ErrorCode::PositionNotFound));
    assert_eq!(u.positions[0].amount, 10);
    let entries: Vec<(u8, u64)> = (1..=MAX_POSITIONS as u8).map(|m| (m, 1)).collect();
    let mut full = user_with(&entries);
    assert_eq!(decrease_position(&mut full.positions, key(200), 1), Err(ErrorCode::MaxPositionsReached));
}

#[test]
fn increase_creates_then_accumulates() {
    let mut u = user_with(&[(5, 10)]);
    increase_position(&mut u.positions, key(6), 3).unwrap();
    increase_position(&mut u.positions, key(6), 4).unwrap();
    assert!(u.positions[1].mint.key_eq(&key(6)));
    assert_eq!(u.positions[1].amount, 7);
    let entries: Vec<(u8, u64)> = (1..=MAX_POSITIONS as u8).map(|m| (m, 1)).collect();
    let mut full = user_with(&entries);
    assert_eq!(increase_position(&mut full.positions, key(200), 1), Err(ErrorCode::MaxPositionsReached));
}

#[test]
fn withdraw_keeps_the_slot_at_zero() {
    let mut ix = Withdraw { sender: key(1), user: user_with(&[(5, 10)]), config: config(false), mint: key(5) };
    ix.withdraw(10).unwrap();
    assert!(ix.user.positions[0].mint.key_eq(&key(5)));
    assert_eq!(ix.user.positions[0].amount, 0);
}

#[test]
fn withdraw_errors() {
    let mut ix = Withdraw { sender: key(1), user: user_with(&[(5, 10)]), config: config(false), mint: key(5) };
    assert_eq!(ix.withdraw(11), Err(ErrorCode::InsufficientBalance));
    ix.mint = key(6);
    assert_eq!(ix.withdraw(1), Err(ErrorCode::PositionNotFound));
    ix.config.paused = true;
    assert_eq!(ix.withdraw(1), Err(ErrorCode::Paused));
}

#[test]
fn deposit_then_withdraw_restores_balances() {
    let before = user_with(&[(5, 10), (6, 20)]);
    let mut d = Deposit { sender: key(1), user: before, config: config(false), mint: key(7) };
    d.deposit(33).unwrap();
    let mut w = Withdraw { sender: key(1), user: d.user, config: config(false), mint: key(7) };
    w.withdraw(33).unwrap();
    for m in [5u8, 6, 7] {
        assert_eq!(balance(&w.user, key(m)), balance(&before, key(m)));
    }
}

#[test]
fn paused_refuses_and_changes_nothing() {
    let mut d = Deposit { sender: key(1), user: user_with(&[(5, 10)]), config: config(true), mint: key(5) };
    assert_eq!(d.deposit(1), Err(ErrorCode::Paused));
    assert_eq!(d.user.positions[0].amount, 10);
    let mut c = CreateUser { sender: key(1), user: user_with(&[(5, 10)]), config: config(true) };
    assert_eq!(c.create_user(&CreateUserBumps { user: 3 }), Err(ErrorCode::Paused));
    assert_eq!(c.user.positions[0].amount, 10);
    let mut l = CreateLp {
        sender: key(1),
        lp: pool(1, 2, 3, LiquidityPoolStatus::Active),
        config: config(true),
        mint_a: key(10),
        mint_b: key(11),
        mint_lp: key(12),
        vault_a: key(20),
        vault_b: key(21),
        vault_lp: key(22),
    };
    assert_eq!(l.create_lp(&CreateLpBumps { lp: 1, mint_lp: 2 }), Err(ErrorCode::Paused));
    assert_eq!(l.lp.virtual_reserve_a, 1);
}

#[test]
fn only_admin_initializes_and_updates() {
    let mut ix = Initialize {
        sender: key(1),
        config: config(true),
        delegate_program: key(2),
        er_validator: key(3),
        permission_program: key(4),
    };
    assert_eq!(ix.initialize(&InitializeBumps { config: 9 }), Err(ErrorCode::NotAdmin));
    assert!(ix.config.paused);
    let mut up = UpdateConfig { sender: key(1), config: config(false), er_validator: Some(key(50)) };
    assert_eq!(up.update_config(Some(true), Some(7)), Err(ErrorCode::NotAdmin));
    assert!(!up.config.paused);
    up.sender = key(99);
    up.update_config(None, Some(7)).unwrap();
    assert!(!up.config.paused);
    assert_eq!(up.config.default_pool_fee_bps, 7);
    assert!(up.config.er_validator.key_eq(&key(50)));
}

#[test]
fn transfer_conserves_and_refuses_atomically() {
    let mut ix = Transfer {
        user_account: user_with(&[(5, 100)]),
        config: config(false),
        destination_user_account: user_with(&[(6, 1)]),
        mint: key(5),
    };
    ix.transfer(40).unwrap();
    assert_eq!(balance(&ix.user_account, key(5)) + balance(&ix.destination_user_account, key(5)), 100);
    assert_eq!(balance(&ix.destination_user_account, key(5)), 40);
    assert_eq!(balance(&ix.destination_user_account, key(6)), 1);
    // the whole balance leaves the sender's slot free
    ix.transfer(60).unwrap();
    assert!(ix.user_account.positions[0].mint.is_none());

    let entries: Vec<(u8, u64)> = (1..=MAX_POSITIONS as u8).map(|m| (m + 100, 1)).collect();
    let mut full = Transfer {
        user_account: user_with(&[(5, 100)]),
        config: config(false),
        destination_user_account: user_with(&entries),
        mint: key(5),
    };
    let before = full;
    assert_eq!(full.transfer(10), Err(ErrorCode::MaxPositionsReached));
    assert!(same_positions(&full.user_account, &before.user_account));
    assert_eq!(full.transfer(1000), Err(ErrorCode::InsufficientBalance));
}

#[test]
fn swap_conserves_each_side() {
    let mut ix = Swap {
        user_account: user_with(&[(10, 1_000), (11, 50)]),
        lp: pool(10_000, 20_000, 5_000, LiquidityPoolStatus::Active),
        config: config(false),
        mint_a: key(10),
        mint_b: key(11),
    };
    ix.swap(false, 50, 24).unwrap();
    assert_eq!(balance(&ix.user_account, key(11)) + ix.lp.virtual_reserve_b, 20_050);
    assert_eq!(balance(&ix.user_account, key(10)) + ix.lp.virtual_reserve_a, 11_000);
    assert_eq!(ix.lp.virtual_reserve_a, 9_976);
    assert!(ix.user_account.positions[1].mint.is_none());
    assert_eq!(ix.lp.lp_supply, 5_000);
}

#[test]
fn swap_errors() {
    let base = Swap {
        user_account: user_with(&[(10, 1_000)]),
        lp: pool(10_000, 20_000, 5_000, LiquidityPoolStatus::Active),
        config: config(false),
        mint_a: key(10),
        mint_b: key(11),
    };
    let mut s = base;
    s.lp.status = LiquidityPoolStatus::Paused;
    assert_eq!(s.swap(true, 1, 1), Err(ErrorCode::PoolNotActive));
    let mut s = base;
    s.lp.lp_supply = 0;
    assert_eq!(s.check_pool(), Err(ErrorCode::NoLiquidityInPool));
    let mut s = base;
    s.config.paused = true;
    assert_eq!(s.swap(true, 1, 1), Err(ErrorCode::Paused));
    let mut s = base;
    assert_eq!(s.swap(true, 1, 30_000), Err(ErrorCode::InsufficientPoolBalance));
    assert!(same_positions(&s.user_account, &base.user_account));
    assert_eq!(s.lp.virtual_reserve_a, 10_000);
    let mut s = base;
    assert_eq!(s.swap(true, 2_000, 1), Err(ErrorCode::InsufficientBalance));
}

#[test]
fn swap_step_functions() {
    let mut s = Swap {
        user_account: user_with(&[(10, 1_000)]),
        lp: pool(10_000, 20_000, 5_000, LiquidityPoolStatus::Active),
        config: config(false),
        mint_a: key(10),
        mint_b: key(11),
    };
    s.deposit_tokens(true, 100).unwrap();
    assert_eq!(s.lp.virtual_reserve_a, 10_100);
    assert_eq!(s.user_account.positions[0].amount, 900);
    // the credit comes before the reserve check
    assert_eq!(s.withdraw_tokens(false, 30_000), Err(ErrorCode::InsufficientPoolBalance));
    assert_eq!(balance(&s.user_account, key(11)), 30_000);
    assert_eq!(s.lp.virtual_reserve_b, 20_000);
}

#[test]
fn remove_liquidity_errors_and_burn() {
    let base = RemoveLiquidity {
        user_account: user_with(&[(12, 500)]),
        lp: pool(10_000, 20_000, 1_000, LiquidityPoolStatus::Active),
        config: config(false),
        mint_a: key(10),
        mint_b: key(11),
        mint_lp: key(12),
    };
    assert_eq!(base.remove_liquidity_amounts_xy(5, 10, 6, 0), Err(ErrorCode::SlippageExceeded));
    assert_eq!(base.remove_liquidity_amounts_xy(5, 10, 5, 10), Ok((5, 10)));
    let mut r = base;
    assert_eq!(r.remove_liquidity(100, 0, 0, 1_000, 2_000), Ok(()));
    assert_eq!(balance(&r.user_account, key(10)) + r.lp.virtual_reserve_a, 10_000);
    assert_eq!(balance(&r.user_account, key(11)) + r.lp.virtual_reserve_b, 20_000);
    assert_eq!(balance(&r.user_account, key(12)), 400);
    assert_eq!(r.lp.lp_supply, 900);
    let mut r = base;
    assert_eq!(r.remove_liquidity(600, 0, 0, 1, 1), Err(ErrorCode::InsufficientBalance));
    assert!(same_positions(&r.user_account, &base.user_account));
    let mut r = base;
    r.lp.lp_supply = 0;
    assert_eq!(r.remove_liquidity(1, 0, 0, 1, 1), Err(ErrorCode::NoLiquidityInPool));
    let mut r = base;
    assert_eq!(r.remove_liquidity(1, 0, 0, 1, 30_000), Err(ErrorCode::InsufficientPoolBalance));
    let mut r = base;
    r.lp.lp_supply = 100;
    assert_eq!(r.burn_lp_tokens(200), Err(ErrorCode::InsufficientPoolBalance));
    assert_eq!(balance(&r.user_account, key(12)), 300);
}

#[test]
fn error_messages() {
    assert_eq!(ErrorCode::NotAdmin.msg(), "Not Admin");
    assert_eq!(ErrorCode::MaxPositionsReached.msg(), "Max Positions Reached");
    assert_eq!(ErrorCode::UserNotAuthorized.msg(), "User Not Authorized");
}

#[test]
fn increase_then_decrease_restores_balances() {
    let before = user_with(&[(5, 10), (0, 0), (6, 20)]);
    let mut u = before;
    increase_position(&mut u.positions, key(7), 15).unwrap();
    decrease_position(&mut u.positions, key(7), 15).unwrap();
    for m in [0u8, 5, 6, 7] {
        assert_eq!(balance(&u, key(m)), balance(&before, key(m)));
    }
    assert!(same_positions(&u, &before));
}
