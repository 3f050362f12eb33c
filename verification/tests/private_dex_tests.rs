use private_dex::constants::{admin, MAX_POSITIONS};
use private_dex::errors::ErrorCode;
use private_dex::instructions::create_lp::{CreateLp, CreateLpBumps};
use private_dex::instructions::create_user::{CreateUser, CreateUserBumps};
use private_dex::instructions::deposit::Deposit;
use private_dex::instructions::init::{Initialize, InitializeBumps};
use private_dex::instructions::remove_liquidity::RemoveLiquidity;
use private_dex::instructions::swap::Swap;
use private_dex::instructions::transfer::Transfer;
use private_dex::instructions::update_config::UpdateConfig;
use private_dex::instructions::withdraw::Withdraw;
use private_dex::pubkey::Pubkey;
use private_dex::state::{Config, LiquidityPool, LiquidityPoolStatus, Position, User};

fn key(n: u8) -> Pubkey {
    Pubkey { bytes: [n; 32] }
}

fn blank_config() -> Config {
    Config {
        bump: 0,
        paused: false,
        admin: Pubkey::default(),
        delegate_program: Pubkey::default(),
        er_validator: Pubkey::default(),
        permission_program: Pubkey::default(),
        default_pool_fee_bps: 0,
    }
}

fn blank_user() -> User {
    User { bump: 0, authority: Pubkey::default(), positions: [Position::default(); MAX_POSITIONS] }
}

fn blank_pool() -> LiquidityPool {
    LiquidityPool {
        bump: 0,
        mint_lp_bump: 0,
        status: LiquidityPoolStatus::Paused,
        authority: Pubkey::default(),
        mint_a: Pubkey::default(),
        mint_b: Pubkey::default(),
        vault_a: Pubkey::default(),
        vault_b: Pubkey::default(),
        virtual_reserve_a: 0,
        virtual_reserve_b: 0,
        lp_mint: Pubkey::default(),
        lp_supply: 0,
        pool_fee_bps: 0,
    }
}

fn initialize_config() -> Config {
    let mut ix = Initialize {
        sender: admin(),
        config: blank_config(),
        delegate_program: key(201),
        er_validator: key(202),
        permission_program: key(203),
    };
    ix.initialize(&InitializeBumps { config: 254 }).unwrap();
    ix.config
}

fn update_config(config: Config, is_paused: Option<bool>, fee: Option<u16>) -> Result<Config, ErrorCode> {
    let mut ix = UpdateConfig { sender: config.admin, config, er_validator: None };
    ix.update_config(is_paused, fee)?;
    Ok(ix.config)
}

fn create_user(config: Config, owner: Pubkey) -> Result<User, ErrorCode> {
    let mut ix = CreateUser { sender: owner, user: blank_user(), config };
    ix.create_user(&CreateUserBumps { user: 253 })?;
    Ok(ix.user)
}

fn deposit(config: Config, user: &mut User, mint: Pubkey, amount: u64) -> Result<(), ErrorCode> {
    let mut ix = Deposit { sender: user.authority, user: *user, config, mint };
    let r = ix.deposit(amount);
    *user = ix.user;
    r
}

fn withdraw(config: Config, user: &mut User, mint: Pubkey, amount: u64) -> Result<(), ErrorCode> {
    let mut ix = Withdraw { sender: user.authority, user: *user, config, mint };
    let r = ix.withdraw(amount);
    *user = ix.user;
    r
}

fn create_lp(config: Config, creator: Pubkey, mint_a: Pubkey, mint_b: Pubkey) -> Result<LiquidityPool, ErrorCode> {
    let mut ix = CreateLp {
        sender: creator,
        lp: blank_pool(),
        config,
        mint_a,
        mint_b,
        mint_lp: key(150),
        vault_a: key(151),
        vault_b: key(152),
        vault_lp: key(153),
    };
    ix.create_lp(&CreateLpBumps { lp: 250, mint_lp: 249 })?;
    Ok(ix.lp)
}

fn transfer(config: Config, from: &mut User, to: &mut User, mint: Pubkey, amount: u64) -> Result<(), ErrorCode> {
    let mut ix = Transfer { user_account: *from, config, destination_user_account: *to, mint };
    let r = ix.transfer(amount);
    *from = ix.user_account;
    *to = ix.destination_user_account;
    r
}

/// A user holding `held` of each side and 1_000_000 LP tokens, and an active pool holding
/// `reserves` of each side against a supply of 1_000_000: the state that providing
/// liquidity for 1_000_000 LP tokens leaves.
fn provided(config: Config, reserves: u64, held: u64) -> (User, LiquidityPool) {
    let mut user = create_user(config, key(1)).unwrap();
    deposit(config, &mut user, key(10), held).unwrap();
    deposit(config, &mut user, key(11), held).unwrap();
    deposit(config, &mut user, key(150), 1_000_000).unwrap();
    let mut pool = create_lp(config, key(1), key(10), key(11)).unwrap();
    pool.status = LiquidityPoolStatus::Active;
    pool.virtual_reserve_a = reserves;
    pool.virtual_reserve_b = reserves;
    pool.lp_supply = 1_000_000;
    (user, pool)
}

#[test]
fn test_initialize() {
    let config = initialize_config();
    assert!(config.admin.key_eq(&admin()), "Config account should have admin");
    assert!(!config.paused, "Config account should not be paused");
    assert_eq!(config.default_pool_fee_bps, 100, "Config account should have default pool fee bps");
}

#[test]
fn test_update_config() {
    let config = initialize_config();
    let config = update_config(config, Some(true), None).unwrap();
    assert!(config.paused, "Config account should be paused");
    let config = update_config(config, Some(false), Some(200)).unwrap();
    assert!(!config.paused, "Config account should not be paused");
    assert_eq!(config.default_pool_fee_bps, 200, "Config account should have default pool fee bps");
}

#[test]
fn test_create_user() {
    let config = initialize_config();
    let owner = key(7);
    let user = create_user(config, owner).unwrap();
    assert!(user.authority.key_eq(&owner), "User account should have authority");
    assert_eq!(user.positions.len(), MAX_POSITIONS, "User account should have MAX_POSITIONS positions");
    assert!(user.positions[0].mint.key_eq(&Pubkey::default()), "User account should have default position");
    assert_eq!(user.positions[0].amount, 0, "User account should have default position amount");
}

#[test]
fn test_deposit_tokens() {
    let config = initialize_config();
    let mut user = create_user(config, key(1)).unwrap();
    let mint = key(10);
    deposit(config, &mut user, mint, 5_000_000).unwrap();
    assert!(user.positions[0].mint.key_eq(&mint), "Position 0 should have mint");
    assert_eq!(user.positions[0].amount, 5_000_000, "Position 0 should have 5_000_000 tokens");
    assert!(user.positions[1].mint.key_eq(&Pubkey::default()), "Position 1 should have default mint");
    assert_eq!(user.positions[1].amount, 0, "Position 1 should have default amount");

    let mint_2 = key(12);
    deposit(config, &mut user, mint_2, 6_500_000).unwrap();
    assert!(user.positions[0].mint.key_eq(&mint), "Position 0 should be unchanged");
    assert_eq!(user.positions[0].amount, 5_000_000, "Position 0 should be unchanged");
    assert!(user.positions[1].mint.key_eq(&mint_2), "Position 1 should have mint_2");
    assert_eq!(user.positions[1].amount, 6_500_000, "Position 1 should have 6_500_000 tokens");
    assert!(user.positions[2].mint.key_eq(&Pubkey::default()), "Position 2 should have default mint");
    assert_eq!(user.positions[2].amount, 0, "Position 2 should have default amount");
}

#[test]
fn test_deposit_and_withdraw() {
    let config = initialize_config();
    let mut user = create_user(config, key(1)).unwrap();
    let mint = key(10);
    deposit(config, &mut user, mint, 500_000).unwrap();
    withdraw(config, &mut user, mint, 200_000).unwrap();
    assert!(user.positions[0].mint.key_eq(&mint), "Position 0 should have mint");
    assert_eq!(user.positions[0].amount, 300_000, "Position 0 should have 300_000 tokens");
    assert!(user.positions[1].mint.key_eq(&Pubkey::default()), "Position 1 should have default mint");
    assert_eq!(user.positions[1].amount, 0, "Position 1 should have default amount");
}

#[test]
fn test_create_liquidity_pool() {
    let config = initialize_config();
    let creator = key(9);
    let (mint_a, mint_b) = (key(10), key(11));
    let lp = create_lp(config, creator, mint_a, mint_b).unwrap();
    assert!(lp.authority.key_eq(&admin()), "LP account should have authority");
    assert_eq!(lp.status, LiquidityPoolStatus::Paused, "LP account should be paused");
    assert!(lp.mint_a.key_eq(&mint_a), "LP account should have mint_a");
    assert!(lp.mint_b.key_eq(&mint_b), "LP account should have mint_b");
    assert!(lp.vault_a.key_eq(&key(151)), "LP account should have vault_a");
    assert!(lp.vault_b.key_eq(&key(152)), "LP account should have vault_b");
    assert_eq!(lp.virtual_reserve_a, 0, "LP account should have virtual_reserve_a");
    assert_eq!(lp.virtual_reserve_b, 0, "LP account should have virtual_reserve_b");
    assert!(lp.lp_mint.key_eq(&key(150)), "LP account should have lp_mint");
    assert_eq!(lp.lp_supply, 0, "LP account should have lp_supply");
    assert_eq!(lp.pool_fee_bps, 100, "LP account should have pool_fee_bps");
}

#[test]
fn test_add_and_remove_liquidity() {
    let config = initialize_config();
    let (user, pool) = provided(config, 2_000_000, 3_000_000);
    let mut ix = RemoveLiquidity {
        user_account: user,
        lp: pool,
        config,
        mint_a: key(10),
        mint_b: key(11),
        mint_lp: key(150),
    };
    ix.check_pool().unwrap();
    // burning half the supply gives half of each reserve
    ix.remove_liquidity(500_000, 0, 0, 1_000_000, 1_000_000).unwrap();
    let user = ix.user_account;
    assert!(user.positions[0].mint.key_eq(&key(10)), "Position 0 should have mint_a");
    assert_eq!(user.positions[0].amount, 4_000_000, "Position 0 should have 4_000_000 tokens");
    assert!(user.positions[1].mint.key_eq(&key(11)), "Position 1 should have mint_b");
    assert_eq!(user.positions[1].amount, 4_000_000, "Position 1 should have 4_000_000 tokens");
    assert!(user.positions[2].mint.key_eq(&key(150)), "Position 2 should have mint_lp");
    assert_eq!(user.positions[2].amount, 500_000, "Position 2 should have 500_000 tokens");
    assert_eq!(ix.lp.status, LiquidityPoolStatus::Active, "LP account should be active");
    assert_eq!(ix.lp.virtual_reserve_a, 1_000_000, "LP account should have virtual_reserve_a");
    assert_eq!(ix.lp.virtual_reserve_b, 1_000_000, "LP account should have virtual_reserve_b");
    assert_eq!(ix.lp.lp_supply, 500_000, "LP account should have lp_supply");
}

#[test]
fn test_swap() {
    let config = initialize_config();
    let (user, pool) = provided(config, 5_000_000, 3_000_000);
    let mut ix = Swap { user_account: user, lp: pool, config, mint_a: key(10), mint_b: key(11) };
    assert_eq!(ix.lp.lp_supply, 1_000_000);
    assert_eq!(ix.lp.virtual_reserve_a, 5_000_000);
    assert_eq!(ix.lp.virtual_reserve_b, 5_000_000);
    assert_eq!(ix.lp.status, LiquidityPoolStatus::Active);
    ix.check_pool().unwrap();
    // 100_000 of side x in, and what a 1% fee constant-product curve pays out of side y
    ix.swap(true, 100_000, 97_058).unwrap();
    assert_eq!(ix.lp.virtual_reserve_a, 5_100_000);
    assert!(ix.lp.virtual_reserve_b - 4_900_000 < 5000);
    let user = ix.user_account;
    assert!(user.positions[0].mint.key_eq(&key(10)), "Position 0 should have mint_a");
    assert_eq!(user.positions[0].amount, 2_900_000, "Position 0 should have 2_900_000 tokens");
    assert!(user.positions[1].mint.key_eq(&key(11)), "Position 1 should have mint_b");
    assert!(3_100_000 - user.positions[1].amount < 5000, "Position 1 should be within 5000 tokens of 3_100_000");
}

#[test]
fn test_transfer_between_users() {
    let config = initialize_config();
    let mut user1 = create_user(config, key(1)).unwrap();
    let mut user2 = create_user(config, key(2)).unwrap();
    let mint = key(10);
    deposit(config, &mut user1, mint, 500_000).unwrap();
    transfer(config, &mut user1, &mut user2, mint, 200_000).unwrap();
    assert!(user1.positions[0].mint.key_eq(&mint), "Position 0 should have mint");
    assert_eq!(user1.positions[0].amount, 300_000, "Position 0 should have 300_000 tokens");
    assert!(user2.positions[0].mint.key_eq(&mint), "Position 0 should have mint");
    assert_eq!(user2.positions[0].amount, 200_000, "Position 0 should have 200_000 tokens");
}

#[test]
fn test_full_flow() {
    let config = initialize_config();
    let mut user1 = create_user(config, key(1)).unwrap();
    let mut user2 = create_user(config, key(2)).unwrap();
    let (mint_a, mint_b) = (key(10), key(11));
    deposit(config, &mut user1, mint_a, 5_000_000).unwrap();
    deposit(config, &mut user1, mint_b, 5_000_000).unwrap();
    create_lp(config, key(1), mint_a, mint_b).unwrap();
    transfer(config, &mut user1, &mut user2, mint_a, 500_000).unwrap();
    withdraw(config, &mut user1, mint_b, 500_000).unwrap();
}

#[test]
fn test_multiple_deposits_same_mint() {
    let config = initialize_config();
    let mut user = create_user(config, key(1)).unwrap();
    let mint = key(10);
    deposit(config, &mut user, mint, 1_000_000).unwrap();
    deposit(config, &mut user, mint, 2_000_000).unwrap();
    deposit(config, &mut user, mint, 1_500_000).unwrap();
    assert!(user.positions[0].mint.key_eq(&mint), "Position 0 should have mint");
    assert_eq!(user.positions[0].amount, 4_500_000, "Position 0 should have 4_500_000 tokens");
    assert!(user.positions[1].mint.key_eq(&Pubkey::default()), "Position 1 should have default mint");
    assert_eq!(user.positions[1].amount, 0, "Position 1 should have default amount");
}
