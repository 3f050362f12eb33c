pub mod deposit;
pub mod withdraw;
pub mod transfer;
pub mod swap;
pub mod remove_liquidity;
pub mod init;
pub mod update_config;
pub mod create_user;
pub mod create_lp;
