//! What each instruction reads of the accounts it is handed, as plain values.

pub mod buy_tokens;
pub mod create_token;
pub mod global_config;
pub mod graduate;
pub mod holding;
pub mod sell_tokens;
