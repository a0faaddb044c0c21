//! The launchpad's operations: set-up, launch, buy, sell, and the confirmation of a
//! graduation.

pub mod buy_tokens;
pub mod configs;
pub mod create_tokens;
pub mod graduate;
pub mod lifecycle;
pub mod sell_tokens;
