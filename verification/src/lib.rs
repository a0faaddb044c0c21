//! A constant-product bonding curve for token launches: pricing and fees, the reserve ledger
//! that trades move, and the two-step graduation that sweeps the reserves towards a standing
//! liquidity pool.
//!
//! The library decides and records; it moves no balance itself. Every operation takes the
//! records and account facts it needs as plain values, changes them only where it succeeds,
//! and returns what happened together with the custody actions that carry it out. An operation
//! that is refused returns one error kind and leaves everything it was given unchanged.
//!
//! Conventions, which hold throughout:
//!
//! - A fee is taken from what the trader offers, before pricing: from the deposit of a buy, in
//!   base, and from the tokens of a sell, in tokens. Fee rates are bounded when the
//!   configuration is set up; a trade takes the stored rate as it is.
//! - The volume of the configuration counts base that went through the curves: what each buy
//!   paid in after its fee, and what each sell paid out.
//! - Pricing divides the product of the virtual reserves by the grown reserve and rounds the
//!   quotient down. What a trade hands out is a reserve less that quotient, so the product of
//!   the virtual reserves never grows in a trade, and shrinks by less than the grown reserve.
//! - A curve is launched with its virtual reserves above its real ones, and with exactly its
//!   real token reserve minted into its custody. No step lets a real reserve exceed the virtual
//!   reserve that prices it.
//! - A curve that is pending may be swept again, under a new nonce. A sweep reads the ledger as
//!   it stands, so a second sweep takes only what the first left or what has come in since.
//! - A sweep never takes the curve's account below its rent-exempt minimum; base that it must
//!   leave behind stays in the real base reserve.
//! - Whether the liquidity receipts of the pool are burned when a graduation is confirmed is
//!   the caller's choice, made with each confirmation.

pub mod account;
pub mod address;
pub mod custody;
pub mod error;
pub mod helpers;
pub mod instructions;
pub mod math;
pub mod state;
