use vstd::prelude::*;
use crate::address::Address;

verus! {

/// Reported when a curve has graduated into its pool.
#[derive(Clone, Copy, Debug, PartialEq, Eq)]
pub struct GraduatedEvent {
    pub mint: Address,
    pub pool: Address,
    pub authority: Address,
    pub timestamp: i64,
}

} // verus!
