use vstd::prelude::*;
use crate::address::Address;
use crate::state::config::GlobalConfig;

verus! {

/// The accounts of the step that sets up the configuration.
#[derive(Clone, Copy, Debug, PartialEq, Eq)]
pub struct InitializeGlobalConfig {
    pub admin: Address,
    /// The configuration record; what it holds before is overwritten.
    pub global_config: GlobalConfig,
    /// The bump seed of the record's address.
    pub global_config_bump: u8,
}

} // verus!
