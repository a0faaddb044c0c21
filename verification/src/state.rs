//! The records that the launchpad keeps and the events that it reports.

pub mod bonding_curve;
pub mod config;
pub mod graduate;
pub mod pool_request;
pub mod trade;
