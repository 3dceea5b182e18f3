//! Linear token vesting with a cliff: schedules, the claim computation and
//! the registry that owns company accounts and employee schedules.

pub mod address;
pub mod claim;
pub mod company;
pub mod error;
pub mod instructions;
mod keyed;
pub mod registry;
pub mod schedule;
