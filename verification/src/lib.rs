//! Service-level-agreement settlement core.
//!
//! A provider and a pool of users stake value against an oracle-reported
//! metric.  This crate holds the verified heart of that mechanism: the
//! fixed-point decimal arithmetic, the service-level-objective evaluation
//! (is the indicator respected, and by how much did it deviate, bounded by a
//! cap), the agreement state, and the atomic staking operation that debits a
//! staker, credits an agreement-owned custody vault, and mints claim tokens,
//! all or nothing.

pub mod decimal;
pub mod errors;
pub mod sla;
pub mod slo;
pub mod staking;
