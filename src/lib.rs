//! Tariff-aware dispatch for a grid-tied battery storage system: recurring
//! rate windows, the merged tariff schedule, the per-tick dispatch decision,
//! and the register tables of the inverter it drives.

pub mod smart_ess;
pub mod victron;
