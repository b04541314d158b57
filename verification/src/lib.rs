//! A terminal dashboard core for fire and security alarm monitoring: a
//! rolling 29-hour window of alarm counts, a tiered log store with ordered
//! formatting, and the state transitions of the tick-driven control loop.
//! Terminal drawing and input polling live outside this crate; every data
//! structure and decision here carries a verified contract.

pub mod alarm_graph;
pub mod log_tier;
pub mod logging;
pub mod module;
pub mod ui;

mod clock;
