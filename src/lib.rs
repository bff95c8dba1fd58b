//! An incremental "lines of code" progression engine: exact fixed-point
//! quantities, geometric purchase pricing, a prerequisite-gated unlock graph
//! and a deterministic production tick.

pub mod fixed;
pub mod cost;
pub mod constants;
pub mod research;
pub mod engine;
pub mod log;
pub mod speedrun;
pub mod clock;
pub mod ledger;
