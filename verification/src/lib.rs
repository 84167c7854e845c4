//! Time-decayed vote weighting, time-progressive thresholds and a hash-chained ledger.

pub mod blockchain;
pub mod decay;
pub mod decimal;
pub mod fixed;
pub mod text;
pub mod threshold;
pub mod threshold_prog;
pub mod time;
pub mod voter;
pub mod weight;
pub mod window;
