//! The operations that the command line offers.

pub mod laws;
pub mod run;
