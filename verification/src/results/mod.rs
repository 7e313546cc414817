//! What a run reports.

pub mod printer;
pub mod test_result;
