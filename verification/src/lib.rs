use vstd::prelude::*;

pub mod args;
pub mod checker;
pub mod compiler;
pub mod executor;
pub mod flag;
pub mod formatted_error;
pub mod owned_child;
pub mod pipes;
pub mod prepare_input;
pub mod sio2jail;
pub mod strutil;
pub mod style;
pub mod test_errors;
pub mod test_result;
pub mod test_summary;
pub mod testing_utils;
pub mod watchdog;

verus! {

/// Milliseconds of wall-clock time, the unit used for every timeout and
/// measurement in this crate.
pub type Millis = u64;

} // verus!
