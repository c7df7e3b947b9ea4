//! Fixed-point conventions.
//!
//! A reading such as 22.5 °C or a smoke level of 0.07 is held as a whole
//! number of thousandths (22 500 and 70). Scores derived from such readings
//! are held in millionths, which keeps every formula of the engine exact.

use vstd::prelude::*;

verus! {

/// Number of stored units per whole unit of a reading.
pub const MILLI: i32 = 1000;

/// Number of stored units per whole unit of a derived score.
pub const MICRO: i64 = 1_000_000;

} // verus!
