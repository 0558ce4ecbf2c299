//! Fixed-point representation of analog quantities.
//!
//! Every analog quantity of the regulator (engine speed, currents, voltages,
//! temperatures, dimensionless factors) is an `i64` that counts millionths of
//! its unit: `1_500_000` is 1.5 A, 1.5 V, 1.5 rpm or the factor 1.5.

use vstd::prelude::*;

verus! {

/// Number of counts that make up one whole unit.
pub const UNIT: i64 = 1_000_000;

/// `value` limited to the range `lo ..= hi`.
pub open spec fn clamp(value: int, lo: int, hi: int) -> int {
    if value < lo {
        lo
    } else if value > hi {
        hi
    } else {
        value
    }
}

/// The content of a cell as a mathematical integer.
pub open spec fn as_int(cell: Option<i64>) -> Option<int> {
    match cell {
        Some(value) => Some(value as int),
        None => None,
    }
}

} // verus!
