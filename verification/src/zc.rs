//! Threshold crossing detection with a dead-band.
//!
//! A raw sample stream that hovers around a threshold would toggle a plain
//! comparison on every bit of noise. The detector therefore keeps its state
//! until the sample clears the far edge of a band around the threshold.

use vstd::prelude::*;
use crate::arith::lemma_product_bound;
use crate::units::UNIT;

verus! {

/// Upper edge of the dead-band, `threshold * (1 + hysteresis)`, multiplied by
/// [`UNIT`] so that it stays an integer.
pub open spec fn upper_edge_scaled(threshold: int, hysteresis: int) -> int {
    threshold * (UNIT + hysteresis)
}

/// Lower edge of the dead-band, `threshold * (1 - hysteresis)`, multiplied by
/// [`UNIT`] so that it stays an integer.
pub open spec fn lower_edge_scaled(threshold: int, hysteresis: int) -> int {
    threshold * (UNIT - hysteresis)
}

/// The sample lies strictly between the two edges of the dead-band.
pub open spec fn in_dead_band(value: int, threshold: int, hysteresis: int) -> bool {
    lower_edge_scaled(threshold, hysteresis) < value * UNIT < upper_edge_scaled(
        threshold,
        hysteresis,
    )
}

/// The detector's state after it has seen `value`.
///
/// A detector that was above stays above unless the sample falls below the
/// lower edge; one that was below rises only when the sample reaches the
/// upper edge.
pub open spec fn above_after(value: int, threshold: int, hysteresis: int, was_above: bool) -> bool {
    if was_above {
        value * UNIT >= lower_edge_scaled(threshold, hysteresis)
    } else {
        value * UNIT >= upper_edge_scaled(threshold, hysteresis)
    }
}

/// State and crossing flag that the detector reports for one sample.
pub open spec fn detect(value: int, threshold: int, hysteresis: int, was_above: bool) -> (
    bool,
    bool,
) {
    let is_above = above_after(value, threshold, hysteresis, was_above);
    (is_above, is_above != was_above)
}

/// Detects crossings of `threshold` with a relative dead-band.
///
/// `value` and `threshold` are fixed-point quantities of the same unit and
/// `hysteresis` is a fixed-point fraction (`50_000` is a dead-band of ±5 %).
/// `last_state` is the state returned for the previous sample; the first call
/// of a stream passes `false`.
///
/// Returns `(new_state, crossed)`.
pub fn detect_zero_crossing_with_hysteresis(
    value: i64,
    threshold: i64,
    hysteresis: i64,
    last_state: bool,
) -> (r: (bool, bool))
    ensures
        r == detect(value as int, threshold as int, hysteresis as int, last_state),
{
    let scaled_value: i128 = (value as i128) * (UNIT as i128);
    let new_state: bool = if last_state {
        let factor: i128 = (UNIT as i128) - (hysteresis as i128);
        proof {
            lemma_product_bound(
                threshold as int,
                factor as int,
                0x8000_0000_0000_0000,
                0x8000_0000_0000_0000int + 1_000_000,
            );
        }
        scaled_value >= (threshold as i128) * factor
    } else {
        let factor: i128 = (UNIT as i128) + (hysteresis as i128);
        proof {
            lemma_product_bound(
                threshold as int,
                factor as int,
                0x8000_0000_0000_0000,
                0x8000_0000_0000_0000int + 1_000_000,
            );
        }
        scaled_value >= (threshold as i128) * factor
    };
    (new_state, new_state != last_state)
}

/// A sample strictly inside the dead-band never changes the state, whatever
/// the state was, and so reports no crossing however often it is repeated.
pub proof fn lemma_dead_band_keeps_state(
    value: int,
    threshold: int,
    hysteresis: int,
    was_above: bool,
)
    requires
        in_dead_band(value, threshold, hysteresis),
    ensures
        detect(value, threshold, hysteresis, was_above) == (was_above, false),
        detect(
            value,
            threshold,
            hysteresis,
            detect(value, threshold, hysteresis, was_above).0,
        ) == (was_above, false),
{
}

/// A sample beyond the upper edge lifts a detector that was below, and a
/// sample beneath the lower edge drops a detector that was above; both
/// report a crossing.
pub proof fn lemma_band_edges_are_symmetric(value: int, threshold: int, hysteresis: int)
    ensures
        value * UNIT > upper_edge_scaled(threshold, hysteresis) ==> detect(
            value,
            threshold,
            hysteresis,
            false,
        ) == (true, true),
        value * UNIT < lower_edge_scaled(threshold, hysteresis) ==> detect(
            value,
            threshold,
            hysteresis,
            true,
        ) == (false, true),
{
}

/// A sample exactly on the threshold of a proper dead-band (positive
/// threshold, positive hysteresis) leaves the state as it was.
pub proof fn lemma_threshold_sample_keeps_state(threshold: int, hysteresis: int, was_above: bool)
    requires
        threshold > 0,
        hysteresis > 0,
    ensures
        detect(threshold, threshold, hysteresis, was_above) == (was_above, false),
{
    assert(threshold * (UNIT - hysteresis) < threshold * UNIT < threshold * (UNIT + hysteresis))
        by (nonlinear_arith)
        requires
            threshold > 0,
            hysteresis > 0,
    ;
}

} // verus!
