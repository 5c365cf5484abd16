//! Ground-truth distance from the range sensor, and how the main cycle keeps it.

use vstd::prelude::*;

verus! {

/// One distance delivered by the range sensor, in the calibrated unit.
#[derive(Clone, Copy, Debug, PartialEq, Eq, Structural)]
pub struct RangeSample {
    pub distance: u32,
}

/// The detector's notion of ground-truth distance: unset until a first
/// sample arrives, then the last sample delivered.
#[derive(Clone, Copy, Debug, PartialEq, Eq, Structural)]
pub enum CalibrationBaseline {
    Unset,
    Known(u32),
}

/// The baseline after a receive that gave `received`.
pub open spec fn absorbed(b: CalibrationBaseline, received: Option<RangeSample>) -> CalibrationBaseline {
    match received {
        Some(s) => CalibrationBaseline::Known(s.distance),
        None => b,
    }
}

/// Once a sample has been delivered the baseline stays known, whatever the
/// later receives give, and it always holds the last sample delivered.
pub proof fn lemma_baseline_never_unset_again(
    b: CalibrationBaseline,
    received: Option<RangeSample>,
)
    ensures
        b is Known ==> absorbed(b, received) is Known,
        received matches Some(s) ==> absorbed(b, received) == CalibrationBaseline::Known(s.distance),
{
}

impl CalibrationBaseline {
    /// Takes in what one non-blocking receive gave: a new sample replaces the
    /// baseline, no sample leaves it as it was. It never returns to unset.
    pub fn absorb(&mut self, received: Option<RangeSample>)
        ensures
            *final(self) == absorbed(*old(self), received),
    {
        if let Some(s) = received {
            *self = CalibrationBaseline::Known(s.distance);
        }
    }
}

} // verus!
