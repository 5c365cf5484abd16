//! One iteration of the main loop: drain the baseline, sample the
//! calibration pixel of the new frame, and let the detector judge it.

use vstd::prelude::*;
use crate::baseline::{absorbed, CalibrationBaseline, RangeSample};
use crate::detector::{
    describes,
    fires,
    next_state,
    reading,
    CollisionDetector,
    CollisionEvent,
    ConfigError,
    DetectError,
    DetectorConfig,
    DebounceState,
    DetectorView,
};
use crate::fusion::FailurePolicy;
use crate::frame::{DepthFrame, Pixel};

verus! {

/// What the main loop does after the depth source failed to give a frame.
#[derive(Clone, Copy, Debug, PartialEq, Eq, Structural)]
pub enum CycleAction {
    /// Skip this frame and go on with the next cycle.
    SkipFrame,
    /// End the loop.
    Terminate,
}

/// The calibration pixel of a view: the horizontal centre, a fifth of the
/// height down from the top.
pub fn calibration_pixel(width: usize, height: usize) -> (r: Pixel)
    ensures
        r.x == width / 2,
        r.y == height / 5,
{
    Pixel { x: width / 2, y: height / 5 }
}

/// What an orchestrator is.
pub ghost struct OrchestratorView {
    pub detector: DetectorView,
    pub baseline: CalibrationBaseline,
    pub acquisition_policy: FailurePolicy,
}

/// Drives the per-frame sequence. It owns the detector and the baseline.
pub struct CycleOrchestrator {
    detector: CollisionDetector,
    baseline: CalibrationBaseline,
    acquisition_policy: FailurePolicy,
}

impl View for CycleOrchestrator {
    type V = OrchestratorView;

    closed spec fn view(&self) -> OrchestratorView {
        OrchestratorView {
            detector: self.detector@,
            baseline: self.baseline,
            acquisition_policy: self.acquisition_policy,
        }
    }
}

impl CycleOrchestrator {
    /// An orchestrator for a view of `width` by `height`, with no baseline
    /// yet and a detector in state `Clear`.
    pub fn new(
        width: usize,
        height: usize,
        config: DetectorConfig,
        acquisition_policy: FailurePolicy,
    ) -> (r: Result<CycleOrchestrator, ConfigError>)
        ensures
            width > 0 && height > 0 && config.debounce_frames > 0 <==> r is Ok,
            width == 0 || height == 0 <==> r == Err::<CycleOrchestrator, ConfigError>(
                ConfigError::EmptyView,
            ),
            width > 0 && height > 0 && config.debounce_frames == 0 <==> r == Err::<
                CycleOrchestrator,
                ConfigError,
            >(ConfigError::ZeroDebounce),
            r matches Ok(o) ==> o@ == (OrchestratorView {
                detector: DetectorView {
                    width: width as nat,
                    height: height as nat,
                    config,
                    state: DebounceState::Clear,
                },
                baseline: CalibrationBaseline::Unset,
                acquisition_policy,
            }),
    {
        let detector = match CollisionDetector::new(width, height, config) {
            Ok(d) => d,
            Err(e) => return Err(e),
        };
        Ok(CycleOrchestrator { detector, baseline: CalibrationBaseline::Unset, acquisition_policy })
    }

    /// Runs one cycle on what the non-blocking receive gave and on the new
    /// frame: the baseline takes in the sample first, then the detector
    /// judges the frame against its reading at the calibration pixel.
    pub fn cycle(&mut self, received: Option<RangeSample>, frame: &DepthFrame) -> (r: Result<
        Option<CollisionEvent>,
        DetectError,
    >)
        ensures
            ({
                let o = old(self)@;
                let b = absorbed(o.baseline, received);
                let reference = frame@.cells[frame@.index_of(
                    (o.detector.width / 2) as int,
                    (o.detector.height / 5) as int,
                )];
                let rd = reading(frame@, reference, b);
                &&& final(self)@.baseline == b
                &&& final(self)@.acquisition_policy == o.acquisition_policy
                &&& (r is Err <==> frame@.width != o.detector.width || frame@.height
                    != o.detector.height)
                &&& (r is Err ==> final(self)@.detector == o.detector)
                &&& (r is Ok ==> final(self)@.detector == (DetectorView {
                    state: next_state(o.detector.config, o.detector.state, rd),
                    ..o.detector
                }))
                &&& (r is Ok ==> (r->Ok_0 is Some <==> fires(o.detector.config, o.detector.state, rd)))
                &&& (r matches Ok(Some(ev)) ==> describes(ev, frame@, reference, b))
            }),
    {
        self.baseline.absorb(received);
        let width = self.detector.width();
        let height = self.detector.height();
        if frame.width() != width || frame.height() != height {
            return Err(DetectError::ViewMismatch);
        }
        let calibration = calibration_pixel(width, height);
        let reference = frame.at(calibration.x, calibration.y);
        self.detector.feed_depth_map(frame, reference, self.baseline)
    }

    /// What to do when the depth source failed this cycle, as the policy says.
    pub fn on_acquisition_failure(&self) -> (r: CycleAction)
        ensures
            r == (match self@.acquisition_policy {
                FailurePolicy::FailStop => CycleAction::Terminate,
                FailurePolicy::SkipAndContinue => CycleAction::SkipFrame,
            }),
    {
        match self.acquisition_policy {
            FailurePolicy::FailStop => CycleAction::Terminate,
            FailurePolicy::SkipAndContinue => CycleAction::SkipFrame,
        }
    }

    pub fn baseline(&self) -> (r: CalibrationBaseline)
        ensures
            r == self@.baseline,
    {
        self.baseline
    }

    /// The calibration pixel of this orchestrator's view.
    pub fn calibration(&self) -> (r: Pixel)
        ensures
            r.x == self@.detector.width / 2,
            r.y == self@.detector.height / 5,
    {
        calibration_pixel(self.detector.width(), self.detector.height())
    }

    pub fn detector(&self) -> (r: &CollisionDetector)
        ensures
            r@ == self@.detector,
    {
        &self.detector
    }
}

} // verus!
