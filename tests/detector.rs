use enhanced_vision::baseline::{CalibrationBaseline, RangeSample};
use enhanced_vision::cycle::{calibration_pixel, CycleAction, CycleOrchestrator};
use enhanced_vision::detector::{
    CollisionDetector, CollisionEvent, ConfigError, DebounceState, DetectError, DetectorConfig,
};
use enhanced_vision::frame::{DepthFrame, FrameError, Pixel};
use enhanced_vision::fusion::FailurePolicy;

fn frame_with(width: usize, height: usize, fill: Option<u32>, points: &[(usize, usize, Option<u32>)]) -> DepthFrame {
    let mut cells = vec![fill; width * height];
    for &(x, y, v) in points {
        cells[y * width + x] = v;
    }
    DepthFrame::new(width, height, cells).unwrap()
}

fn config(threshold: u32, margin: u32, frames: u32) -> DetectorConfig {
    DetectorConfig { threshold, hysteresis_margin: margin, debounce_frames: frames }
}

/// A 4x3 frame whose nearest raw depth is `min` at (1, 2); the calibration
/// pixel (2, 0) reads 1000. With a baseline of 1000 the bias is zero.
fn frame_min(min: u32) -> DepthFrame {
    frame_with(4, 3, Some(5000), &[(2, 0, Some(1000)), (1, 2, Some(min))])
}

fn feed(d: &mut CollisionDetector, min: u32) -> Option<CollisionEvent> {
    d.feed_depth_map(&frame_min(min), Some(1000), CalibrationBaseline::Known(1000)).unwrap()
}

#[test]
fn scenario_bias_corrected_event() {
    let frame = frame_with(640, 480, Some(3000), &[(320, 96, Some(2100)), (100, 200, Some(500))]);
    let mut o = CycleOrchestrator::new(640, 480, config(600, 100, 1), FailurePolicy::FailStop).unwrap();
    assert_eq!(o.calibration(), Pixel { x: 320, y: 96 });
    let ev = o.cycle(Some(RangeSample { distance: 2000 }), &frame).unwrap();
    assert_eq!(
        ev,
        Some(CollisionEvent { location: Pixel { x: 100, y: 200 }, measured_depth: 400, baseline_depth: 2000 })
    );
    assert_eq!(o.baseline(), CalibrationBaseline::Known(2000));
}

#[test]
fn scenario_detector_direct() {
    let frame = frame_with(640, 480, Some(3000), &[(320, 96, Some(2100)), (100, 200, Some(500))]);
    let mut d = CollisionDetector::new(640, 480, config(600, 100, 1)).unwrap();
    let ev = d.feed_depth_map(&frame, frame.at(320, 96), CalibrationBaseline::Known(2000)).unwrap();
    assert_eq!(
        ev,
        Some(CollisionEvent { location: Pixel { x: 100, y: 200 }, measured_depth: 400, baseline_depth: 2000 })
    );
    assert_eq!(d.state(), DebounceState::Triggered);
}

#[test]
fn no_event_when_all_at_or_above_threshold() {
    let mut d = CollisionDetector::new(4, 3, config(600, 100, 1)).unwrap();
    for min in [600u32, 650, 700, 601, 600, 10_000] {
        assert_eq!(feed(&mut d, min), None);
    }
    assert_eq!(d.state(), DebounceState::Clear);
}

#[test]
fn single_close_pixel_located_once_debounced() {
    let frame = frame_with(5, 4, None, &[(2, 0, Some(1000)), (3, 2, Some(450)), (0, 3, Some(900))]);
    let mut d = CollisionDetector::new(5, 4, config(600, 100, 2)).unwrap();
    let b = CalibrationBaseline::Known(1000);
    assert_eq!(d.feed_depth_map(&frame, Some(1000), b).unwrap(), None);
    assert_eq!(d.state(), DebounceState::Arming(1));
    let ev = d.feed_depth_map(&frame, Some(1000), b).unwrap().unwrap();
    assert_eq!(ev.location, Pixel { x: 3, y: 2 });
    assert_eq!(ev.measured_depth, 450);
    assert_eq!(ev.baseline_depth, 1000);
}

#[test]
fn all_holes_never_raise() {
    let frame = frame_with(4, 3, None, &[]);
    let mut d = CollisionDetector::new(4, 3, config(600, 100, 1)).unwrap();
    for b in [CalibrationBaseline::Unset, CalibrationBaseline::Known(0), CalibrationBaseline::Known(5000)] {
        for r in [None, Some(0), Some(4000)] {
            assert_eq!(d.feed_depth_map(&frame, r, b).unwrap(), None);
        }
    }
    assert_eq!(frame.nearest(), None);
}

#[test]
fn isolated_violation_is_debounced() {
    let mut d = CollisionDetector::new(4, 3, config(600, 100, 3)).unwrap();
    assert_eq!(feed(&mut d, 800), None);
    assert_eq!(feed(&mut d, 300), None);
    assert_eq!(feed(&mut d, 800), None);
    assert_eq!(d.state(), DebounceState::Clear);
    // a frame between threshold and threshold plus margin also breaks a streak
    assert_eq!(feed(&mut d, 300), None);
    assert_eq!(feed(&mut d, 650), None);
    assert_eq!(feed(&mut d, 300), None);
    assert_eq!(feed(&mut d, 300), None);
    assert_eq!(d.state(), DebounceState::Arming(2));
}

#[test]
fn consecutive_violations_raise_exactly_once() {
    let mut d = CollisionDetector::new(4, 3, config(600, 100, 3)).unwrap();
    assert_eq!(feed(&mut d, 300), None);
    assert_eq!(feed(&mut d, 200), None);
    let ev = feed(&mut d, 250).unwrap();
    assert_eq!(ev.location, Pixel { x: 1, y: 2 });
    assert_eq!(ev.measured_depth, 250);
    for _ in 0..5 {
        assert_eq!(feed(&mut d, 100), None);
    }
    assert_eq!(d.state(), DebounceState::Triggered);
}

#[test]
fn rearms_only_past_margin() {
    let mut d = CollisionDetector::new(4, 3, config(600, 100, 1)).unwrap();
    assert!(feed(&mut d, 300).is_some());
    // between threshold and threshold + margin: still triggered
    assert_eq!(feed(&mut d, 600), None);
    assert_eq!(feed(&mut d, 700), None);
    assert_eq!(d.state(), DebounceState::Triggered);
    assert_eq!(feed(&mut d, 300), None);
    // past the margin: re-armed
    assert_eq!(feed(&mut d, 701), None);
    assert_eq!(d.state(), DebounceState::Clear);
    assert!(feed(&mut d, 300).is_some());
}

#[test]
fn unset_baseline_never_raises() {
    let mut o = CycleOrchestrator::new(4, 3, config(600, 100, 1), FailurePolicy::FailStop).unwrap();
    for _ in 0..4 {
        assert_eq!(o.cycle(None, &frame_min(0)).unwrap(), None);
    }
    assert_eq!(o.baseline(), CalibrationBaseline::Unset);
    let mut d = CollisionDetector::new(4, 3, config(600, 100, 1)).unwrap();
    assert_eq!(d.feed_depth_map(&frame_min(0), Some(1000), CalibrationBaseline::Unset).unwrap(), None);
    assert_eq!(d.state(), DebounceState::Clear);
}

#[test]
fn baseline_kept_when_nothing_arrives() {
    let mut o = CycleOrchestrator::new(4, 3, config(600, 100, 1), FailurePolicy::FailStop).unwrap();
    assert_eq!(o.cycle(Some(RangeSample { distance: 1000 }), &frame_min(900)).unwrap(), None);
    let ev = o.cycle(None, &frame_min(500)).unwrap().unwrap();
    assert_eq!(ev.baseline_depth, 1000);
    assert_eq!(o.baseline(), CalibrationBaseline::Known(1000));
    let mut b = CalibrationBaseline::Known(7);
    b.absorb(None);
    assert_eq!(b, CalibrationBaseline::Known(7));
    b.absorb(Some(RangeSample { distance: 9 }));
    assert_eq!(b, CalibrationBaseline::Known(9));
}

#[test]
fn negative_bias_raises_corrected_depth() {
    // reference 800 against a baseline of 1000: every depth reads 200 more
    let frame = frame_with(4, 3, Some(5000), &[(2, 0, Some(800)), (1, 2, Some(450))]);
    let mut d = CollisionDetector::new(4, 3, config(600, 100, 1)).unwrap();
    assert_eq!(d.feed_depth_map(&frame, Some(800), CalibrationBaseline::Known(1000)).unwrap(), None);
    let frame = frame_with(4, 3, Some(5000), &[(2, 0, Some(800)), (1, 2, Some(350))]);
    let ev = d.feed_depth_map(&frame, Some(800), CalibrationBaseline::Known(1000)).unwrap().unwrap();
    assert_eq!(ev.measured_depth, 550);
}

#[test]
fn corrected_depth_may_be_negative() {
    let frame = frame_with(2, 2, Some(5000), &[(0, 0, Some(4000)), (1, 1, Some(10))]);
    let mut d = CollisionDetector::new(2, 2, config(600, 100, 1)).unwrap();
    let ev = d.feed_depth_map(&frame, Some(4000), CalibrationBaseline::Known(100)).unwrap().unwrap();
    assert_eq!(ev.measured_depth, -3890);
}

#[test]
fn hole_at_calibration_pixel_suppresses() {
    let frame = frame_with(4, 3, Some(100), &[(2, 0, None)]);
    let mut o = CycleOrchestrator::new(4, 3, config(600, 100, 1), FailurePolicy::FailStop).unwrap();
    assert_eq!(o.cycle(Some(RangeSample { distance: 1000 }), &frame).unwrap(), None);
}

#[test]
fn nearest_ties_take_first_in_row_order() {
    let frame = frame_with(3, 3, Some(900), &[(2, 0, Some(400)), (0, 1, Some(400)), (1, 2, Some(400))]);
    assert_eq!(frame.nearest(), Some((Pixel { x: 2, y: 0 }, 400)));
    assert_eq!(frame.at(0, 1), Some(400));
    assert_eq!(frame.at(1, 1), Some(900));
}

#[test]
fn frame_errors() {
    assert_eq!(DepthFrame::new(0, 3, vec![]).err(), Some(FrameError::EmptyView));
    assert_eq!(DepthFrame::new(3, 0, vec![]).err(), Some(FrameError::EmptyView));
    assert_eq!(DepthFrame::new(2, 2, vec![None; 3]).err(), Some(FrameError::CellCountMismatch));
    assert_eq!(DepthFrame::new(usize::MAX, 2, vec![None; 3]).err(), Some(FrameError::CellCountMismatch));
    let f = DepthFrame::new(2, 3, vec![Some(1); 6]).unwrap();
    assert_eq!((f.width(), f.height()), (2, 3));
}

#[test]
fn config_errors() {
    assert_eq!(CollisionDetector::new(0, 3, config(1, 1, 1)).err(), Some(ConfigError::EmptyView));
    assert_eq!(CollisionDetector::new(3, 0, config(1, 1, 0)).err(), Some(ConfigError::EmptyView));
    assert_eq!(CollisionDetector::new(3, 3, config(1, 1, 0)).err(), Some(ConfigError::ZeroDebounce));
    assert_eq!(
        CycleOrchestrator::new(3, 3, config(1, 1, 0), FailurePolicy::FailStop).err(),
        Some(ConfigError::ZeroDebounce)
    );
    let d = CollisionDetector::new(3, 2, config(7, 8, 9)).unwrap();
    assert_eq!((d.width(), d.height(), d.config()), (3, 2, config(7, 8, 9)));
}

#[test]
fn view_mismatch_refused() {
    let mut d = CollisionDetector::new(4, 3, config(600, 100, 1)).unwrap();
    let frame = frame_with(3, 4, Some(0), &[]);
    assert_eq!(d.feed_depth_map(&frame, Some(0), CalibrationBaseline::Known(0)), Err(DetectError::ViewMismatch));
    assert_eq!(d.state(), DebounceState::Clear);
    let mut o = CycleOrchestrator::new(4, 3, config(600, 100, 1), FailurePolicy::FailStop).unwrap();
    assert_eq!(o.cycle(Some(RangeSample { distance: 5 }), &frame), Err(DetectError::ViewMismatch));
    assert_eq!(o.baseline(), CalibrationBaseline::Known(5));
}

#[test]
fn calibration_pixel_of_view() {
    assert_eq!(calibration_pixel(640, 480), Pixel { x: 320, y: 96 });
    assert_eq!(calibration_pixel(1, 1), Pixel { x: 0, y: 0 });
    assert_eq!(calibration_pixel(7, 9), Pixel { x: 3, y: 1 });
}

#[test]
fn acquisition_failure_policy() {
    let o = CycleOrchestrator::new(4, 3, config(600, 100, 1), FailurePolicy::FailStop).unwrap();
    assert_eq!(o.on_acquisition_failure(), CycleAction::Terminate);
    let o = CycleOrchestrator::new(4, 3, config(600, 100, 1), FailurePolicy::SkipAndContinue).unwrap();
    assert_eq!(o.on_acquisition_failure(), CycleAction::SkipFrame);
    assert_eq!(o.detector().state(), DebounceState::Clear);
}
