//! The collision decision engine: bias correction against the range sensor,
//! the nearest corrected depth of a frame, and temporal debouncing.

use vstd::prelude::*;
use crate::baseline::CalibrationBaseline;
use crate::frame::{DepthFrame, FrameView, Pixel};

verus! {

/// How the detector decides.
#[derive(Clone, Copy, Debug, PartialEq, Eq, Structural)]
pub struct DetectorConfig {
    /// A frame whose nearest corrected depth is below this violates.
    pub threshold: u32,
    /// After an event, the nearest corrected depth must exceed
    /// `threshold + hysteresis_margin` before the detector re-arms.
    pub hysteresis_margin: u32,
    /// Number of consecutive violating frames that raise an event.
    pub debounce_frames: u32,
}

/// Why a detector could not be built.
#[derive(Clone, Copy, Debug, PartialEq, Eq, Structural)]
pub enum ConfigError {
    /// The view width or height is zero.
    EmptyView,
    /// The debounce count is zero.
    ZeroDebounce,
}

/// Why a frame was refused.
#[derive(Clone, Copy, Debug, PartialEq, Eq, Structural)]
pub enum DetectError {
    /// The frame's dimensions are not the detector's view dimensions.
    ViewMismatch,
}

/// Where the debounce mechanism stands.
#[derive(Clone, Copy, Debug, PartialEq, Eq, Structural)]
pub enum DebounceState {
    /// No violating frame pending.
    Clear,
    /// This many consecutive violating frames, fewer than needed.
    Arming(u32),
    /// An event was raised; no other until the detector re-arms.
    Triggered,
}

/// A detected collision risk.
#[derive(Clone, Copy, Debug, PartialEq, Eq, Structural)]
pub struct CollisionEvent {
    /// The pixel of the nearest corrected depth.
    pub location: Pixel,
    /// The nearest corrected depth.
    pub measured_depth: i64,
    /// The baseline the correction used.
    pub baseline_depth: u32,
}

/// Depth at a pixel after removing the frame's bias, where the bias is the
/// stereo depth at the calibration pixel minus the ground-truth baseline.
pub open spec fn corrected(raw: int, reference: int, baseline: int) -> int {
    raw - (reference - baseline)
}

/// The cell that holds the frame's nearest measured depth.
pub open spec fn nearest_index(f: FrameView) -> int {
    choose|i: int| f.is_nearest(i)
}

/// The nearest corrected depth of a frame, where the detector can judge it:
/// a baseline is known, the calibration pixel holds a depth, and the frame
/// holds at least one measured cell.
pub open spec fn reading(
    f: FrameView,
    reference: Option<u32>,
    baseline: CalibrationBaseline,
) -> Option<int> {
    match (baseline, reference) {
        (CalibrationBaseline::Known(b), Some(r)) => if f.has_valid() {
            Some(corrected(f.raw(nearest_index(f)), r as int, b as int))
        } else {
            None
        },
        _ => None,
    }
}

pub open spec fn violates(c: DetectorConfig, rd: Option<int>) -> bool {
    rd matches Some(m) && m < c.threshold
}

pub open spec fn clears(c: DetectorConfig, rd: Option<int>) -> bool {
    rd matches Some(m) && m > c.threshold + c.hysteresis_margin
}

/// Consecutive violating frames counted by a state that is not triggered.
pub open spec fn streak(s: DebounceState) -> int {
    match s {
        DebounceState::Arming(k) => k as int,
        _ => 0,
    }
}

/// The debounce transition on one frame's reading. A violating frame extends
/// the streak and triggers at the configured count; once triggered, only a
/// clearing frame re-arms; before that, any frame that does not violate
/// breaks the streak.
pub open spec fn next_state(c: DetectorConfig, s: DebounceState, rd: Option<int>) -> DebounceState {
    if violates(c, rd) {
        if s is Triggered || streak(s) + 1 >= c.debounce_frames {
            DebounceState::Triggered
        } else {
            DebounceState::Arming((streak(s) + 1) as u32)
        }
    } else if clears(c, rd) {
        DebounceState::Clear
    } else if s is Triggered {
        DebounceState::Triggered
    } else {
        DebounceState::Clear
    }
}

/// An event is raised exactly on the frame that moves the detector into
/// `Triggered`.
pub open spec fn fires(c: DetectorConfig, s: DebounceState, rd: Option<int>) -> bool {
    s !is Triggered && next_state(c, s, rd) is Triggered
}

/// A state that the detector can be in under configuration `c`.
pub open spec fn state_fits(c: DetectorConfig, s: DebounceState) -> bool {
    s matches DebounceState::Arming(k) ==> 0 < k < c.debounce_frames
}

/// What a detector is: its view dimensions, its configuration, and its
/// debounce state.
pub ghost struct DetectorView {
    pub width: nat,
    pub height: nat,
    pub config: DetectorConfig,
    pub state: DebounceState,
}

/// The collision detector. Its view dimensions and configuration are fixed
/// at construction; only the debounce state changes from frame to frame.
pub struct CollisionDetector {
    width: usize,
    height: usize,
    config: DetectorConfig,
    state: DebounceState,
}

impl View for CollisionDetector {
    type V = DetectorView;

    closed spec fn view(&self) -> DetectorView {
        DetectorView {
            width: self.width as nat,
            height: self.height as nat,
            config: self.config,
            state: self.state,
        }
    }
}

spec fn widen(rd: Option<i64>) -> Option<int> {
    match rd {
        Some(m) => Some(m as int),
        None => None,
    }
}

/// One debounce transition, on a reading already corrected.
fn advance(c: DetectorConfig, s: DebounceState, rd: Option<i64>) -> (r: (DebounceState, bool))
    requires
        c.debounce_frames > 0,
        state_fits(c, s),
    ensures
        r.0 == next_state(c, s, widen(rd)),
        r.1 == fires(c, s, widen(rd)),
        state_fits(c, r.0),
{
    let violating = match rd {
        Some(m) => m < c.threshold as i64,
        None => false,
    };
    let clearing = match rd {
        Some(m) => m > c.threshold as i64 + c.hysteresis_margin as i64,
        None => false,
    };
    if violating {
        match s {
            DebounceState::Triggered => (DebounceState::Triggered, false),
            DebounceState::Clear => if c.debounce_frames <= 1 {
                (DebounceState::Triggered, true)
            } else {
                (DebounceState::Arming(1), false)
            },
            DebounceState::Arming(k) => if k + 1 >= c.debounce_frames {
                (DebounceState::Triggered, true)
            } else {
                (DebounceState::Arming(k + 1), false)
            },
        }
    } else if clearing {
        (DebounceState::Clear, false)
    } else {
        match s {
            DebounceState::Triggered => (DebounceState::Triggered, false),
            _ => (DebounceState::Clear, false),
        }
    }
}

/// `ev` reports frame `f`: it is located at the frame's nearest measured
/// pixel, carries the nearest corrected depth, and the baseline used.
pub open spec fn describes(
    ev: CollisionEvent,
    f: FrameView,
    reference: Option<u32>,
    baseline: CalibrationBaseline,
) -> bool {
    &&& ev.location.x < f.width
    &&& ev.location.y < f.height
    &&& f.index_of(ev.location.x as int, ev.location.y as int) == nearest_index(f)
    &&& reading(f, reference, baseline) == Some(ev.measured_depth as int)
    &&& baseline == CalibrationBaseline::Known(ev.baseline_depth)
}

/// The debounce state after a run of frame readings, starting from `s`.
pub open spec fn state_after(c: DetectorConfig, s: DebounceState, rds: Seq<Option<int>>) -> DebounceState
    decreases rds.len(),
{
    if rds.len() == 0 {
        s
    } else {
        next_state(c, state_after(c, s, rds.drop_last()), rds.last())
    }
}

/// Whether frame `k` of a run of readings starting from `s` raises an event.
pub open spec fn fires_at(c: DetectorConfig, s: DebounceState, rds: Seq<Option<int>>, k: int) -> bool {
    fires(c, state_after(c, s, rds.take(k)), rds[k])
}

/// The nearest measured cell among the first `n`, if any is measured.
proof fn lemma_prefix_nearest(f: FrameView, n: int) -> (r: Option<int>)
    requires
        0 <= n <= f.cells.len(),
    ensures
        r is None ==> forall|j: int| 0 <= j < n ==> !f.valid_at(j),
        r matches Some(i) ==> {
            &&& 0 <= i < n
            &&& f.valid_at(i)
            &&& forall|j: int| 0 <= j < n && #[trigger] f.valid_at(j) ==> f.raw(i) <= f.raw(j)
            &&& forall|j: int| 0 <= j < i && #[trigger] f.valid_at(j) ==> f.raw(i) < f.raw(j)
        },
    decreases n,
{
    if n == 0 {
        None
    } else {
        let prev = lemma_prefix_nearest(f, n - 1);
        let w = n - 1;
        if f.valid_at(w) {
            match prev {
                None => Some(w),
                Some(i) => if f.raw(w) < f.raw(i) {
                    Some(w)
                } else {
                    Some(i)
                },
            }
        } else {
            prev
        }
    }
}

/// A frame that holds a measured cell has a nearest one.
proof fn lemma_nearest_exists(f: FrameView)
    requires
        f.has_valid(),
    ensures
        f.is_nearest(nearest_index(f)),
{
    let j = choose|j: int| f.valid_at(j);
    let r = lemma_prefix_nearest(f, f.cells.len() as int);
    assert(f.is_nearest(r->0));
}

/// A frame in which no measured pixel, once corrected, lies below the
/// threshold raises no event, whatever state the detector is in; so a run
/// of such frames raises none.
pub proof fn lemma_no_event_at_or_above_threshold(
    c: DetectorConfig,
    s: DebounceState,
    f: FrameView,
    reference: u32,
    baseline: u32,
)
    requires
        forall|i: int| #[trigger] f.valid_at(i) ==> corrected(f.raw(i), reference as int, baseline as int) >= c.threshold,
    ensures
        !violates(c, reading(f, Some(reference), CalibrationBaseline::Known(baseline))),
        !fires(c, s, reading(f, Some(reference), CalibrationBaseline::Known(baseline))),
{
    if f.has_valid() {
        lemma_nearest_exists(f);
    }
}

/// A frame whose only measured pixel below the threshold, once corrected, is
/// cell `i` violates, and the event it raises is located at that cell: it
/// raises one exactly when the debounce count is reached with it.
pub proof fn lemma_single_close_pixel(
    c: DetectorConfig,
    s: DebounceState,
    f: FrameView,
    i: int,
    reference: u32,
    baseline: u32,
)
    requires
        f.valid_at(i),
        corrected(f.raw(i), reference as int, baseline as int) < c.threshold,
        forall|j: int| #[trigger] f.valid_at(j) && j != i ==> corrected(f.raw(j), reference as int, baseline as int) >= c.threshold,
    ensures
        nearest_index(f) == i,
        violates(c, reading(f, Some(reference), CalibrationBaseline::Known(baseline))),
        fires(c, s, reading(f, Some(reference), CalibrationBaseline::Known(baseline))) <==> s !is Triggered
            && streak(s) + 1 >= c.debounce_frames,
{
    lemma_nearest_exists(f);
    let k = nearest_index(f);
    if k != i {
        assert(f.raw(k) <= f.raw(i));
    }
}

/// A frame that holds holes only never raises an event, whatever the
/// baseline, the reference reading and the detector's state.
pub proof fn lemma_all_holes_no_event(
    c: DetectorConfig,
    s: DebounceState,
    f: FrameView,
    reference: Option<u32>,
    baseline: CalibrationBaseline,
)
    requires
        forall|i: int| 0 <= i < f.cells.len() ==> f.cells[i] is None,
    ensures
        reading(f, reference, baseline) is None,
        !fires(c, s, reading(f, reference, baseline)),
{
    assert(!f.has_valid());
}

/// With no baseline known, no frame is judged and none raises an event.
pub proof fn lemma_unset_baseline_no_event(
    c: DetectorConfig,
    s: DebounceState,
    f: FrameView,
    reference: Option<u32>,
)
    ensures
        reading(f, reference, CalibrationBaseline::Unset) is None,
        !fires(c, s, reading(f, reference, CalibrationBaseline::Unset)),
{
}

/// With a debounce count above one, a single violating frame between two
/// frames that do not violate raises no event, from any state.
pub proof fn lemma_isolated_violation_no_event(
    c: DetectorConfig,
    s: DebounceState,
    before: Option<int>,
    during: Option<int>,
    after: Option<int>,
)
    requires
        c.debounce_frames > 1,
        state_fits(c, s),
        !violates(c, before),
        violates(c, during),
        !violates(c, after),
    ensures
        !fires(c, s, before),
        !fires(c, next_state(c, s, before), during),
        !fires(c, next_state(c, next_state(c, s, before), during), after),
{
}

proof fn lemma_arming_run(c: DetectorConfig, rds: Seq<Option<int>>, k: int)
    requires
        0 <= k < c.debounce_frames,
        k <= rds.len(),
        forall|j: int| 0 <= j < rds.len() ==> violates(c, #[trigger] rds[j]),
    ensures
        state_after(c, DebounceState::Clear, rds.take(k)) == if k == 0 {
            DebounceState::Clear
        } else {
            DebounceState::Arming(k as u32)
        },
    decreases k,
{
    if k > 0 {
        lemma_arming_run(c, rds, k - 1);
        assert(rds.take(k).drop_last() =~= rds.take(k - 1));
        assert(rds.take(k).last() == rds[k - 1]);
    }
}

/// From `Clear`, a run of as many violating frames as the debounce count
/// raises exactly one event, on its last frame.
pub proof fn lemma_debounce_run_fires_once(c: DetectorConfig, rds: Seq<Option<int>>)
    requires
        c.debounce_frames > 0,
        rds.len() == c.debounce_frames,
        forall|j: int| 0 <= j < rds.len() ==> violates(c, #[trigger] rds[j]),
    ensures
        forall|k: int| 0 <= k < rds.len() ==> (fires_at(c, DebounceState::Clear, rds, k) <==> k == rds.len() - 1),
{
    assert forall|k: int| 0 <= k < rds.len() implies (fires_at(c, DebounceState::Clear, rds, k) <==> k
        == rds.len() - 1) by {
        lemma_arming_run(c, rds, k);
        assert(violates(c, rds[k]));
    }
}

/// Once triggered, the detector re-arms only on a frame whose nearest
/// corrected depth exceeds the threshold plus the margin; any other frame,
/// including one between the threshold and threshold plus margin, keeps it
/// triggered, and none raises a second event.
pub proof fn lemma_rearm_past_margin_only(c: DetectorConfig, rd: Option<int>)
    ensures
        next_state(c, DebounceState::Triggered, rd) == if clears(c, rd) {
            DebounceState::Clear
        } else {
            DebounceState::Triggered
        },
        !fires(c, DebounceState::Triggered, rd),
{
}

impl CollisionDetector {
    #[verifier::type_invariant]
    spec fn well_formed(&self) -> bool {
        &&& self.width > 0
        &&& self.height > 0
        &&& self.config.debounce_frames > 0
        &&& state_fits(self.config, self.state)
    }

    /// A detector for frames of `width` by `height`, in state `Clear`.
    pub fn new(width: usize, height: usize, config: DetectorConfig) -> (r: Result<
        CollisionDetector,
        ConfigError,
    >)
        ensures
            width > 0 && height > 0 && config.debounce_frames > 0 <==> r is Ok,
            width == 0 || height == 0 <==> r == Err::<CollisionDetector, ConfigError>(
                ConfigError::EmptyView,
            ),
            width > 0 && height > 0 && config.debounce_frames == 0 <==> r == Err::<
                CollisionDetector,
                ConfigError,
            >(ConfigError::ZeroDebounce),
            r matches Ok(d) ==> d@ == (DetectorView {
                width: width as nat,
                height: height as nat,
                config,
                state: DebounceState::Clear,
            }),
    {
        if width == 0 || height == 0 {
            Err(ConfigError::EmptyView)
        } else if config.debounce_frames == 0 {
            Err(ConfigError::ZeroDebounce)
        } else {
            Ok(CollisionDetector { width, height, config, state: DebounceState::Clear })
        }
    }

    pub fn width(&self) -> (r: usize)
        ensures
            r == self@.width,
            r > 0,
    {
        proof {
            use_type_invariant(self);
        }
        self.width
    }

    pub fn height(&self) -> (r: usize)
        ensures
            r == self@.height,
            r > 0,
    {
        proof {
            use_type_invariant(self);
        }
        self.height
    }

    pub fn config(&self) -> (r: DetectorConfig)
        ensures
            r == self@.config,
    {
        self.config
    }

    pub fn state(&self) -> (r: DebounceState)
        ensures
            r == self@.state,
    {
        self.state
    }

    /// Judges one frame. `reference_depth` is the frame's reading at the
    /// calibration pixel and `baseline` the current ground truth. Returns the
    /// event that this frame raises, if any, and advances the debounce state.
    pub fn feed_depth_map(
        &mut self,
        frame: &DepthFrame,
        reference_depth: Option<u32>,
        baseline: CalibrationBaseline,
    ) -> (r: Result<Option<CollisionEvent>, DetectError>)
        ensures
            r is Err <==> frame@.width != old(self)@.width || frame@.height != old(self)@.height,
            r is Err ==> final(self)@ == old(self)@,
            r is Ok ==> ({
                let rd = reading(frame@, reference_depth, baseline);
                &&& final(self)@ == (DetectorView {
                    state: next_state(old(self)@.config, old(self)@.state, rd),
                    ..old(self)@
                })
                &&& (r->Ok_0 is Some <==> fires(old(self)@.config, old(self)@.state, rd))
            }),
            r matches Ok(Some(ev)) ==> describes(ev, frame@, reference_depth, baseline),
    {
        proof {
            use_type_invariant(&*self);
        }
        if frame.width() != self.width || frame.height() != self.height {
            return Err(DetectError::ViewMismatch);
        }
        let nearest = frame.nearest();
        let ghost rd = reading(frame@, reference_depth, baseline);
        let judged: Option<(Pixel, i64, u32)> = match (baseline, reference_depth, nearest) {
            (CalibrationBaseline::Known(b), Some(r), Some((p, d))) => {
                proof {
                    let i = frame@.index_of(p.x as int, p.y as int);
                    let k = nearest_index(frame@);
                    assert(frame@.is_nearest(k));
                    if k < i {
                        assert(frame@.valid_at(k));
                    } else if i < k {
                        assert(frame@.valid_at(i));
                    }
                    assert(k == i);
                }
                Some((p, d as i64 - (r as i64 - b as i64), b))
            },
            _ => None,
        };
        let rd_exec: Option<i64> = match judged {
            Some((_, m, _)) => Some(m),
            None => None,
        };
        assert(widen(rd_exec) == rd);
        let (next, fire) = advance(self.config, self.state, rd_exec);
        self.state = next;
        if fire {
            match judged {
                Some((p, m, b)) => Ok(Some(CollisionEvent { location: p, measured_depth: m, baseline_depth: b })),
                None => Ok(None),
            }
        } else {
            Ok(None)
        }
    }
}

} // verus!
