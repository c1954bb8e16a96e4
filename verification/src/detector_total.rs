//! Capturing the total-scores screen.
//!
//! After a position commits, the game lingers on the race results before
//! showing the session's total scores. This detector absorbs frames until
//! about four seconds have passed since the committed run began, then
//! requests a snapshot of the totals and restarts course detection.

use vstd::prelude::*;

use crate::detector::DetectAction;
use crate::detector::DetectorState;
use crate::detector_course::CourseDetector;
use crate::frame::Frame;
use crate::mogi_result::MogiResult;

verus! {

/// Waits out the pause before the total-scores screen.
pub struct CaptureTotalScoresDetector {
    /// When the committed position run began, in milliseconds.
    pub position_checked_at_ms: u64,
}

impl CaptureTotalScoresDetector {
    pub fn new(position_checked_at_ms: u64) -> (d: CaptureTotalScoresDetector)
        ensures
            d.position_checked_at_ms == position_checked_at_ms,
    {
        CaptureTotalScoresDetector { position_checked_at_ms }
    }
}

/// What one total-scores step does: nothing while less than four seconds
/// have passed since the committed run began (or while the clock reads
/// earlier than that moment); afterwards a totals snapshot is requested
/// and course detection restarts. The aggregate is never touched.
pub open spec fn spec_total_post(
    d: CaptureTotalScoresDetector,
    now: int,
    r: (DetectorState, DetectAction),
    m0: MogiResult,
    m1: MogiResult,
) -> bool {
    &&& if now >= d.position_checked_at_ms + 4000 {
        &&& match r.0 {
            DetectorState::Course(nd) => nd.streak == 0,
            _ => false,
        }
        &&& r.1 == DetectAction::SaveTotalImage
    } else {
        &&& r.0 == DetectorState::CaptureTotalScores(d)
        &&& r.1 == DetectAction::Nothing
    }
    &&& m1 == m0
}

impl CaptureTotalScoresDetector {
    /// One frame of waiting for the total-scores screen; see
    /// [`spec_total_post`].
    pub fn step(self, _frame: &Frame, now_ms: u64, mogi: &mut MogiResult) -> (r: (
        DetectorState,
        DetectAction,
    ))
        ensures
            r.0.wf(),
            spec_total_post(self, now_ms as int, r, *old(mogi), *final(mogi)),
    {
        if now_ms >= self.position_checked_at_ms && now_ms - self.position_checked_at_ms >= 4000 {
            (DetectorState::Course(CourseDetector::new()), DetectAction::SaveTotalImage)
        } else {
            (DetectorState::CaptureTotalScores(self), DetectAction::Nothing)
        }
    }
}

} // verus!
