//! Reading the finishing position off the result screen.
//!
//! The result screen highlights the player's row in yellow. Each frame,
//! the twelve row bands are probed and the first highlighted band names a
//! position. A position is only committed once four consecutive frames
//! agree on it; a disagreeing frame discards the run entirely, and a
//! frame with no highlighted row leaves the run as it is. On commit the
//! position is recorded in the aggregate, a race snapshot is requested,
//! and the total-scores detector takes over carrying the time at which
//! the committed run began. The shared error-screen check runs first and,
//! on a hit, abandons the race and restarts course detection.

use vstd::prelude::*;

use crate::detector::DetectAction;
use crate::detector::DetectorState;
use crate::detector::is_error_screen;
use crate::detector::spec_is_error_screen;
use crate::detector_course::CourseDetector;
use crate::detector_total::CaptureTotalScoresDetector;
use crate::frame::Frame;
use crate::frame::spec_yellow_band;
use crate::frame::yellow_band_index;
use crate::mogi_result::MogiResult;
use crate::race_result::Position;
use crate::race_result::RaceResult;
use crate::race_result::spec_position_from_index;
use crate::word::Word;

verus! {

/// Debounces the per-frame position reading into a committed position.
pub struct PositionDetector {
    /// The position the current run of agreeing frames has shown.
    pub run_position: Option<Position>,
    /// How many consecutive frames have shown it, at most three: the
    /// fourth commits.
    pub run_count: u64,
    /// When the current run's first frame was seen, in milliseconds.
    pub run_started_ms: u64,
}

impl PositionDetector {
    pub open spec fn wf(&self) -> bool {
        &&& self.run_count <= 3
    }

    pub fn new() -> (d: PositionDetector)
        ensures
            d.run_position is None,
            d.run_count == 0,
            d.run_started_ms == 0,
    {
        PositionDetector { run_position: None, run_count: 0, run_started_ms: 0 }
    }
}

/// The position the frame shows: the first highlighted row band, read as
/// a finishing rank.
pub open spec fn spec_observed_position(f: Frame) -> Option<Position> {
    match spec_yellow_band(f) {
        Some(b) => Some(spec_position_from_index(b)),
        None => None,
    }
}

/// One debounce step: `(run_position, run_count, run_started_ms)` advance
/// with the observation, and the fourth consecutive agreeing observation
/// yields a commit of that position together with the run's start time.
/// A frame with no observation changes nothing; a disagreeing
/// observation discards the run, itself included.
pub open spec fn spec_position_step(
    run: Option<Position>,
    count: int,
    started: int,
    obs: Option<Position>,
    now: int,
) -> (Option<Position>, int, int, Option<(Position, int)>) {
    match obs {
        None => (run, count, started, None),
        Some(p) => {
            if count == 0 {
                (Some(p), 1, now, None)
            } else if run == Some(p) {
                if count + 1 >= 4 {
                    (run, count, started, Some((p, started)))
                } else {
                    (run, count + 1, started, None)
                }
            } else {
                (None, 0, 0, None)
            }
        },
    }
}

/// What one position-detector step does: the error screen abandons the
/// race and restarts course detection; otherwise the debounce advances
/// with the frame's observed position, and a commit records the position
/// (which appends a race exactly when a course is pending), requests a
/// race snapshot, and hands over to the total-scores detector with the
/// run's start time.
pub open spec fn spec_position_post(
    d: PositionDetector,
    f: Frame,
    words: Option<Vec<Word>>,
    now: int,
    r: (DetectorState, DetectAction),
    m0: MogiResult,
    m1: MogiResult,
) -> bool {
    let error = match words {
        Some(ws) => spec_is_error_screen(ws@),
        None => false,
    };
    if error {
        &&& match r.0 {
            DetectorState::Course(nd) => nd.streak == 0,
            _ => false,
        }
        &&& r.1 == DetectAction::Nothing
        &&& m1.races@ == m0.races@
        &&& m1.current_course is None
        &&& m1.created_at_ms == m0.created_at_ms
    } else {
        let st = spec_position_step(
            d.run_position,
            d.run_count as int,
            d.run_started_ms as int,
            spec_observed_position(f),
            now,
        );
        match st.3 {
            Some(commit) => {
                &&& match r.0 {
                    DetectorState::CaptureTotalScores(td) => td.position_checked_at_ms == commit.1,
                    _ => false,
                }
                &&& r.1 == DetectAction::SaveRaceImage
                &&& match m0.current_course {
                    Some(c) => m1.races@ == m0.races@.push(
                        RaceResult { course: Some(c), position: commit.0 },
                    ) && m1.current_course is None,
                    None => m1 == m0,
                }
                &&& m1.created_at_ms == m0.created_at_ms
            },
            None => {
                &&& match r.0 {
                    DetectorState::Position(nd) => nd.run_position == st.0 && nd.run_count == st.1
                        && nd.run_started_ms == st.2,
                    _ => false,
                }
                &&& r.1 == DetectAction::Nothing
                &&& m1 == m0
            },
        }
    }
}

impl PositionDetector {
    /// One frame of position detection; see [`spec_position_post`].
    pub fn step(
        self,
        frame: &Frame,
        words: Option<&Vec<Word>>,
        now_ms: u64,
        mogi: &mut MogiResult,
    ) -> (r: (DetectorState, DetectAction))
        requires
            frame.wf(),
            self.wf(),
        ensures
            r.0.wf(),
            spec_position_post(
                self,
                *frame,
                match words {
                    Some(v) => Some(*v),
                    None => None,
                },
                now_ms as int,
                r,
                *old(mogi),
                *final(mogi),
            ),
    {
        match words {
            Some(ws) => {
                if is_error_screen(ws) {
                    mogi.reset_current_course();
                    return (DetectorState::Course(CourseDetector::new()), DetectAction::Nothing);
                }
            },
            None => {},
        }
        match yellow_band_index(frame) {
            None => (DetectorState::Position(self), DetectAction::Nothing),
            Some(b) => {
                let p = Position::from_index(b);
                let same_run = match self.run_position {
                    Some(q) => q == p,
                    None => false,
                };
                if self.run_count == 0 {
                    (
                        DetectorState::Position(
                            PositionDetector {
                                run_position: Some(p),
                                run_count: 1,
                                run_started_ms: now_ms,
                            },
                        ),
                        DetectAction::Nothing,
                    )
                } else if same_run {
                    if self.run_count + 1 >= 4 {
                        mogi.set_current_position(p);
                        (
                            DetectorState::CaptureTotalScores(
                                CaptureTotalScoresDetector::new(self.run_started_ms),
                            ),
                            DetectAction::SaveRaceImage,
                        )
                    } else {
                        (
                            DetectorState::Position(
                                PositionDetector {
                                    run_position: self.run_position,
                                    run_count: self.run_count + 1,
                                    run_started_ms: self.run_started_ms,
                                },
                            ),
                            DetectAction::Nothing,
                        )
                    }
                } else {
                    (
                        DetectorState::Position(PositionDetector::new()),
                        DetectAction::Nothing,
                    )
                }
            },
        }
    }
}


/// The debounce after feeding a run of per-frame observations, with the
/// time each was seen at: the state it ends on, or the first commit
/// reached (later observations are not consumed). One feed step is
/// exactly the debounce part of one [`spec_position_post`] step.
pub open spec fn spec_position_feed(
    run: Option<Position>,
    count: int,
    started: int,
    obs: Seq<Option<Position>>,
    times: Seq<int>,
) -> (Option<Position>, int, int, Option<(Position, int)>)
    decreases obs.len(),
{
    if obs.len() == 0 {
        (run, count, started, None)
    } else {
        let st = spec_position_step(run, count, started, obs[0], times[0]);
        match st.3 {
            Some(_) => st,
            None => spec_position_feed(st.0, st.1, st.2, obs.drop_first(), times.drop_first()),
        }
    }
}

/// A single debounce step commits only as the fourth consecutive
/// agreeing observation: a commit needs a run of three already counted,
/// and the observation must repeat that run's position.
pub proof fn lemma_commit_is_fourth_agreement(
    run: Option<Position>,
    count: int,
    started: int,
    obs: Option<Position>,
    now: int,
)
    ensures
        spec_position_step(run, count, started, obs, now).3 matches Some(commit) ==> {
            &&& count >= 3
            &&& obs == Some(commit.0)
            &&& run == Some(commit.0)
        },
{
}

/// The run counter never jumps: one step grows it by at most one, and it
/// grows only when the observation opens a run or repeats the running
/// position; any other observation resets it to zero.
pub proof fn lemma_count_grows_only_on_agreement(
    run: Option<Position>,
    count: int,
    started: int,
    obs: Option<Position>,
    now: int,
)
    requires
        count >= 0,
    ensures
        spec_position_step(run, count, started, obs, now).1 <= count + 1,
        spec_position_step(run, count, started, obs, now).1 > count ==> (count == 0 || obs == run),
        (match obs {
            Some(_) => count > 0 && obs != run,
            None => false,
        }) ==> spec_position_step(run, count, started, obs, now).1 == 0,
{
}

/// Debounce correctness on a disagreeing stream: as long as consecutive
/// observed positions keep disagreeing, nothing is ever committed —
/// an intervening disagreement discards the run entirely, so an
/// alternating stream never reaches four.
pub proof fn lemma_position_debounce_alternating(
    run: Option<Position>,
    count: int,
    started: int,
    obs: Seq<Option<Position>>,
    times: Seq<int>,
)
    requires
        obs.len() == times.len(),
        forall|i: int| 0 <= i < obs.len() ==> (#[trigger] obs[i]) is Some,
        forall|i: int| 0 <= i < obs.len() - 1 ==> #[trigger] obs[i] != obs[i + 1],
        count <= 1,
        count == 1 && obs.len() > 0 ==> run != obs[0],
    ensures
        spec_position_feed(run, count, started, obs, times).3 is None,
    decreases obs.len(),
{
    if obs.len() > 0 {
        let st = spec_position_step(run, count, started, obs[0], times[0]);
        assert(st.3 is None);
        assert(forall|i: int|
            0 <= i < obs.drop_first().len() ==> (#[trigger] obs.drop_first()[i]) is Some);
        assert(forall|i: int|
            0 <= i < obs.drop_first().len() - 1 ==> #[trigger] obs.drop_first()[i]
                != obs.drop_first()[i + 1]);
        if obs.len() > 1 {
            assert(obs.drop_first()[0] == obs[1]);
            assert(obs[0] != obs[1]);
        }
        lemma_position_debounce_alternating(
            st.0,
            st.1,
            st.2,
            obs.drop_first(),
            times.drop_first(),
        );
    }
}

} // verus!
