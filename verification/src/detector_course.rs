//! Course detection in the waiting room.
//!
//! The waiting room blacks out the top of the frame while the course name
//! renders near the bottom. The detector counts consecutive frames whose
//! top band is uniformly near-black; only once five in a row have been
//! seen does it consult the OCR words of the frame, filter them down to
//! course-name candidates, and try the exact and then the nearest
//! resolver. A resolved course opens the race and hands over to the
//! race-finish detector.

use vstd::prelude::*;

use crate::courses::Course;
use crate::courses::get_course_by_words;
use crate::courses::get_course_by_words_with_nearest;
use crate::courses::spec_get_course_by_words;
use crate::courses::spec_get_course_by_words_with_nearest;
use crate::courses::word_console;
use crate::courses::word_console_exec;
use crate::detector::DetectAction;
use crate::detector::DetectorState;
use crate::detector_race_finish::RaceFinishDetector;
use crate::detector_race_finish::RaceKind;
use crate::frame::FRAME_HEIGHT;
use crate::frame::Frame;
use crate::frame::blackout_top;
use crate::frame::spec_blackout_top;
use crate::mogi_result::MogiResult;
use crate::text::to_char_vec;
use crate::word::Word;

verus! {

/// Watches for the course waiting room and reads the course name.
pub struct CourseDetector {
    /// How many consecutive frames, up to five, have shown the blackout
    /// signature.
    pub streak: u64,
}

impl CourseDetector {
    pub open spec fn wf(&self) -> bool {
        self.streak <= 5
    }

    pub fn new() -> (d: CourseDetector)
        ensures
            d.streak == 0,
    {
        CourseDetector { streak: 0 }
    }

    /// Whether the blackout streak has filled: the stable waiting-room
    /// signature on which OCR is consulted.
    pub fn is_on_course_wait_room(&self) -> (r: bool)
        ensures
            r == (self.streak >= 5),
    {
        self.streak >= 5
    }
}

/// The blackout streak after one more frame: another blackout frame
/// extends it (it saturates at five), anything else resets it.
pub open spec fn spec_course_streak(streak: int, black: bool) -> int {
    if black {
        if streak >= 5 {
            5
        } else {
            streak + 1
        }
    } else {
        0
    }
}

/// A word qualifies as a course-name candidate: it sits in the bottom
/// band of the frame (at or below 950/1080 of the frame height), and it
/// is either at least six characters long or carries a series tag.
pub open spec fn spec_course_candidate(w: Word) -> bool {
    &&& 1080 * (w.y as int) >= 950 * (FRAME_HEIGHT as int)
    &&& (w.text@.len() >= 6 || word_console(w.text@) is Some)
}

/// The candidate words, in order.
pub open spec fn spec_candidates(words: Seq<Word>) -> Seq<Word>
    decreases words.len(),
{
    if words.len() == 0 {
        Seq::empty()
    } else if spec_course_candidate(words[0]) {
        seq![words[0]] + spec_candidates(words.drop_first())
    } else {
        spec_candidates(words.drop_first())
    }
}

proof fn lemma_candidates_snoc(words: Seq<Word>, w: Word)
    ensures
        spec_candidates(words.push(w)) == if spec_course_candidate(w) {
            spec_candidates(words).push(w)
        } else {
            spec_candidates(words)
        },
    decreases words.len(),
{
    reveal_with_fuel(spec_candidates, 3);
    if words.len() == 0 {
        assert(words.push(w).drop_first() =~= Seq::<Word>::empty());
        if spec_course_candidate(w) {
            assert(spec_candidates(words.push(w)) =~= seq![w]);
            assert(spec_candidates(words).push(w) =~= seq![w]);
        }
    } else {
        assert(words.push(w).drop_first() =~= words.drop_first().push(w));
        lemma_candidates_snoc(words.drop_first(), w);
        if spec_course_candidate(w) && spec_course_candidate(words[0]) {
            assert(seq![words[0]] + spec_candidates(words.drop_first()).push(w) =~= (seq![words[0]]
                + spec_candidates(words.drop_first())).push(w));
        }
    }
}

fn is_course_candidate(w: &Word) -> (r: bool)
    ensures
        r == spec_course_candidate(*w),
{
    if w.y < 634 {
        proof {
            assert(1080 * (w.y as int) < 950 * (FRAME_HEIGHT as int));
        }
        return false;
    }
    proof {
        assert(1080 * (w.y as int) >= 950 * (FRAME_HEIGHT as int));
    }
    if to_char_vec(w.text.as_str()).len() >= 6 {
        return true;
    }
    word_console_exec(w.text.as_str()).is_some()
}

/// The words that qualify as course-name candidates, in order.
pub fn filter_for_course_texts(words: &Vec<Word>) -> (r: Vec<Word>)
    ensures
        r@ == spec_candidates(words@),
{
    let mut r: Vec<Word> = Vec::new();
    let n = words.len();
    for i in 0..n
        invariant
            n == words@.len(),
            r@ == spec_candidates(words@.take(i as int)),
    {
        proof {
            assert(words@.take(i + 1) =~= words@.take(i as int).push(words@[i as int]));
            lemma_candidates_snoc(words@.take(i as int), words@[i as int]);
        }
        if is_course_candidate(&words[i]) {
            r.push(words[i].clone());
        }
    }
    proof {
        assert(words@.take(n as int) =~= words@);
    }
    r
}

/// What the OCR words of a frame resolve to: the candidates are tried
/// against the exact resolver first, then against the nearest resolver
/// with distance threshold four.
pub open spec fn spec_course_resolve(cat: Seq<Course>, words: Seq<Word>) -> Option<Course> {
    let cands = spec_candidates(words);
    match spec_get_course_by_words(cat, cands) {
        Some(c) => Some(c),
        None => spec_get_course_by_words_with_nearest(cat, cands, 4),
    }
}

/// What a course-detector step resolves: nothing until the streak has
/// reached five, and nothing when OCR produced no words this frame.
pub open spec fn spec_course_try_resolve(
    cat: Seq<Course>,
    streak: int,
    words: Option<Vec<Word>>,
) -> Option<Course> {
    if streak >= 5 {
        match words {
            Some(ws) => spec_course_resolve(cat, ws@),
            None => None,
        }
    } else {
        None
    }
}

/// What one course-detector step does: the streak advances with the
/// frame's blackout signature; on a resolved course the aggregate's
/// current course is set and the race-finish detector takes over, else
/// the detector keeps waiting and the aggregate is untouched.
pub open spec fn spec_course_post(
    d: CourseDetector,
    cat: Seq<Course>,
    f: Frame,
    words: Option<Vec<Word>>,
    r: (DetectorState, DetectAction),
    m0: MogiResult,
    m1: MogiResult,
) -> bool {
    let ns = spec_course_streak(d.streak as int, spec_blackout_top(f));
    match spec_course_try_resolve(cat, ns, words) {
        Some(c) => {
            &&& match r.0 {
                DetectorState::RaceFinish(rf) => rf.race_kind == RaceKind::Internet
                    && rf.window@.len() == 0,
                _ => false,
            }
            &&& r.1 == DetectAction::Nothing
            &&& m1.races@ == m0.races@
            &&& m1.current_course == Some(c)
            &&& m1.created_at_ms == m0.created_at_ms
        },
        None => {
            &&& match r.0 {
                DetectorState::Course(nd) => nd.streak == ns,
                _ => false,
            }
            &&& r.1 == DetectAction::Nothing
            &&& m1 == m0
        },
    }
}

impl CourseDetector {
    /// One frame of course detection; see [`spec_course_post`].
    pub fn step(
        self,
        frame: &Frame,
        words: Option<&Vec<Word>>,
        cat: &Vec<Course>,
        mogi: &mut MogiResult,
    ) -> (r: (DetectorState, DetectAction))
        requires
            frame.wf(),
            self.wf(),
        ensures
            r.0.wf(),
            spec_course_post(
                self,
                cat@,
                *frame,
                match words {
                    Some(v) => Some(*v),
                    None => None,
                },
                r,
                *old(mogi),
                *final(mogi),
            ),
    {
        let black = blackout_top(frame);
        let ns: u64 = if black {
            if self.streak >= 5 {
                5
            } else {
                self.streak + 1
            }
        } else {
            0
        };
        if ns >= 5 {
            match words {
                Some(ws) => {
                    let cands = filter_for_course_texts(ws);
                    let resolved = match get_course_by_words(cat, &cands) {
                        Some(c) => Some(c),
                        None => get_course_by_words_with_nearest(cat, &cands, 4),
                    };
                    match resolved {
                        Some(c) => {
                            mogi.set_current_course(c);
                            return (
                                DetectorState::RaceFinish(RaceFinishDetector::new()),
                                DetectAction::Nothing,
                            );
                        },
                        None => {},
                    }
                },
                None => {},
            }
        }
        (DetectorState::Course(CourseDetector { streak: ns }), DetectAction::Nothing)
    }
}


/// The outcome of feeding a run of frames, with their per-frame OCR
/// words, to the course detector: the streak it ends on and the course
/// resolved by the first frame that resolves one, if any. One feed step
/// is exactly one [`spec_course_post`] step that stays in course
/// detection or hands over.
pub open spec fn spec_course_feed(
    cat: Seq<Course>,
    streak: int,
    frames: Seq<Frame>,
    words: Seq<Option<Vec<Word>>>,
) -> (int, Option<Course>)
    decreases frames.len(),
{
    if frames.len() == 0 {
        (streak, None)
    } else {
        let ns = spec_course_streak(streak, spec_blackout_top(frames[0]));
        match spec_course_try_resolve(cat, ns, words[0]) {
            Some(c) => (ns, Some(c)),
            None => spec_course_feed(cat, ns, frames.drop_first(), words.drop_first()),
        }
    }
}

proof fn lemma_course_feed_resolves(
    cat: Seq<Course>,
    streak: int,
    frames: Seq<Frame>,
    words: Seq<Option<Vec<Word>>>,
    c: Course,
)
    requires
        frames.len() == words.len(),
        frames.len() >= 1,
        0 <= streak <= 5,
        streak + frames.len() >= 5,
        forall|i: int| 0 <= i < frames.len() ==> spec_blackout_top(#[trigger] frames[i]),
        forall|i: int|
            0 <= i < frames.len() - 1 ==> match #[trigger] words[i] {
                Some(ws) => spec_course_resolve(cat, ws@) is None,
                None => true,
            },
        words[frames.len() - 1] matches Some(ws) && spec_course_resolve(cat, ws@) == Some(c),
    ensures
        spec_course_feed(cat, streak, frames, words) == (5int, Some(c)),
    decreases frames.len(),
{
    let ns = spec_course_streak(streak, spec_blackout_top(frames[0]));
    if frames.len() == 1 {
        assert(ns == 5);
    } else {
        assert(match words[0] {
            Some(ws) => spec_course_resolve(cat, ws@) is None,
            None => true,
        });
        lemma_course_feed_resolves(cat, ns, frames.drop_first(), words.drop_first(), c);
    }
}

/// Liveness of course detection: starting from a fresh detector, a run
/// of at least six frames that all show the blackout signature, none of
/// whose words resolve a course except the last, whose words resolve
/// course `c`, ends with `c` resolved — the detector sets the current
/// course and hands over to the race-finish detector on that last frame.
pub proof fn lemma_course_detector_liveness(
    cat: Seq<Course>,
    frames: Seq<Frame>,
    words: Seq<Option<Vec<Word>>>,
    c: Course,
)
    requires
        frames.len() == words.len(),
        frames.len() >= 6,
        forall|i: int| 0 <= i < frames.len() ==> spec_blackout_top(#[trigger] frames[i]),
        forall|i: int|
            0 <= i < frames.len() - 1 ==> match #[trigger] words[i] {
                Some(ws) => spec_course_resolve(cat, ws@) is None,
                None => true,
            },
        words[frames.len() - 1] matches Some(ws) && spec_course_resolve(cat, ws@) == Some(c),
    ensures
        spec_course_feed(cat, 0, frames, words) == (5int, Some(c)),
{
    lemma_course_feed_resolves(cat, 0, frames, words, c);
}

} // verus!
