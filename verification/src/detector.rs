//! The frame-classification state machine.
//!
//! One detector state is live at a time; each frame is handed to
//! [`DetectorState::detect`] together with the OCR words recognized on it
//! (when OCR ran and succeeded) and the current time, and the call
//! returns the next state and the side effect the caller owes: nothing,
//! or saving a snapshot of the frame. The states cycle: course detection
//! in the waiting room, watching for the race to finish, reading the
//! finishing position off the result screen, and absorbing frames until
//! the total-scores screen is captured.

use vstd::prelude::*;

use crate::courses::Course;
use crate::detector_course::CourseDetector;
use crate::detector_course::spec_course_post;
use crate::detector_position::PositionDetector;
use crate::detector_position::spec_position_post;
use crate::detector_race_finish::RaceFinishDetector;
use crate::detector_race_finish::spec_race_finish_post_any_peak;
use crate::detector_race_finish::find_banner_peak;
use crate::detector_total::CaptureTotalScoresDetector;
use crate::detector_total::spec_total_post;
use crate::frame::Frame;
use crate::frame::spec_blackout_top;
use crate::mogi_result::MogiResult;
use crate::text::contains_seq;
use crate::text::contains_chars;
use crate::text::normalize_chars;
use crate::text::normalize_seq;
use crate::text::to_char_vec;
use crate::word::Word;

verus! {

/// The side effect a detector step asks of its caller.
#[derive(Debug, Clone, Copy, PartialEq, Eq, Structural)]
pub enum DetectAction {
    /// Nothing to do for this frame.
    Nothing,
    /// Save a snapshot of this frame tagged as a race result.
    SaveRaceImage,
    /// Save a snapshot of this frame tagged as the total scores.
    SaveTotalImage,
}

/// The bundled reference image the race-finish detector matches against:
/// the results banner, as an encoded PNG. The matcher in use offers no
/// separate mask channel, so any masking must already be baked into
/// these bytes.
pub struct TemplateAssets {
    pub results_template_png: Vec<u8>,
}

/// A sequence with every ASCII space removed.
pub open spec fn remove_spaces_seq(s: Seq<char>) -> Seq<char>
    decreases s.len(),
{
    if s.len() == 0 {
        Seq::empty()
    } else if s[0] == ' ' {
        remove_spaces_seq(s.drop_first())
    } else {
        seq![s[0]] + remove_spaces_seq(s.drop_first())
    }
}

proof fn lemma_remove_spaces_snoc(s: Seq<char>, c: char)
    ensures
        remove_spaces_seq(s.push(c)) == if c == ' ' {
            remove_spaces_seq(s)
        } else {
            remove_spaces_seq(s).push(c)
        },
    decreases s.len(),
{
    reveal_with_fuel(remove_spaces_seq, 3);
    if s.len() == 0 {
        assert(s.push(c).drop_first() =~= Seq::<char>::empty());
        if c != ' ' {
            assert(remove_spaces_seq(s.push(c)) =~= seq![c]);
            assert(remove_spaces_seq(s).push(c) =~= seq![c]);
        }
    } else {
        assert(s.push(c).drop_first() =~= s.drop_first().push(c));
        lemma_remove_spaces_snoc(s.drop_first(), c);
        if c != ' ' && s[0] != ' ' {
            assert(seq![s[0]] + remove_spaces_seq(s.drop_first()).push(c) =~= (seq![s[0]]
                + remove_spaces_seq(s.drop_first())).push(c));
        }
    }
}

fn remove_spaces(v: &Vec<char>) -> (r: Vec<char>)
    ensures
        r@ == remove_spaces_seq(v@),
{
    let mut r: Vec<char> = Vec::new();
    let n = v.len();
    for i in 0..n
        invariant
            n == v@.len(),
            r@ == remove_spaces_seq(v@.take(i as int)),
    {
        proof {
            assert(v@.take(i + 1) =~= v@.take(i as int).push(v@[i as int]));
            lemma_remove_spaces_snoc(v@.take(i as int), v@[i as int]);
        }
        if v[i] != ' ' {
            r.push(v[i]);
        }
    }
    proof {
        assert(v@.take(n as int) =~= v@);
    }
    r
}

/// The normalized form an OCR fragment is checked against the error
/// keywords in: spaces removed, then normalized.
pub open spec fn spec_error_fragment(t: Seq<char>) -> Seq<char> {
    normalize_seq(remove_spaces_seq(t))
}

/// How many of the four error keywords occur in a fragment, counting one
/// per keyword.
pub open spec fn spec_keyword_hits(frag: Seq<char>) -> int {
    (if contains_seq(frag, normalize_seq("エラー"@)) {
        1int
    } else {
        0int
    }) + (if contains_seq(frag, normalize_seq("通信"@)) {
        1int
    } else {
        0int
    }) + (if contains_seq(frag, normalize_seq("はっせい"@)) {
        1int
    } else {
        0int
    }) + (if contains_seq(frag, normalize_seq("しました"@)) {
        1int
    } else {
        0int
    })
}

/// The hits one word contributes: fragments of fewer than two characters
/// carry no evidence and are dropped.
pub open spec fn spec_word_hits(w: Word) -> int {
    if w.text@.len() >= 2 {
        spec_keyword_hits(spec_error_fragment(w.text@))
    } else {
        0
    }
}

/// The error-keyword hits accumulated over the first `n` words.
pub open spec fn spec_error_hits_prefix(words: Seq<Word>, n: int) -> int
    decreases n,
{
    if n <= 0 {
        0
    } else {
        spec_error_hits_prefix(words, n - 1) + spec_word_hits(words[n - 1])
    }
}

/// The in-game error screen is on view: the keyword hits over all words
/// reach four. The count is cumulative across keywords and fragments, so
/// the check tolerates OCR splitting the message across fragments.
pub open spec fn spec_is_error_screen(words: Seq<Word>) -> bool {
    spec_error_hits_prefix(words, words.len() as int) >= 4
}

proof fn lemma_word_hits_bounds(w: Word)
    ensures
        0 <= spec_word_hits(w) <= 4,
{
}

proof fn lemma_error_hits_mono(words: Seq<Word>, n: int, m: int)
    requires
        0 <= n <= m,
    ensures
        spec_error_hits_prefix(words, n) <= spec_error_hits_prefix(words, m),
    decreases m,
{
    if n < m {
        lemma_error_hits_mono(words, n, m - 1);
        lemma_word_hits_bounds(words[m - 1]);
    }
}

/// Whether the words of this frame read as the in-game error screen.
pub fn is_error_screen(words: &Vec<Word>) -> (r: bool)
    ensures
        r == spec_is_error_screen(words@),
{
    let k1 = normalize_chars(&to_char_vec("エラー"));
    let k2 = normalize_chars(&to_char_vec("通信"));
    let k3 = normalize_chars(&to_char_vec("はっせい"));
    let k4 = normalize_chars(&to_char_vec("しました"));
    let n = words.len();
    let mut count: u32 = 0;
    let mut i: usize = 0;
    while i < n
        invariant
            n == words@.len(),
            i <= n,
            k1@ == normalize_seq("エラー"@),
            k2@ == normalize_seq("通信"@),
            k3@ == normalize_seq("はっせい"@),
            k4@ == normalize_seq("しました"@),
            count == spec_error_hits_prefix(words@, i as int),
            count < 4,
        decreases n - i,
    {
        let chars = to_char_vec(words[i].text.as_str());
        if chars.len() >= 2 {
            let frag = normalize_chars(&remove_spaces(&chars));
            let mut h: u32 = 0;
            if contains_chars(&frag, &k1) {
                h = h + 1;
            }
            if contains_chars(&frag, &k2) {
                h = h + 1;
            }
            if contains_chars(&frag, &k3) {
                h = h + 1;
            }
            if contains_chars(&frag, &k4) {
                h = h + 1;
            }
            proof {
                assert(h == spec_word_hits(words@[i as int]));
            }
            count = count + h;
            if count >= 4 {
                proof {
                    lemma_error_hits_mono(words@, i + 1, n as int);
                }
                return true;
            }
        }
        i = i + 1;
    }
    false
}


/// The live detector: exactly one of the four states at a time, replaced
/// wholesale on every frame.
pub enum DetectorState {
    Course(CourseDetector),
    RaceFinish(RaceFinishDetector),
    Position(PositionDetector),
    CaptureTotalScores(CaptureTotalScoresDetector),
}

impl DetectorState {
    pub open spec fn wf(&self) -> bool {
        match self {
            DetectorState::Course(d) => d.wf(),
            DetectorState::RaceFinish(d) => d.wf(),
            DetectorState::Position(d) => d.wf(),
            DetectorState::CaptureTotalScores(_) => true,
        }
    }

    /// The state classification starts in: resuming mid-race when the
    /// aggregate already has a course pending, else course detection.
    pub fn initial(mogi: &MogiResult) -> (s: DetectorState)
        ensures
            s.wf(),
            match mogi.current_course {
                Some(_) => match s {
                    DetectorState::RaceFinish(rf) => rf.window@.len() == 0,
                    _ => false,
                },
                None => match s {
                    DetectorState::Course(d) => d.streak == 0,
                    _ => false,
                },
            },
    {
        match mogi.current_course() {
            Some(_) => DetectorState::RaceFinish(RaceFinishDetector::new()),
            None => DetectorState::Course(CourseDetector::new()),
        }
    }

    /// Whether this state would consult OCR words on this frame: course
    /// detection only reads them once the blackout streak is full, the
    /// race-finish and position detectors check every frame for the error
    /// screen, and the total-scores wait reads none.
    pub fn wants_ocr(&self, frame: &Frame) -> (r: bool)
        requires
            frame.wf(),
            self.wf(),
        ensures
            r == match self {
                DetectorState::Course(d) => crate::detector_course::spec_course_streak(
                    d.streak as int,
                    spec_blackout_top(*frame),
                ) >= 5,
                DetectorState::RaceFinish(_) => true,
                DetectorState::Position(_) => true,
                DetectorState::CaptureTotalScores(_) => false,
            },
    {
        match self {
            DetectorState::Course(d) => {
                let black = crate::frame::blackout_top(frame);
                black && d.streak >= 4
            },
            DetectorState::RaceFinish(_) => true,
            DetectorState::Position(_) => true,
            DetectorState::CaptureTotalScores(_) => false,
        }
    }

    /// One frame of classification: consumes the state and returns its
    /// successor and the side effect owed. `words` carries the OCR result
    /// of this frame where OCR ran and succeeded; `None` is "no evidence
    /// this frame". What each state does is pinned by its own step
    /// predicate; for the race-finish state the template-match peak comes
    /// from the matcher, so the contract holds for some peak value.
    pub fn detect(
        self,
        frame: &Frame,
        words: Option<&Vec<Word>>,
        assets: &TemplateAssets,
        now_ms: u64,
        cat: &Vec<Course>,
        mogi: &mut MogiResult,
    ) -> (r: (DetectorState, DetectAction))
        requires
            frame.wf(),
            self.wf(),
        ensures
            r.0.wf(),
            match self {
                DetectorState::Course(d) => spec_course_post(
                    d,
                    cat@,
                    *frame,
                    match words {
                        Some(v) => Some(*v),
                        None => None,
                    },
                    r,
                    *old(mogi),
                    *final(mogi),
                ),
                DetectorState::RaceFinish(d) => spec_race_finish_post_any_peak(
                    d,
                    *frame,
                    match words {
                        Some(v) => Some(*v),
                        None => None,
                    },
                    r,
                    *old(mogi),
                    *final(mogi),
                ),
                DetectorState::Position(d) => spec_position_post(
                    d,
                    *frame,
                    match words {
                        Some(v) => Some(*v),
                        None => None,
                    },
                    now_ms as int,
                    r,
                    *old(mogi),
                    *final(mogi),
                ),
                DetectorState::CaptureTotalScores(d) => spec_total_post(
                    d,
                    now_ms as int,
                    r,
                    *old(mogi),
                    *final(mogi),
                ),
            },
    {
        match self {
            DetectorState::Course(d) => d.step(frame, words, cat, mogi),
            DetectorState::RaceFinish(d) => {
                // The matcher is costly GPU work; run it only when the
                // step would read the peak, that is once neither the
                // error screen nor the flag gate decides the frame.
                let gated = match words {
                    Some(ws) => is_error_screen(ws),
                    None => false,
                } || crate::frame::flag_visible(frame);
                let peak = if gated {
                    None
                } else {
                    find_banner_peak(frame, &assets.results_template_png)
                };
                d.step_with_peak(frame, words, peak, mogi)
            },
            DetectorState::Position(d) => d.step(frame, words, now_ms, mogi),
            DetectorState::CaptureTotalScores(d) => d.step(frame, now_ms, mogi),
        }
    }
}

/// Applies a GUI-originated replacement aggregate between frames. The
/// edit replaces the aggregate wholesale; when it introduces a pending
/// course where none was, the race-finish detector takes over at once so
/// classification does not wait for its own course detection.
pub fn apply_edit(state: DetectorState, mogi: &mut MogiResult, edited: MogiResult) -> (s:
    DetectorState)
    requires
        state.wf(),
    ensures
        s.wf(),
        *final(mogi) == edited,
        if old(mogi).current_course is None && edited.current_course is Some {
            match s {
                DetectorState::RaceFinish(rf) => rf.window@.len() == 0 && rf.race_kind
                    == crate::detector_race_finish::RaceKind::Internet,
                _ => false,
            }
        } else {
            s == state
        },
{
    let had_none = mogi.current_course().is_none();
    let has_some = edited.current_course.is_some();
    *mogi = edited;
    if had_none && has_some {
        DetectorState::RaceFinish(RaceFinishDetector::new())
    } else {
        state
    }
}

} // verus!
