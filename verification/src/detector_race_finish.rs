//! Watching a running race for the results banner.
//!
//! While the race runs, a flag icon sits at a fixed spot; as long as any
//! of its probe points shows the icon's signature, nothing else is
//! checked. Once the flag is gone, the frame is matched against the
//! bundled results-banner template; a match whose peak falls inside a
//! narrow expected rectangle counts as one positive frame. Positives are
//! debounced over a window of the last four frames: three positives hand
//! over to the position detector. The shared error-screen check runs
//! first and, on a hit, abandons the race and restarts course detection.

use vstd::prelude::*;

use crate::detector::DetectAction;
use crate::detector::DetectorState;
use crate::detector::is_error_screen;
use crate::detector::spec_is_error_screen;
use crate::detector_course::CourseDetector;
use crate::detector_position::PositionDetector;
use crate::frame::Frame;
use crate::frame::flag_visible;
use crate::frame::spec_flag_visible;
use crate::mogi_result::MogiResult;
use crate::word::Word;

verus! {

/// Which kind of race is being watched; the expected banner position
/// differs between them.
#[derive(Debug, Clone, Copy, PartialEq, Eq, Structural)]
pub enum RaceKind {
    Internet,
    Local,
}

/// Watches for the race to finish.
pub struct RaceFinishDetector {
    pub race_kind: RaceKind,
    /// The last up-to-four per-frame banner signals, oldest first.
    pub window: Vec<bool>,
}

impl RaceFinishDetector {
    pub open spec fn wf(&self) -> bool {
        self.window@.len() <= 4
    }

    pub fn new() -> (d: RaceFinishDetector)
        ensures
            d.race_kind == RaceKind::Internet,
            d.window@.len() == 0,
    {
        RaceFinishDetector { race_kind: RaceKind::Internet, window: Vec::new() }
    }
}

/// The window after one more signal: the signal is appended and the
/// oldest entry leaves once more than four are held.
pub open spec fn spec_push_window4(w: Seq<bool>, b: bool) -> Seq<bool> {
    let p = w.push(b);
    if p.len() > 4 {
        p.drop_first()
    } else {
        p
    }
}

/// How many of the window's signals are positive.
pub open spec fn spec_count_true(w: Seq<bool>) -> int
    decreases w.len(),
{
    if w.len() == 0 {
        0
    } else {
        (if w[0] {
            1int
        } else {
            0int
        }) + spec_count_true(w.drop_first())
    }
}

/// The template-match peak counts as the results banner: its location
/// falls in a narrow band whose horizontal range depends on the race
/// kind. A frame with no usable match counts negative.
pub open spec fn spec_banner_positive(kind: RaceKind, peak: Option<(u32, u32)>) -> bool {
    match peak {
        None => false,
        Some(p) => {
            let xmin: u32 = if kind == RaceKind::Internet {
                555
            } else {
                595
            };
            let xmax: u32 = if kind == RaceKind::Internet {
                568
            } else {
                605
            };
            xmin <= p.0 <= xmax && 42 <= p.1 <= 57
        },
    }
}

/// Relies on `template_matching::TemplateMatcher::match_template` (sum of
/// squared differences) and `template_matching::find_extremes`: the
/// location of the maximum of the correlation surface between the frame's
/// luma image and the results-banner template, or `None` when the frame
/// or template cannot be prepared, the decoded template is larger than
/// the frame (the matcher would underflow on it), or matching yields
/// nothing. This matcher version offers no masked variant, so the match
/// is unmasked; callers wanting a mask must bake it into the template
/// bytes. The surface comes from GPU floating-point work, so nothing is
/// assumed about the returned location; `TemplateMatcher::new` aborts the
/// process on a machine with no GPU adapter.
#[verifier::external_body]
pub(crate) fn find_banner_peak(frame: &Frame, template_png: &Vec<u8>) -> (r: Option<(u32, u32)>) {
    let img: image::RgbImage = image::ImageBuffer::from_raw(1280, 720, frame.pixels.clone())?;
    let input = image::DynamicImage::ImageRgb8(img).to_luma32f();
    let template = image::load_from_memory(template_png).ok()?.to_luma32f();
    if template.width() > input.width() || template.height() > input.height() {
        return None;
    }
    let mut matcher = template_matching::TemplateMatcher::new();
    matcher.match_template(
        &input,
        &template,
        template_matching::MatchTemplateMethod::SumOfSquaredDifferences,
    );
    let result = matcher.wait_for_result()?;
    Some(template_matching::find_extremes(&result).max_value_location)
}

/// What one race-finish step does, given the template-match peak of the
/// frame: the error screen abandons the race and restarts course
/// detection; a visible flag leaves everything untouched; otherwise the
/// banner signal is pushed into the window, and three positives among the
/// last four hand over to the position detector.
pub open spec fn spec_race_finish_post(
    d: RaceFinishDetector,
    f: Frame,
    words: Option<Vec<Word>>,
    peak: Option<(u32, u32)>,
    r: (DetectorState, DetectAction),
    m0: MogiResult,
    m1: MogiResult,
) -> bool {
    let error = match words {
        Some(ws) => spec_is_error_screen(ws@),
        None => false,
    };
    if error {
        &&& match r.0 {
            DetectorState::Course(nd) => nd.streak == 0,
            _ => false,
        }
        &&& r.1 == DetectAction::Nothing
        &&& m1.races@ == m0.races@
        &&& m1.current_course is None
        &&& m1.created_at_ms == m0.created_at_ms
    } else if spec_flag_visible(f) {
        &&& r.0 == DetectorState::RaceFinish(d)
        &&& r.1 == DetectAction::Nothing
        &&& m1 == m0
    } else {
        let w2 = spec_push_window4(d.window@, spec_banner_positive(d.race_kind, peak));
        &&& if spec_count_true(w2) >= 3 {
            match r.0 {
                DetectorState::Position(pd) => pd.run_position is None && pd.run_count == 0,
                _ => false,
            }
        } else {
            match r.0 {
                DetectorState::RaceFinish(nd) => nd.race_kind == d.race_kind && nd.window@ == w2,
                _ => false,
            }
        }
        &&& r.1 == DetectAction::Nothing
        &&& m1 == m0
    }
}

/// [`spec_race_finish_post`] holds for some template-match peak: the form
/// a caller that ran the matcher itself can rely on.
pub open spec fn spec_race_finish_post_any_peak(
    d: RaceFinishDetector,
    f: Frame,
    words: Option<Vec<Word>>,
    r: (DetectorState, DetectAction),
    m0: MogiResult,
    m1: MogiResult,
) -> bool {
    exists|peak: Option<(u32, u32)>| #[trigger] spec_race_finish_post(d, f, words, peak, r, m0, m1)
}

impl RaceFinishDetector {
    /// Whether the debounce window reads as the result screen: at least
    /// three of the last four frames were positive.
    pub fn is_on_result(&self) -> (r: bool)
        ensures
            r == (spec_count_true(self.window@) >= 3),
    {
        count_true(&self.window) >= 3
    }

    /// One frame of race-finish watching, with the template-match peak
    /// supplied by the caller; see [`spec_race_finish_post`].
    pub fn step_with_peak(
        self,
        frame: &Frame,
        words: Option<&Vec<Word>>,
        peak: Option<(u32, u32)>,
        mogi: &mut MogiResult,
    ) -> (r: (DetectorState, DetectAction))
        requires
            frame.wf(),
            self.wf(),
        ensures
            r.0.wf(),
            spec_race_finish_post(
                self,
                *frame,
                match words {
                    Some(v) => Some(*v),
                    None => None,
                },
                peak,
                r,
                *old(mogi),
                *final(mogi),
            ),
    {
        match words {
            Some(ws) => {
                if is_error_screen(ws) {
                    mogi.reset_current_course();
                    return (DetectorState::Course(CourseDetector::new()), DetectAction::Nothing);
                }
            },
            None => {},
        }
        if flag_visible(frame) {
            return (DetectorState::RaceFinish(self), DetectAction::Nothing);
        }
        let positive = banner_positive_exec(self.race_kind, peak);
        let ghost w0 = self.window@;
        let mut window = self.window;
        window.push(positive);
        if window.len() > 4 {
            window.remove(0);
        }
        proof {
            assert(window@ =~= spec_push_window4(w0, positive));
        }
        if count_true(&window) >= 3 {
            return (DetectorState::Position(PositionDetector::new()), DetectAction::Nothing);
        }
        (
            DetectorState::RaceFinish(RaceFinishDetector { race_kind: self.race_kind, window }),
            DetectAction::Nothing,
        )
    }
}

fn banner_positive_exec(kind: RaceKind, peak: Option<(u32, u32)>) -> (r: bool)
    ensures
        r == spec_banner_positive(kind, peak),
{
    match peak {
        None => false,
        Some(p) => {
            let xmin: u32 = if kind == RaceKind::Internet {
                555
            } else {
                595
            };
            let xmax: u32 = if kind == RaceKind::Internet {
                568
            } else {
                605
            };
            xmin <= p.0 && p.0 <= xmax && 42 <= p.1 && p.1 <= 57
        },
    }
}

fn count_true(w: &Vec<bool>) -> (r: usize)
    ensures
        r == spec_count_true(w@),
        r <= w@.len(),
{
    let n = w.len();
    let mut r: usize = 0;
    let mut i: usize = 0;
    proof {
        assert(w@.skip(0) =~= w@);
    }
    while i < n
        invariant
            n == w@.len(),
            i <= n,
            r <= i,
            spec_count_true(w@) == r + spec_count_true(w@.skip(i as int)),
        decreases n - i,
    {
        proof {
            assert(w@.skip(i as int)[0] == w@[i as int]);
            assert(w@.skip(i as int).drop_first() =~= w@.skip(i + 1));
        }
        if w[i] {
            r = r + 1;
        }
        i = i + 1;
    }
    proof {
        assert(w@.skip(n as int) =~= Seq::<bool>::empty());
    }
    r
}

} // verus!
