use lounge_memo::catalog::all_courses;
use lounge_memo::courses::{Console, Course};
use lounge_memo::detector::{apply_edit, DetectAction, DetectorState, TemplateAssets};
use lounge_memo::detector_course::CourseDetector;
use lounge_memo::detector_position::PositionDetector;
use lounge_memo::detector_race_finish::RaceFinishDetector;
use lounge_memo::detector_total::CaptureTotalScoresDetector;
use lounge_memo::frame::{Frame, FRAME_HEIGHT, FRAME_WIDTH};
use lounge_memo::mogi_result::MogiResult;
use lounge_memo::race_result::Position;
use lounge_memo::word::Word;

fn solid_frame(v: u8) -> Frame {
    Frame::from_pixels(vec![v; 3 * FRAME_WIDTH * FRAME_HEIGHT]).unwrap()
}

fn black_frame() -> Frame {
    solid_frame(0)
}

/// Mid-gray everywhere: neither the blackout signature, nor the flag
/// icon's probe signatures, nor highlight yellow.
fn gray_frame() -> Frame {
    solid_frame(100)
}

fn paint(pixels: &mut [u8], x: usize, y: usize, rgb: (u8, u8, u8)) {
    let i = 3 * (y * FRAME_WIDTH + x);
    pixels[i] = rgb.0;
    pixels[i + 1] = rgb.1;
    pixels[i + 2] = rgb.2;
}

/// A gray frame whose result-screen band `b` probes read highlight yellow.
fn yellow_band_frame(b: usize) -> Frame {
    let mut pixels = vec![100u8; 3 * FRAME_WIDTH * FRAME_HEIGHT];
    let y0 = 54 + 52 * b;
    for k in 0..5 {
        paint(&mut pixels, 1133, y0 + k, (0xFF, 0xFF, 0x00));
    }
    Frame::from_pixels(pixels).unwrap()
}

fn course_words() -> Vec<Word> {
    vec![
        Word::new("ヨッシーサーキット".to_string(), 100, 700, 20, 200),
        Word::new("GC".to_string(), 320, 700, 20, 40),
    ]
}

fn error_words() -> Vec<Word> {
    vec![
        Word::new("通信エラーか".to_string(), 0, 0, 0, 0),
        Word::new("はっせいしました".to_string(), 0, 0, 0, 0),
    ]
}

#[test]
fn test_course_detector_liveness() {
    let cat = all_courses();
    let mut mogi = MogiResult::new();
    let mut state = DetectorState::Course(CourseDetector::new());
    let assets = TemplateAssets { results_template_png: Vec::new() };
    // five blackout frames with no OCR evidence: stays in course detection
    for _ in 0..5 {
        let (next, action) = state.detect(&black_frame(), None, &assets, 0, &cat, &mut mogi);
        assert!(matches!(next, DetectorState::Course(_)));
        assert_eq!(action, DetectAction::Nothing);
        state = next;
    }
    assert!(mogi.current_course().is_none());
    // a sixth blackout frame whose words resolve a course: hands over
    let words = course_words();
    let (next, action) = state.detect(&black_frame(), Some(&words), &assets, 0, &cat, &mut mogi);
    assert!(matches!(next, DetectorState::RaceFinish(_)));
    assert_eq!(action, DetectAction::Nothing);
    assert_eq!(
        *mogi.current_course(),
        Some(Course::new("ヨッシーサーキット".to_string(), Console::GC))
    );
}

#[test]
fn test_course_detector_needs_stable_blackout() {
    let cat = all_courses();
    let mut mogi = MogiResult::new();
    let mut state = DetectorState::Course(CourseDetector::new());
    let assets = TemplateAssets { results_template_png: Vec::new() };
    let words = course_words();
    // resolving words arrive while the blackout streak is still short:
    // they are ignored
    for _ in 0..4 {
        let (next, _) = state.detect(&black_frame(), Some(&words), &assets, 0, &cat, &mut mogi);
        assert!(matches!(next, DetectorState::Course(_)));
        state = next;
    }
    assert!(mogi.current_course().is_none());
    // a bright frame resets the streak, so words keep being ignored
    let (next, _) = state.detect(&gray_frame(), Some(&words), &assets, 0, &cat, &mut mogi);
    assert!(matches!(next, DetectorState::Course(_)));
    state = next;
    let (next, _) = state.detect(&black_frame(), Some(&words), &assets, 0, &cat, &mut mogi);
    assert!(matches!(next, DetectorState::Course(_)));
    let _ = next;
    assert!(mogi.current_course().is_none());
}

#[test]
fn test_race_finish_banner_debounce() {
    let mut mogi = MogiResult::new();
    mogi.set_current_course(Course::new("ビッグブルー".to_string(), Console::New));
    let mut state = RaceFinishDetector::new();
    // two positive frames are not enough
    for _ in 0..2 {
        let (next, action) = state.step_with_peak(&gray_frame(), None, Some((560, 50)), &mut mogi);
        assert_eq!(action, DetectAction::Nothing);
        match next {
            DetectorState::RaceFinish(d) => state = d,
            _ => panic!("left the race-finish state too early"),
        }
    }
    // the third positive of the window hands over to position detection
    let (next, action) = state.step_with_peak(&gray_frame(), None, Some((560, 50)), &mut mogi);
    assert_eq!(action, DetectAction::Nothing);
    assert!(matches!(next, DetectorState::Position(_)));
}

#[test]
fn test_race_finish_peak_outside_band_is_negative() {
    let mut mogi = MogiResult::new();
    let mut state = RaceFinishDetector::new();
    for _ in 0..6 {
        let (next, _) = state.step_with_peak(&gray_frame(), None, Some((100, 300)), &mut mogi);
        match next {
            DetectorState::RaceFinish(d) => state = d,
            _ => panic!("a far-off peak must not look like the banner"),
        }
    }
}

#[test]
fn test_race_finish_flag_gate() {
    let mut mogi = MogiResult::new();
    let mut state = RaceFinishDetector::new();
    // the black frame shows the flag probes as near-black: race running
    for _ in 0..6 {
        let (next, _) = state.step_with_peak(&black_frame(), None, Some((560, 50)), &mut mogi);
        match next {
            DetectorState::RaceFinish(d) => state = d,
            _ => panic!("the flag gate must hold the state"),
        }
    }
}

#[test]
fn test_error_screen_resets_race_finish() {
    let mut mogi = MogiResult::new();
    mogi.set_current_course(Course::new("ビッグブルー".to_string(), Console::New));
    let state = RaceFinishDetector::new();
    let words = error_words();
    let (next, action) = state.step_with_peak(&gray_frame(), Some(&words), None, &mut mogi);
    assert!(matches!(next, DetectorState::Course(_)));
    assert_eq!(action, DetectAction::Nothing);
    assert!(mogi.current_course().is_none());
    assert_eq!(mogi.iter_races().len(), 0);
}

#[test]
fn test_error_screen_resets_position_detector() {
    let mut mogi = MogiResult::new();
    mogi.set_current_course(Course::new("ビッグブルー".to_string(), Console::New));
    let state = PositionDetector::new();
    let words = error_words();
    let (next, action) = state.step(&yellow_band_frame(0), Some(&words), 0, &mut mogi);
    assert!(matches!(next, DetectorState::Course(_)));
    assert_eq!(action, DetectAction::Nothing);
    assert!(mogi.current_course().is_none());
    assert_eq!(mogi.iter_races().len(), 0);
}

#[test]
fn test_position_debounce_commits_after_four() {
    let mut mogi = MogiResult::new();
    mogi.set_current_course(Course::new("ヨッシーサーキット".to_string(), Console::GC));
    let mut state = PositionDetector::new();
    // three agreeing frames do not commit
    for t in 0..3 {
        let (next, action) = state.step(&yellow_band_frame(0), None, 1000 + t, &mut mogi);
        assert_eq!(action, DetectAction::Nothing);
        match next {
            DetectorState::Position(d) => state = d,
            _ => panic!("committed before the fourth agreeing frame"),
        }
    }
    assert_eq!(mogi.iter_races().len(), 0);
    // the fourth commits: the race is recorded, a snapshot is owed, and
    // the total-scores wait starts at the run's first frame
    let (next, action) = state.step(&yellow_band_frame(0), None, 1003, &mut mogi);
    assert_eq!(action, DetectAction::SaveRaceImage);
    match next {
        DetectorState::CaptureTotalScores(d) => assert_eq!(d.position_checked_at_ms, 1000),
        _ => panic!("a committed position must hand over to the totals wait"),
    }
    assert_eq!(mogi.iter_races().len(), 1);
    assert_eq!(mogi.iter_races()[0].position(), Position::First);
    assert!(mogi.current_course().is_none());
}

#[test]
fn test_position_debounce_alternating_never_commits() {
    let mut mogi = MogiResult::new();
    mogi.set_current_course(Course::new("ヨッシーサーキット".to_string(), Console::GC));
    let mut state = PositionDetector::new();
    for t in 0..10 {
        let band = (t % 2) as usize;
        let (next, action) = state.step(&yellow_band_frame(band), None, t, &mut mogi);
        assert_eq!(action, DetectAction::Nothing);
        match next {
            DetectorState::Position(d) => state = d,
            _ => panic!("an alternating stream must never commit"),
        }
    }
    assert_eq!(mogi.iter_races().len(), 0);
    assert!(mogi.current_course().is_some());
}

#[test]
fn test_position_frames_without_highlight_keep_the_run() {
    let mut mogi = MogiResult::new();
    mogi.set_current_course(Course::new("ヨッシーサーキット".to_string(), Console::GC));
    let mut state = PositionDetector::new();
    // two agreeing frames, a blank frame in between, then two more:
    // the blank frame is not a disagreement
    for (frame, t) in [
        (yellow_band_frame(1), 0u64),
        (yellow_band_frame(1), 1),
        (gray_frame(), 2),
        (yellow_band_frame(1), 3),
    ] {
        let (next, _) = state.step(&frame, None, t, &mut mogi);
        match next {
            DetectorState::Position(d) => state = d,
            _ => panic!("committed too early"),
        }
    }
    let (next, action) = state.step(&yellow_band_frame(1), None, 4, &mut mogi);
    assert_eq!(action, DetectAction::SaveRaceImage);
    assert!(matches!(next, DetectorState::CaptureTotalScores(_)));
    assert_eq!(mogi.iter_races()[0].position(), Position::Second);
}

#[test]
fn test_position_commit_without_course_records_nothing() {
    let mut mogi = MogiResult::new();
    let mut state = PositionDetector::new();
    for t in 0..3 {
        let (next, _) = state.step(&yellow_band_frame(3), None, t, &mut mogi);
        match next {
            DetectorState::Position(d) => state = d,
            _ => panic!("committed before the fourth agreeing frame"),
        }
    }
    let (next, action) = state.step(&yellow_band_frame(3), None, 3, &mut mogi);
    assert_eq!(action, DetectAction::SaveRaceImage);
    assert!(matches!(next, DetectorState::CaptureTotalScores(_)));
    // no course was pending, so no race may be appended
    assert_eq!(mogi.iter_races().len(), 0);
}

#[test]
fn test_total_scores_wait() {
    let mut mogi = MogiResult::new();
    let state = CaptureTotalScoresDetector::new(1000);
    let (next, action) = state.step(&gray_frame(), 4999, &mut mogi);
    assert_eq!(action, DetectAction::Nothing);
    let state = match next {
        DetectorState::CaptureTotalScores(d) => d,
        _ => panic!("left the totals wait before four seconds passed"),
    };
    let (next, action) = state.step(&gray_frame(), 5000, &mut mogi);
    assert_eq!(action, DetectAction::SaveTotalImage);
    assert!(matches!(next, DetectorState::Course(_)));
}

#[test]
fn test_initial_state_follows_pending_course() {
    let mut mogi = MogiResult::new();
    assert!(matches!(DetectorState::initial(&mogi), DetectorState::Course(_)));
    mogi.set_current_course(Course::new("ビッグブルー".to_string(), Console::New));
    assert!(matches!(DetectorState::initial(&mogi), DetectorState::RaceFinish(_)));
}

#[test]
fn test_apply_edit_resyncs_detector() {
    let mut mogi = MogiResult::new();
    let state = DetectorState::Course(CourseDetector::new());
    let mut edited = MogiResult::new();
    edited.set_current_course(Course::new("ビッグブルー".to_string(), Console::New));
    let state = apply_edit(state, &mut mogi, edited);
    assert!(matches!(state, DetectorState::RaceFinish(_)));
    assert!(mogi.current_course().is_some());
    // an edit that does not introduce a course keeps the detector
    let state = DetectorState::Position(PositionDetector::new());
    let edited = MogiResult::new();
    let state = apply_edit(state, &mut mogi, edited);
    assert!(matches!(state, DetectorState::Position(_)));
    assert!(mogi.current_course().is_none());
}

#[test]
fn test_wants_ocr_per_state() {
    let mogi = MogiResult::new();
    let _ = mogi;
    let course = DetectorState::Course(CourseDetector::new());
    assert!(!course.wants_ocr(&black_frame()));
    let position = DetectorState::Position(PositionDetector::new());
    assert!(position.wants_ocr(&gray_frame()));
    let total = DetectorState::CaptureTotalScores(CaptureTotalScoresDetector::new(0));
    assert!(!total.wants_ocr(&gray_frame()));
}
