use lounge_memo::courses::{Console, Course};
use lounge_memo::mogi_result::MogiResult;
use lounge_memo::race_result::Position;
use lounge_memo::race_result::RaceResult;

#[test]
fn test_mogi_result() {
    let mut mogi_result = MogiResult::new();
    mogi_result.set_current_course(Course::new("ドルフィンみさき".to_string(), Console::New));
    mogi_result.set_current_position(Position::First);
    assert_eq!(mogi_result.iter_races().len(), 1);

    mogi_result.set_current_course(Course::new("ヨッシーアイランド".to_string(), Console::New));
    mogi_result.set_current_position(Position::Second);
    assert_eq!(mogi_result.total_score(), 27);
}

#[test]
fn test_mogi_result_reset_current_course() {
    let mut mogi_result = MogiResult::new();
    mogi_result.set_current_course(Course::new("ドルフィンみさき".to_string(), Console::New));
    mogi_result.reset_current_course();
    assert_eq!(*mogi_result.current_course(), None);
}

#[test]
fn test_set_current_position_without_course_is_noop() {
    let mut mogi_result = MogiResult::new();
    mogi_result.set_current_position(Position::Third);
    assert_eq!(mogi_result.iter_races().len(), 0);
    assert_eq!(mogi_result.total_score(), 0);
}

#[test]
fn test_position_scores() {
    assert_eq!(Position::from_index(0).to_score(), 15);
    assert_eq!(Position::from_index(1).to_score(), 12);
    assert_eq!(Position::from_index(2).to_score(), 10);
    assert_eq!(Position::from_index(11).to_score(), 1);
    assert_eq!(Position::from_index(11), Position::Twelfth);
    assert_eq!(Position::Tenth.label(), "10".to_string());
}

#[test]
fn test_race_result_accessors() {
    let course = Course::new("ワリオスタジアム".to_string(), Console::DS);
    let mut race = RaceResult::new(Some(course.clone()), Position::Fifth);
    assert_eq!(race.to_score(), 8);
    assert_eq!(race.course(), Some(course));
    assert_eq!(race.position(), Position::Fifth);
    assert_eq!(race.course_name(), "DS ワリオスタジアム".to_string());
    race.set_position(Position::Sixth);
    assert_eq!(race.to_score(), 7);
    let empty = RaceResult::new(None, Position::First);
    assert_eq!(empty.course_name(), "(empty)".to_string());
}

#[test]
fn test_edit_recorded_race() {
    let mut mogi = MogiResult::new();
    mogi.set_current_course(Course::new("チーズランド".to_string(), Console::GBA));
    mogi.set_current_position(Position::Ninth);
    mogi.set_position(0, Position::First);
    assert_eq!(mogi.iter_races()[0].position(), Position::First);
    mogi.set_course(0, Course::new("ビッグブルー".to_string(), Console::New));
    assert_eq!(
        mogi.iter_races()[0].course(),
        Some(Course::new("ビッグブルー".to_string(), Console::New))
    );
    assert_eq!(mogi.total_score(), 15);
}
