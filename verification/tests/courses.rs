use lounge_memo::catalog::all_courses;
use lounge_memo::courses::{get_course_by_words, get_course_by_words_with_nearest, Console, Course};
use lounge_memo::word::Word;

fn vec_str_to_words(words: Vec<&str>) -> Vec<Word> {
    let mut vec = Vec::new();
    for word in words {
        vec.push(Word::new(word.to_string(), 0, 0, 0, 0));
    }
    vec
}

fn assert_vec_str_to_course(words: Vec<&str>, expected: Course) {
    let cat = all_courses();
    let words = vec_str_to_words(words);
    let course = get_course_by_words(&cat, &words);
    assert_eq!(course, Some(expected));
}

fn assert_vec_str_to_course_with_nearest(words: Vec<&str>, expected: Option<Course>) {
    let cat = all_courses();
    let words = vec_str_to_words(words);
    let course = get_course_by_words_with_nearest(&cat, &words, 3);
    assert_eq!(course, expected);
}

#[test]
fn test_get_course_by_words() {
    assert_vec_str_to_course(
        vec!["ヨッシーサーキット", "GC"],
        Course::new("ヨッシーサーキット".to_string(), Console::GC),
    );
    assert_vec_str_to_course(
        vec!["ロックロックマウンテン", "3DS"],
        Course::new("ロックロックマウンテン".to_string(), Console::_3DS),
    );
    assert_vec_str_to_course(
        vec!["キノヒオサーキット", "3DS"],
        Course::new("キノピオサーキット".to_string(), Console::_3DS),
    );
    assert_vec_str_to_course(
        vec!["どうぶつの森"],
        Course::new("どうぶつの森".to_string(), Console::New),
    );
    assert_vec_str_to_course(
        vec!["どうぶつの森"],
        Course::new("どうぶつの森".to_string(), Console::New),
    );
}

#[test]
fn test_get_course_by_words_with_nearest() {
    assert_vec_str_to_course_with_nearest(
        vec!["ヨッシーサーキット", "GC"],
        Some(Course::new("ヨッシーサーキット".to_string(), Console::GC)),
    );
    assert_vec_str_to_course_with_nearest(
        vec!["ックロックマウンテン", "3DS"],
        Some(Course::new(
            "ロックロックマウンテン".to_string(),
            Console::_3DS,
        )),
    );
    assert_vec_str_to_course_with_nearest(
        vec!["ノヒオサーキット", "3DS"],
        Some(Course::new("キノピオサーキット".to_string(), Console::_3DS)),
    );
    assert_vec_str_to_course_with_nearest(
        vec!["うぶつの森"],
        Some(Course::new("どうぶつの森".to_string(), Console::New)),
    );
    assert_vec_str_to_course_with_nearest(
        vec!["ーユーヨークドリーム", "Tour"],
        Some(Course::new(
            "ニューヨークドリーム".to_string(),
            Console::Tour,
        )),
    );
    assert_vec_str_to_course_with_nearest(vec!["あまりにもかけ離れている場合", "Tour"], None);
    assert_vec_str_to_course_with_nearest(vec!["キノコキャニオン"], None);
}

#[test]
fn test_nearest_with_empty_words_is_none() {
    let cat = all_courses();
    assert_eq!(get_course_by_words_with_nearest(&cat, &Vec::new(), 3), None);
    assert_eq!(get_course_by_words(&cat, &Vec::new()), None);
}

#[test]
fn test_course_display_name() {
    let gc = Course::new("ヨッシーサーキット".to_string(), Console::GC);
    assert_eq!(gc.display_name(), "GC ヨッシーサーキット".to_string());
    let new = Course::new("どうぶつの森".to_string(), Console::New);
    assert_eq!(new.display_name(), "どうぶつの森".to_string());
}

#[test]
fn test_catalog_size() {
    assert_eq!(all_courses().len(), 96);
}
