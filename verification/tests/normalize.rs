use lounge_memo::text::normalize_japanese_characters;

#[test]
fn test_normalize_japanese_characters() {
    assert_eq!(
        normalize_japanese_characters("あがぱ工EｅＥ".to_string()),
        "アカハエeee".to_string()
    );
}

#[test]
fn test_normalize_full_width_digits_and_space() {
    assert_eq!(
        normalize_japanese_characters("１２３　ＡＢｃ".to_string()),
        "123 abc".to_string()
    );
}

#[test]
fn test_normalize_drops_voicing_marks() {
    assert_eq!(normalize_japanese_characters("か゛き゜".to_string()), "カキ".to_string());
}

#[test]
fn test_normalize_small_kana_and_long_names() {
    assert_eq!(
        normalize_japanese_characters("ロックロックマウンテン".to_string()),
        "ロツクロツクマウンテン".to_string()
    );
    assert_eq!(
        normalize_japanese_characters("どうぶつの森".to_string()),
        "トウフツノ森".to_string()
    );
}

#[test]
fn test_normalize_idempotent_on_samples() {
    for s in [
        "あがぱ工EｅＥ",
        "ヨッシーサーキット",
        "１２３　ＡＢｃ",
        "か゛き゜",
        "sfc レインボーロード",
        "",
        "mixed ＴＯＵＲ text ばびぶ",
    ] {
        let once = normalize_japanese_characters(s.to_string());
        let twice = normalize_japanese_characters(once.clone());
        assert_eq!(once, twice);
    }
}
