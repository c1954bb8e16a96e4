use lounge_memo::catalog::{course_shorthands, lookup_shorthand, to_half_width};

#[test]
fn test_to_half() {
    assert_eq!(to_half_width("あいうえお"), "ｱｲｳｴｵ");
    assert_eq!(to_half_width("アイウエオ"), "ｱｲｳｴｵ");
    assert_eq!(to_half_width("ｱｲｳｴｵ"), "ｱｲｳｴｵ");
    assert_eq!(to_half_width("abcde"), "abcde");
    assert_eq!(to_half_width("ABCDE"), "abcde");
    assert_eq!(to_half_width("ａｂｃｄｅ"), "abcde");
    assert_eq!(to_half_width("ＡＢＣＤＥ"), "abcde");
    assert_eq!(to_half_width("あいうえおabcde"), "ｱｲｳｴｵabcde");
    assert_eq!(to_half_width("あいうえおABCDE"), "ｱｲｳｴｵabcde");
    assert_eq!(to_half_width("あいうえおａｂｃｄｅ"), "ｱｲｳｴｵabcde");
    assert_eq!(to_half_width("あいうえおＡＢＣＤＥ"), "ｱｲｳｴｵabcde");
    assert_eq!(to_half_width("アイウエオabcde"), "ｱｲｳｴｵabcde");
    assert_eq!(to_half_width("アイウエオABCDE"), "ｱｲｳｴｵabcde");
    assert_eq!(to_half_width("アイウエオａｂｃｄｅ"), "ｱｲｳｴｵabcde");
    assert_eq!(to_half_width("アイウエオＡＢＣＤＥ"), "ｱｲｳｴｵabcde");
    assert_eq!(to_half_width("ｱｲｳｴｵabcde"), "ｱｲｳｴｵabcde");
}

#[test]
fn test_lookup_shorthand() {
    let table = course_shorthands();
    assert_eq!(
        lookup_shorthand(&table, "mks"),
        Some("マリオカートスタジアム".to_string())
    );
    assert_eq!(
        lookup_shorthand(&table, "ﾖｯｼｰｻｰｷｯﾄ"),
        Some("GC ヨッシーサーキット".to_string())
    );
    // full-width input folds to the stored half-width alias
    assert_eq!(
        lookup_shorthand(&table, "ＭＫＳ"),
        Some("マリオカートスタジアム".to_string())
    );
    assert_eq!(lookup_shorthand(&table, "no-such-alias"), None);
}
