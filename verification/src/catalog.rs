//! The static course catalog and its shorthand alias table.
//!
//! The catalog lists every known course in a fixed order, grouped by cup
//! as the game presents them; [`spec_catalog_entry`] states each entry,
//! and [`all_courses`] is pinned to it element by element. The alias
//! table maps community shorthands (half-width katakana contractions,
//! initialisms) to a course's display form, stated by
//! [`spec_shorthand_entry`] the same way; aliases are stored in
//! half-width form, so inputs are folded to half-width before lookup.

use vstd::prelude::*;

use crate::courses::Console;
use crate::courses::Course;

verus! {

/// How many courses the catalog holds.
pub open spec fn spec_catalog_len() -> int {
    96
}

/// Catalog entry `i`: the course's name and its console. Indices outside
/// the catalog give an empty name.
pub open spec fn spec_catalog_entry(i: int) -> (Seq<char>, Console) {

    if i == 0 {
        ("マリオカートスタジアム"@, Console::New)
    } else if i == 1 {
        ("ウォーターパーク"@, Console::New)
    } else if i == 2 {
        ("スイーツキャニオン"@, Console::New)
    } else if i == 3 {
        ("ドッスンいせき"@, Console::New)
    } else if i == 4 {
        ("マリオサーキット"@, Console::New)
    } else if i == 5 {
        ("キノピオハーバー"@, Console::New)
    } else if i == 6 {
        ("ねじれマンション"@, Console::New)
    } else if i == 7 {
        ("ヘイホーこうざん"@, Console::New)
    } else if i == 8 {
        ("サンシャインくうこう"@, Console::New)
    } else if i == 9 {
        ("ドルフィンみさき"@, Console::New)
    } else if i == 10 {
        ("エレクトロドリーム"@, Console::New)
    } else if i == 11 {
        ("ワリオスノーマウンテン"@, Console::New)
    } else if i == 12 {
        ("スカイガーデン"@, Console::New)
    } else if i == 13 {
        ("ホネホネさばく"@, Console::New)
    } else if i == 14 {
        ("クッパキャッスル"@, Console::New)
    } else if i == 15 {
        ("レインボーロード"@, Console::New)
    } else if i == 16 {
        ("ヨッシーサーキット"@, Console::GC)
    } else if i == 17 {
        ("エキサイトバイク"@, Console::New)
    } else if i == 18 {
        ("ドラゴンロード"@, Console::New)
    } else if i == 19 {
        ("ミュートシティ"@, Console::New)
    } else if i == 20 {
        ("ベビィパーク"@, Console::GC)
    } else if i == 21 {
        ("チーズランド"@, Console::GBA)
    } else if i == 22 {
        ("ネイチャーロード"@, Console::New)
    } else if i == 23 {
        ("どうぶつの森"@, Console::New)
    } else if i == 24 {
        ("モーモーカントリー"@, Console::Wii)
    } else if i == 25 {
        ("マリオサーキット"@, Console::GBA)
    } else if i == 26 {
        ("プクプクビーチ"@, Console::DS)
    } else if i == 27 {
        ("キノピオハイウェイ"@, Console::N64)
    } else if i == 28 {
        ("カラカラさばく"@, Console::GC)
    } else if i == 29 {
        ("ドーナツへいや3"@, Console::SFC)
    } else if i == 30 {
        ("ピーチサーキット"@, Console::N64)
    } else if i == 31 {
        ("DKジャングル"@, Console::_3DS)
    } else if i == 32 {
        ("ワリオスタジアム"@, Console::DS)
    } else if i == 33 {
        ("シャーベットランド"@, Console::GC)
    } else if i == 34 {
        ("ミュージックパーク"@, Console::_3DS)
    } else if i == 35 {
        ("ヨッシーバレー"@, Console::N64)
    } else if i == 36 {
        ("チクタクロック"@, Console::DS)
    } else if i == 37 {
        ("パックンスライダー"@, Console::_3DS)
    } else if i == 38 {
        ("グラグラかざん"@, Console::Wii)
    } else if i == 39 {
        ("レインボーロード"@, Console::N64)
    } else if i == 40 {
        ("ワリオこうざん"@, Console::Wii)
    } else if i == 41 {
        ("レインボーロード"@, Console::SFC)
    } else if i == 42 {
        ("ツルツルツイスター"@, Console::New)
    } else if i == 43 {
        ("ハイラルサーキット"@, Console::New)
    } else if i == 44 {
        ("ネオクッパシティ"@, Console::_3DS)
    } else if i == 45 {
        ("リボンロード"@, Console::GBA)
    } else if i == 46 {
        ("リンリンメトロ"@, Console::New)
    } else if i == 47 {
        ("ビッグブルー"@, Console::New)
    } else if i == 48 {
        ("パリプロムナード"@, Console::Tour)
    } else if i == 49 {
        ("キノピオサーキット"@, Console::_3DS)
    } else if i == 50 {
        ("チョコマウンテン"@, Console::N64)
    } else if i == 51 {
        ("ココナッツモール"@, Console::Wii)
    } else if i == 52 {
        ("トーキョースクランブル"@, Console::Tour)
    } else if i == 53 {
        ("キノコリッジウェイ"@, Console::DS)
    } else if i == 54 {
        ("スカイガーデン"@, Console::GBA)
    } else if i == 55 {
        ("ニンニンドージョー"@, Console::New)
    } else if i == 56 {
        ("ニューヨークドリーム"@, Console::Tour)
    } else if i == 57 {
        ("マリオサーキット3"@, Console::SFC)
    } else if i == 58 {
        ("カラカラさばく"@, Console::N64)
    } else if i == 59 {
        ("ワルイージピンボール"@, Console::DS)
    } else if i == 60 {
        ("シドニーサンシャイン"@, Console::Tour)
    } else if i == 61 {
        ("スノーランド"@, Console::GBA)
    } else if i == 62 {
        ("キノコキャニオン"@, Console::Wii)
    } else if i == 63 {
        ("アイスビルディング"@, Console::New)
    } else if i == 64 {
        ("ロンドンアベニュー"@, Console::Tour)
    } else if i == 65 {
        ("テレサレイク"@, Console::GBA)
    } else if i == 66 {
        ("ロックロックマウンテン"@, Console::_3DS)
    } else if i == 67 {
        ("メイプルツリーハウス"@, Console::Wii)
    } else if i == 68 {
        ("ベルリンシュトラーセ"@, Console::Tour)
    } else if i == 69 {
        ("ピーチガーデン"@, Console::DS)
    } else if i == 70 {
        ("メリーメリーマウンテン"@, Console::New)
    } else if i == 71 {
        ("レインボーロード"@, Console::_3DS)
    } else if i == 72 {
        ("アムステルダムブルーム"@, Console::Tour)
    } else if i == 73 {
        ("リバーサイドパーク"@, Console::GBA)
    } else if i == 74 {
        ("DKスノーボードクロス"@, Console::Wii)
    } else if i == 75 {
        ("ヨッシーアイランド"@, Console::New)
    } else if i == 76 {
        ("バンコクラッシュ"@, Console::Tour)
    } else if i == 77 {
        ("マリオサーキット"@, Console::DS)
    } else if i == 78 {
        ("ワルイージスタジアム"@, Console::GC)
    } else if i == 79 {
        ("シンガポールスプラッシュ"@, Console::Tour)
    } else if i == 80 {
        ("アテネポリス"@, Console::Tour)
    } else if i == 81 {
        ("デイジークルーザー"@, Console::GC)
    } else if i == 82 {
        ("ムーンリッジ&ハイウェイ"@, Console::Wii)
    } else if i == 83 {
        ("シャボンロード"@, Console::New)
    } else if i == 84 {
        ("ロサンゼルスコースト"@, Console::Tour)
    } else if i == 85 {
        ("サンセットこうや"@, Console::GBA)
    } else if i == 86 {
        ("ノコノコみさき"@, Console::Wii)
    } else if i == 87 {
        ("バンクーバーバレー"@, Console::Tour)
    } else if i == 88 {
        ("ローマアバンティ"@, Console::Tour)
    } else if i == 89 {
        ("DKマウンテン"@, Console::GC)
    } else if i == 90 {
        ("デイジーサーキット"@, Console::Wii)
    } else if i == 91 {
        ("パックンしんでん"@, Console::New)
    } else if i == 92 {
        ("マドリードグランデ"@, Console::Tour)
    } else if i == 93 {
        ("ロゼッタプラネット"@, Console::_3DS)
    } else if i == 94 {
        ("クッパじょう3"@, Console::SFC)
    } else if i == 95 {
        ("レインボーロード"@, Console::Wii)
    } else {
        (""@, Console::New)
    }
}


fn push_course(v: &mut Vec<Course>, name: &str, console: Console)
    ensures
        final(v)@.len() == old(v)@.len() + 1,
        forall|i: int| 0 <= i < old(v)@.len() ==> final(v)@[i] == old(v)@[i],
        final(v)@[old(v)@.len() as int].name@ == name@,
        final(v)@[old(v)@.len() as int].console == console,
{
    v.push(Course::new(name.to_owned(), console));
}


fn push_courses_0(v: &mut Vec<Course>)
    requires
        old(v)@.len() == 0,
    ensures
        final(v)@.len() == 16,
        forall|i: int| 0 <= i < 0 ==> final(v)@[i] == old(v)@[i],
        forall|i: int|
            0 <= i < 16 ==> (#[trigger] final(v)@[i]).name@ == spec_catalog_entry(i).0
                && final(v)@[i].console == spec_catalog_entry(i).1,
{
    push_course(v, "マリオカートスタジアム", Console::New);
    push_course(v, "ウォーターパーク", Console::New);
    push_course(v, "スイーツキャニオン", Console::New);
    push_course(v, "ドッスンいせき", Console::New);
    push_course(v, "マリオサーキット", Console::New);
    push_course(v, "キノピオハーバー", Console::New);
    push_course(v, "ねじれマンション", Console::New);
    push_course(v, "ヘイホーこうざん", Console::New);
    push_course(v, "サンシャインくうこう", Console::New);
    push_course(v, "ドルフィンみさき", Console::New);
    push_course(v, "エレクトロドリーム", Console::New);
    push_course(v, "ワリオスノーマウンテン", Console::New);
    push_course(v, "スカイガーデン", Console::New);
    push_course(v, "ホネホネさばく", Console::New);
    push_course(v, "クッパキャッスル", Console::New);
    push_course(v, "レインボーロード", Console::New);
}


fn push_courses_1(v: &mut Vec<Course>)
    requires
        old(v)@.len() == 16,
    ensures
        final(v)@.len() == 32,
        forall|i: int| 0 <= i < 16 ==> final(v)@[i] == old(v)@[i],
        forall|i: int|
            16 <= i < 32 ==> (#[trigger] final(v)@[i]).name@ == spec_catalog_entry(i).0
                && final(v)@[i].console == spec_catalog_entry(i).1,
{
    push_course(v, "ヨッシーサーキット", Console::GC);
    push_course(v, "エキサイトバイク", Console::New);
    push_course(v, "ドラゴンロード", Console::New);
    push_course(v, "ミュートシティ", Console::New);
    push_course(v, "ベビィパーク", Console::GC);
    push_course(v, "チーズランド", Console::GBA);
    push_course(v, "ネイチャーロード", Console::New);
    push_course(v, "どうぶつの森", Console::New);
    push_course(v, "モーモーカントリー", Console::Wii);
    push_course(v, "マリオサーキット", Console::GBA);
    push_course(v, "プクプクビーチ", Console::DS);
    push_course(v, "キノピオハイウェイ", Console::N64);
    push_course(v, "カラカラさばく", Console::GC);
    push_course(v, "ドーナツへいや3", Console::SFC);
    push_course(v, "ピーチサーキット", Console::N64);
    push_course(v, "DKジャングル", Console::_3DS);
}


fn push_courses_2(v: &mut Vec<Course>)
    requires
        old(v)@.len() == 32,
    ensures
        final(v)@.len() == 48,
        forall|i: int| 0 <= i < 32 ==> final(v)@[i] == old(v)@[i],
        forall|i: int|
            32 <= i < 48 ==> (#[trigger] final(v)@[i]).name@ == spec_catalog_entry(i).0
                && final(v)@[i].console == spec_catalog_entry(i).1,
{
    push_course(v, "ワリオスタジアム", Console::DS);
    push_course(v, "シャーベットランド", Console::GC);
    push_course(v, "ミュージックパーク", Console::_3DS);
    push_course(v, "ヨッシーバレー", Console::N64);
    push_course(v, "チクタクロック", Console::DS);
    push_course(v, "パックンスライダー", Console::_3DS);
    push_course(v, "グラグラかざん", Console::Wii);
    push_course(v, "レインボーロード", Console::N64);
    push_course(v, "ワリオこうざん", Console::Wii);
    push_course(v, "レインボーロード", Console::SFC);
    push_course(v, "ツルツルツイスター", Console::New);
    push_course(v, "ハイラルサーキット", Console::New);
    push_course(v, "ネオクッパシティ", Console::_3DS);
    push_course(v, "リボンロード", Console::GBA);
    push_course(v, "リンリンメトロ", Console::New);
    push_course(v, "ビッグブルー", Console::New);
}


fn push_courses_3(v: &mut Vec<Course>)
    requires
        old(v)@.len() == 48,
    ensures
        final(v)@.len() == 64,
        forall|i: int| 0 <= i < 48 ==> final(v)@[i] == old(v)@[i],
        forall|i: int|
            48 <= i < 64 ==> (#[trigger] final(v)@[i]).name@ == spec_catalog_entry(i).0
                && final(v)@[i].console == spec_catalog_entry(i).1,
{
    push_course(v, "パリプロムナード", Console::Tour);
    push_course(v, "キノピオサーキット", Console::_3DS);
    push_course(v, "チョコマウンテン", Console::N64);
    push_course(v, "ココナッツモール", Console::Wii);
    push_course(v, "トーキョースクランブル", Console::Tour);
    push_course(v, "キノコリッジウェイ", Console::DS);
    push_course(v, "スカイガーデン", Console::GBA);
    push_course(v, "ニンニンドージョー", Console::New);
    push_course(v, "ニューヨークドリーム", Console::Tour);
    push_course(v, "マリオサーキット3", Console::SFC);
    push_course(v, "カラカラさばく", Console::N64);
    push_course(v, "ワルイージピンボール", Console::DS);
    push_course(v, "シドニーサンシャイン", Console::Tour);
    push_course(v, "スノーランド", Console::GBA);
    push_course(v, "キノコキャニオン", Console::Wii);
    push_course(v, "アイスビルディング", Console::New);
}


fn push_courses_4(v: &mut Vec<Course>)
    requires
        old(v)@.len() == 64,
    ensures
        final(v)@.len() == 80,
        forall|i: int| 0 <= i < 64 ==> final(v)@[i] == old(v)@[i],
        forall|i: int|
            64 <= i < 80 ==> (#[trigger] final(v)@[i]).name@ == spec_catalog_entry(i).0
                && final(v)@[i].console == spec_catalog_entry(i).1,
{
    push_course(v, "ロンドンアベニュー", Console::Tour);
    push_course(v, "テレサレイク", Console::GBA);
    push_course(v, "ロックロックマウンテン", Console::_3DS);
    push_course(v, "メイプルツリーハウス", Console::Wii);
    push_course(v, "ベルリンシュトラーセ", Console::Tour);
    push_course(v, "ピーチガーデン", Console::DS);
    push_course(v, "メリーメリーマウンテン", Console::New);
    push_course(v, "レインボーロード", Console::_3DS);
    push_course(v, "アムステルダムブルーム", Console::Tour);
    push_course(v, "リバーサイドパーク", Console::GBA);
    push_course(v, "DKスノーボードクロス", Console::Wii);
    push_course(v, "ヨッシーアイランド", Console::New);
    push_course(v, "バンコクラッシュ", Console::Tour);
    push_course(v, "マリオサーキット", Console::DS);
    push_course(v, "ワルイージスタジアム", Console::GC);
    push_course(v, "シンガポールスプラッシュ", Console::Tour);
}


fn push_courses_5(v: &mut Vec<Course>)
    requires
        old(v)@.len() == 80,
    ensures
        final(v)@.len() == 96,
        forall|i: int| 0 <= i < 80 ==> final(v)@[i] == old(v)@[i],
        forall|i: int|
            80 <= i < 96 ==> (#[trigger] final(v)@[i]).name@ == spec_catalog_entry(i).0
                && final(v)@[i].console == spec_catalog_entry(i).1,
{
    push_course(v, "アテネポリス", Console::Tour);
    push_course(v, "デイジークルーザー", Console::GC);
    push_course(v, "ムーンリッジ&ハイウェイ", Console::Wii);
    push_course(v, "シャボンロード", Console::New);
    push_course(v, "ロサンゼルスコースト", Console::Tour);
    push_course(v, "サンセットこうや", Console::GBA);
    push_course(v, "ノコノコみさき", Console::Wii);
    push_course(v, "バンクーバーバレー", Console::Tour);
    push_course(v, "ローマアバンティ", Console::Tour);
    push_course(v, "DKマウンテン", Console::GC);
    push_course(v, "デイジーサーキット", Console::Wii);
    push_course(v, "パックンしんでん", Console::New);
    push_course(v, "マドリードグランデ", Console::Tour);
    push_course(v, "ロゼッタプラネット", Console::_3DS);
    push_course(v, "クッパじょう3", Console::SFC);
    push_course(v, "レインボーロード", Console::Wii);
}


/// Every known course, in catalog order; entry `i` is exactly
/// [`spec_catalog_entry`]`(i)`.
pub fn all_courses() -> (v: Vec<Course>)
    ensures
        v@.len() == spec_catalog_len(),
        forall|i: int|
            0 <= i < spec_catalog_len() ==> (#[trigger] v@[i]).name@ == spec_catalog_entry(i).0
                && v@[i].console == spec_catalog_entry(i).1,
{
    let mut v: Vec<Course> = Vec::new();
    push_courses_0(&mut v);
    push_courses_1(&mut v);
    push_courses_2(&mut v);
    push_courses_3(&mut v);
    push_courses_4(&mut v);
    push_courses_5(&mut v);
    v
}


/// How many shorthand aliases the table holds.
pub open spec fn spec_shorthand_len() -> int {
    497
}


/// Alias table entries 0 to 99; see [`spec_shorthand_entry`].
pub open spec fn spec_shorthand_entry_0(i: int) -> (Seq<char>, Seq<char>) {
    if i == 0 {
        ("mks"@, "マリオカートスタジアム"@)
    } else if i == 1 {
        ("ﾏﾘｵｶｰﾄｽﾀｼﾞｱﾑ"@, "マリオカートスタジアム"@)
    } else if i == 2 {
        ("ﾏﾘｶｽ"@, "マリオカートスタジアム"@)
    } else if i == 3 {
        ("wp"@, "ウォーターパーク"@)
    } else if i == 4 {
        ("ｳｫｰﾀﾊﾟｰｸ"@, "ウォーターパーク"@)
    } else if i == 5 {
        ("ｦｰﾀｰﾊﾟｰｸ"@, "ウォーターパーク"@)
    } else if i == 6 {
        ("ｳｫﾀﾊﾟ"@, "ウォーターパーク"@)
    } else if i == 7 {
        ("ｦﾀﾊﾟ"@, "ウォーターパーク"@)
    } else if i == 8 {
        ("ｵﾀﾊﾟ"@, "ウォーターパーク"@)
    } else if i == 9 {
        ("ssc"@, "スイーツキャニオン"@)
    } else if i == 10 {
        ("ｽｲｰﾂｷｬﾆｵﾝ"@, "スイーツキャニオン"@)
    } else if i == 11 {
        ("ｽｲｷｬﾆ"@, "スイーツキャニオン"@)
    } else if i == 12 {
        ("tr"@, "ドッスンいせき"@)
    } else if i == 13 {
        ("ﾄﾞｯｽﾝｲｾｷ"@, "ドッスンいせき"@)
    } else if i == 14 {
        ("ﾄﾞｯｽﾝ"@, "ドッスンいせき"@)
    } else if i == 15 {
        ("ｲｾｷ"@, "ドッスンいせき"@)
    } else if i == 16 {
        ("ﾄﾞｯｽﾝ遺跡"@, "ドッスンいせき"@)
    } else if i == 17 {
        ("遺跡"@, "ドッスンいせき"@)
    } else if i == 18 {
        ("mc"@, "マリオサーキット"@)
    } else if i == 19 {
        ("ﾏﾘｵｻｰｷｯﾄ"@, "マリオサーキット"@)
    } else if i == 20 {
        ("ﾏﾘｻ"@, "マリオサーキット"@)
    } else if i == 21 {
        ("新ﾏﾘｻ"@, "マリオサーキット"@)
    } else if i == 22 {
        ("ｼﾝﾏﾘｻ"@, "マリオサーキット"@)
    } else if i == 23 {
        ("th"@, "キノピオハーバー"@)
    } else if i == 24 {
        ("ｷﾉﾋﾟｵﾊｰﾊﾞｰ"@, "キノピオハーバー"@)
    } else if i == 25 {
        ("ﾊｰﾊﾞｰ"@, "キノピオハーバー"@)
    } else if i == 26 {
        ("tm"@, "ねじれマンション"@)
    } else if i == 27 {
        ("ﾈｼﾞﾚﾏﾝｼｮﾝ"@, "ねじれマンション"@)
    } else if i == 28 {
        ("ﾈｼﾞﾏﾝ"@, "ねじれマンション"@)
    } else if i == 29 {
        ("ﾈｼﾞﾚ"@, "ねじれマンション"@)
    } else if i == 30 {
        ("ﾈｼﾞｼｮﾝ"@, "ねじれマンション"@)
    } else if i == 31 {
        ("ﾈｼﾞ"@, "ねじれマンション"@)
    } else if i == 32 {
        ("ﾈｼﾞﾈｼﾞ"@, "ねじれマンション"@)
    } else if i == 33 {
        ("ﾏﾝｼｮﾝ"@, "ねじれマンション"@)
    } else if i == 34 {
        ("sgf"@, "ヘイホーこうざん"@)
    } else if i == 35 {
        ("ﾍｲﾎｰｺｳｻﾞﾝ"@, "ヘイホーこうざん"@)
    } else if i == 36 {
        ("ﾍｲﾎｰ鉱山"@, "ヘイホーこうざん"@)
    } else if i == 37 {
        ("ﾍｲｺｰ"@, "ヘイホーこうざん"@)
    } else if i == 38 {
        ("ﾍｲｺｳ"@, "ヘイホーこうざん"@)
    } else if i == 39 {
        ("ﾍｲ鉱"@, "ヘイホーこうざん"@)
    } else if i == 40 {
        ("sa"@, "サンシャインくうこう"@)
    } else if i == 41 {
        ("ｻﾝｼｬｲﾝｸｳｺｳ"@, "サンシャインくうこう"@)
    } else if i == 42 {
        ("空港"@, "サンシャインくうこう"@)
    } else if i == 43 {
        ("ｸｳｺｳ"@, "サンシャインくうこう"@)
    } else if i == 44 {
        ("ｻﾝｼｬｲﾝ"@, "サンシャインくうこう"@)
    } else if i == 45 {
        ("ds"@, "ドルフィンみさき"@)
    } else if i == 46 {
        ("ﾄﾞﾙﾌｨﾝﾐｻｷ"@, "ドルフィンみさき"@)
    } else if i == 47 {
        ("ﾄﾞﾙﾐ"@, "ドルフィンみさき"@)
    } else if i == 48 {
        ("ﾐｻｷ"@, "ドルフィンみさき"@)
    } else if i == 49 {
        ("ﾄﾞﾙﾌｨﾝ岬"@, "ドルフィンみさき"@)
    } else if i == 50 {
        ("岬"@, "ドルフィンみさき"@)
    } else if i == 51 {
        ("ed"@, "エレクトロドリーム"@)
    } else if i == 52 {
        ("ｴﾚｸﾄﾛﾄﾞﾘｰﾑ"@, "エレクトロドリーム"@)
    } else if i == 53 {
        ("ｴﾚﾄﾞ"@, "エレクトロドリーム"@)
    } else if i == 54 {
        ("ｴﾚﾄﾞﾘ"@, "エレクトロドリーム"@)
    } else if i == 55 {
        ("mw"@, "ワリオスノーマウンテン"@)
    } else if i == 56 {
        ("ﾜﾘｵｽﾉｰﾏｳﾝﾃﾝ"@, "ワリオスノーマウンテン"@)
    } else if i == 57 {
        ("ﾜﾘｽﾉ"@, "ワリオスノーマウンテン"@)
    } else if i == 58 {
        ("ﾕｷﾔﾏ"@, "ワリオスノーマウンテン"@)
    } else if i == 59 {
        ("雪山"@, "ワリオスノーマウンテン"@)
    } else if i == 60 {
        ("ｽﾉ"@, "ワリオスノーマウンテン"@)
    } else if i == 61 {
        ("ﾕｷﾔﾏｳﾝﾃﾝ"@, "ワリオスノーマウンテン"@)
    } else if i == 62 {
        ("cc"@, "スカイガーデン"@)
    } else if i == 63 {
        ("ｽｶｲｶﾞｰﾃﾞﾝ"@, "スカイガーデン"@)
    } else if i == 64 {
        ("ｽｶｶﾞ"@, "スカイガーデン"@)
    } else if i == 65 {
        ("bdd"@, "ホネホネさばく"@)
    } else if i == 66 {
        ("ﾎﾈﾎﾈｻﾊﾞｸ"@, "ホネホネさばく"@)
    } else if i == 67 {
        ("ﾎﾈｻﾊﾞ"@, "ホネホネさばく"@)
    } else if i == 68 {
        ("ﾎﾈﾎﾈ"@, "ホネホネさばく"@)
    } else if i == 69 {
        ("bc"@, "クッパキャッスル"@)
    } else if i == 70 {
        ("ｸｯﾊﾟｷｬｯｽﾙ"@, "クッパキャッスル"@)
    } else if i == 71 {
        ("ｸﾊﾟｷｬ"@, "クッパキャッスル"@)
    } else if i == 72 {
        ("ｸｷｬﾊﾟ"@, "クッパキャッスル"@)
    } else if i == 73 {
        ("ｸｯｷｬﾊﾟｯｽﾙ"@, "クッパキャッスル"@)
    } else if i == 74 {
        ("rr"@, "レインボーロード"@)
    } else if i == 75 {
        ("ﾚｲﾝﾎﾞｰﾛｰﾄﾞ"@, "レインボーロード"@)
    } else if i == 76 {
        ("新虹"@, "レインボーロード"@)
    } else if i == 77 {
        ("ｼﾝﾆｼﾞ"@, "レインボーロード"@)
    } else if i == 78 {
        ("dyc"@, "GC ヨッシーサーキット"@)
    } else if i == 79 {
        ("yc"@, "GC ヨッシーサーキット"@)
    } else if i == 80 {
        ("ﾖｯｼｰｻｰｷｯﾄ"@, "GC ヨッシーサーキット"@)
    } else if i == 81 {
        ("ﾖｼｻ"@, "GC ヨッシーサーキット"@)
    } else if i == 82 {
        ("dea"@, "エキサイトバイク"@)
    } else if i == 83 {
        ("ea"@, "エキサイトバイク"@)
    } else if i == 84 {
        ("ｴｷｻｲﾄﾊﾞｲｸ"@, "エキサイトバイク"@)
    } else if i == 85 {
        ("ｴｷﾊﾞ"@, "エキサイトバイク"@)
    } else if i == 86 {
        ("ddd"@, "ドラゴンロード"@)
    } else if i == 87 {
        ("dd"@, "ドラゴンロード"@)
    } else if i == 88 {
        ("ﾄﾞﾗｺﾞﾝﾛｰﾄﾞ"@, "ドラゴンロード"@)
    } else if i == 89 {
        ("ﾄﾞﾗﾛ"@, "ドラゴンロード"@)
    } else if i == 90 {
        ("dmc"@, "ミュートシティ"@)
    } else if i == 91 {
        ("ﾐｭｰﾄｼﾃｨ"@, "ミュートシティ"@)
    } else if i == 92 {
        ("ﾐｭｰﾄ"@, "ミュートシティ"@)
    } else if i == 93 {
        ("dbp"@, "GC ベビィパーク"@)
    } else if i == 94 {
        ("bp"@, "GC ベビィパーク"@)
    } else if i == 95 {
        ("ﾍﾞﾋﾞｨﾊﾟｰｸ"@, "GC ベビィパーク"@)
    } else if i == 96 {
        ("ﾍﾞﾋﾞｰﾊﾟｰｸ"@, "GC ベビィパーク"@)
    } else if i == 97 {
        ("ﾍﾞﾋﾞﾊﾟ"@, "GC ベビィパーク"@)
    } else if i == 98 {
        ("dcl"@, "GBA チーズランド"@)
    } else if i == 99 {
        ("cl"@, "GBA チーズランド"@)
    } else {
        (""@, ""@)
    }
}


/// Alias table entries 100 to 199; see [`spec_shorthand_entry`].
pub open spec fn spec_shorthand_entry_1(i: int) -> (Seq<char>, Seq<char>) {
    if i == 100 {
        ("ﾁｰｽﾞﾗﾝﾄﾞ"@, "GBA チーズランド"@)
    } else if i == 101 {
        ("ﾁｰｽﾞ"@, "GBA チーズランド"@)
    } else if i == 102 {
        ("dww"@, "ネイチャーロード"@)
    } else if i == 103 {
        ("ww"@, "ネイチャーロード"@)
    } else if i == 104 {
        ("ﾈｲﾁｬｰﾗﾝﾄﾞ"@, "ネイチャーロード"@)
    } else if i == 105 {
        ("ﾈｲﾁｬｰ"@, "ネイチャーロード"@)
    } else if i == 106 {
        ("ﾅﾁｭﾚ"@, "ネイチャーロード"@)
    } else if i == 107 {
        ("dac"@, "どうぶつの森"@)
    } else if i == 108 {
        ("ac"@, "どうぶつの森"@)
    } else if i == 109 {
        ("ﾄﾞｳﾌﾞﾂﾉﾓﾘ"@, "どうぶつの森"@)
    } else if i == 110 {
        ("ﾄﾞｳﾓﾘ"@, "どうぶつの森"@)
    } else if i == 111 {
        ("ﾌﾞﾂﾓﾘ"@, "どうぶつの森"@)
    } else if i == 112 {
        ("ﾄﾞｳ森"@, "どうぶつの森"@)
    } else if i == 113 {
        ("ﾌﾞﾂ森"@, "どうぶつの森"@)
    } else if i == 114 {
        ("ﾄﾞｳﾌﾞﾂﾉ森"@, "どうぶつの森"@)
    } else if i == 115 {
        ("rmmm"@, "Wii モーモーカントリー"@)
    } else if i == 116 {
        ("mmm"@, "Wii モーモーカントリー"@)
    } else if i == 117 {
        ("ﾓｰﾓｰｶﾝﾄﾘｰ"@, "Wii モーモーカントリー"@)
    } else if i == 118 {
        ("ﾓﾓｶﾝ"@, "Wii モーモーカントリー"@)
    } else if i == 119 {
        ("ﾓｰﾓｰ"@, "Wii モーモーカントリー"@)
    } else if i == 120 {
        ("rmc"@, "GBA マリオサーキット"@)
    } else if i == 121 {
        ("gba"@, "GBA マリオサーキット"@)
    } else if i == 122 {
        ("ｸﾞﾊﾞ"@, "GBA マリオサーキット"@)
    } else if i == 123 {
        ("gbaﾏﾘｵｻｰｷｯﾄ"@, "GBA マリオサーキット"@)
    } else if i == 124 {
        ("gbaﾏﾘｻ"@, "GBA マリオサーキット"@)
    } else if i == 125 {
        ("rccb"@, "DS プクプクビーチ"@)
    } else if i == 126 {
        ("ccb"@, "DS プクプクビーチ"@)
    } else if i == 127 {
        ("ﾌﾟｸﾌﾟｸﾋﾞｰﾁ"@, "DS プクプクビーチ"@)
    } else if i == 128 {
        ("ﾌﾟｸﾌﾟｸ"@, "DS プクプクビーチ"@)
    } else if i == 129 {
        ("ﾌﾟｸﾋﾞ"@, "DS プクプクビーチ"@)
    } else if i == 130 {
        ("rtt"@, "N64 キノピオハイウェイ"@)
    } else if i == 131 {
        ("tt"@, "N64 キノピオハイウェイ"@)
    } else if i == 132 {
        ("ｷﾉﾋﾟｵﾊｲｳｪｲ"@, "N64 キノピオハイウェイ"@)
    } else if i == 133 {
        ("ﾊｲｳｪｲ"@, "N64 キノピオハイウェイ"@)
    } else if i == 134 {
        ("rddd"@, "GC カラカラさばく"@)
    } else if i == 135 {
        ("ｶﾗｶﾗｻﾊﾞｸ"@, "GC カラカラさばく"@)
    } else if i == 136 {
        ("ｶﾗｻﾊﾞ"@, "GC カラカラさばく"@)
    } else if i == 137 {
        ("ｻﾊﾞｸ"@, "GC カラカラさばく"@)
    } else if i == 138 {
        ("gcｶﾗ"@, "GC カラカラさばく"@)
    } else if i == 139 {
        ("gcｶﾗｻﾊﾞ"@, "GC カラカラさばく"@)
    } else if i == 140 {
        ("gcｻﾊﾞ"@, "GC カラカラさばく"@)
    } else if i == 141 {
        ("rdp3"@, "SFC ドーナツへいや3"@)
    } else if i == 142 {
        ("rdp"@, "SFC ドーナツへいや3"@)
    } else if i == 143 {
        ("dp3"@, "SFC ドーナツへいや3"@)
    } else if i == 144 {
        ("ﾄﾞｰﾅﾂﾍｲﾔ"@, "SFC ドーナツへいや3"@)
    } else if i == 145 {
        ("ﾍｲﾔ"@, "SFC ドーナツへいや3"@)
    } else if i == 146 {
        ("ﾄﾞｰﾅﾂ平野"@, "SFC ドーナツへいや3"@)
    } else if i == 147 {
        ("平野"@, "SFC ドーナツへいや3"@)
    } else if i == 148 {
        ("rrry"@, "N64 ピーチサーキット"@)
    } else if i == 149 {
        ("rry"@, "N64 ピーチサーキット"@)
    } else if i == 150 {
        ("ﾋﾟｰﾁｻｰｷｯﾄ"@, "N64 ピーチサーキット"@)
    } else if i == 151 {
        ("ﾋﾟﾁｻ"@, "N64 ピーチサーキット"@)
    } else if i == 152 {
        ("rdkj"@, "3DS DKジャングル"@)
    } else if i == 153 {
        ("dk"@, "3DS DKジャングル"@)
    } else if i == 154 {
        ("dkj"@, "3DS DKジャングル"@)
    } else if i == 155 {
        ("dkｼﾞｬﾝｸﾞﾙ"@, "3DS DKジャングル"@)
    } else if i == 156 {
        ("ｼﾞｬﾝｸﾞﾙ"@, "3DS DKジャングル"@)
    } else if i == 157 {
        ("rws"@, "DS ワリオスタジアム"@)
    } else if i == 158 {
        ("ws"@, "DS ワリオスタジアム"@)
    } else if i == 159 {
        ("ﾜﾘｵｽﾀｼﾞｱﾑ"@, "DS ワリオスタジアム"@)
    } else if i == 160 {
        ("ﾜﾘｽﾀ"@, "DS ワリオスタジアム"@)
    } else if i == 161 {
        ("rsl"@, "GC シャーベットランド"@)
    } else if i == 162 {
        ("sl"@, "GC シャーベットランド"@)
    } else if i == 163 {
        ("ｼｬｰﾍﾞｯﾄﾗﾝﾄﾞ"@, "GC シャーベットランド"@)
    } else if i == 164 {
        ("ｼｬｰﾍﾞｯﾄ"@, "GC シャーベットランド"@)
    } else if i == 165 {
        ("ｼｬﾍﾞﾗﾝ"@, "GC シャーベットランド"@)
    } else if i == 166 {
        ("ｼｬﾍﾞ"@, "GC シャーベットランド"@)
    } else if i == 167 {
        ("rmp"@, "3DS ミュージックパーク"@)
    } else if i == 168 {
        ("mp"@, "3DS ミュージックパーク"@)
    } else if i == 169 {
        ("ﾐｭｰｼﾞｯｸﾊﾟｰｸ"@, "3DS ミュージックパーク"@)
    } else if i == 170 {
        ("ﾐｭｰﾊﾟ"@, "3DS ミュージックパーク"@)
    } else if i == 171 {
        ("ryv"@, "N64 ヨッシーバレー"@)
    } else if i == 172 {
        ("yv"@, "N64 ヨッシーバレー"@)
    } else if i == 173 {
        ("ﾖｯｼｰﾊﾞﾚｰ"@, "N64 ヨッシーバレー"@)
    } else if i == 174 {
        ("ﾖｼﾊﾞ"@, "N64 ヨッシーバレー"@)
    } else if i == 175 {
        ("rttc"@, "DS チクタクロック"@)
    } else if i == 176 {
        ("ttc"@, "DS チクタクロック"@)
    } else if i == 177 {
        ("ﾁｸﾀｸﾛｯｸ"@, "DS チクタクロック"@)
    } else if i == 178 {
        ("ﾁｸﾀｸ"@, "DS チクタクロック"@)
    } else if i == 179 {
        ("rpps"@, "3DS パックンスライダー"@)
    } else if i == 180 {
        ("pps"@, "3DS パックンスライダー"@)
    } else if i == 181 {
        ("ﾊﾟｯｸﾝｽﾗｲﾀﾞｰ"@, "3DS パックンスライダー"@)
    } else if i == 182 {
        ("ﾊﾟｸｽﾗ"@, "3DS パックンスライダー"@)
    } else if i == 183 {
        ("ﾊﾟｯｸﾝ"@, "3DS パックンスライダー"@)
    } else if i == 184 {
        ("rgv"@, "Wii グラグラかざん"@)
    } else if i == 185 {
        ("gv"@, "Wii グラグラかざん"@)
    } else if i == 186 {
        ("ｸﾞﾗｸﾞﾗｶｻﾞﾝ"@, "Wii グラグラかざん"@)
    } else if i == 187 {
        ("ｸﾞﾗｸﾞﾗ"@, "Wii グラグラかざん"@)
    } else if i == 188 {
        ("ｶｻﾞﾝ"@, "Wii グラグラかざん"@)
    } else if i == 189 {
        ("rrrd"@, "N64 レインボーロード"@)
    } else if i == 190 {
        ("rrd"@, "N64 レインボーロード"@)
    } else if i == 191 {
        ("64ﾚｲﾝﾎﾞｰﾛｰﾄﾞ"@, "N64 レインボーロード"@)
    } else if i == 192 {
        ("64ﾆｼﾞ"@, "N64 レインボーロード"@)
    } else if i == 193 {
        ("64虹"@, "N64 レインボーロード"@)
    } else if i == 194 {
        ("ﾛｸﾖﾝ"@, "N64 レインボーロード"@)
    } else if i == 195 {
        ("dwgm"@, "Wii ワリオこうざん"@)
    } else if i == 196 {
        ("wgm"@, "Wii ワリオこうざん"@)
    } else if i == 197 {
        ("ﾜﾘｵｺｳｻﾞﾝ"@, "Wii ワリオこうざん"@)
    } else if i == 198 {
        ("ﾜﾘｺｳ"@, "Wii ワリオこうざん"@)
    } else if i == 199 {
        ("ﾜﾘｵ鉱山"@, "Wii ワリオこうざん"@)
    } else {
        (""@, ""@)
    }
}


/// Alias table entries 200 to 299; see [`spec_shorthand_entry`].
pub open spec fn spec_shorthand_entry_2(i: int) -> (Seq<char>, Seq<char>) {
    if i == 200 {
        ("ﾜﾘ鉱"@, "Wii ワリオこうざん"@)
    } else if i == 201 {
        ("drr"@, "SFC レインボーロード"@)
    } else if i == 202 {
        ("sfcﾆｼﾞ"@, "SFC レインボーロード"@)
    } else if i == 203 {
        ("sfcﾚｲﾝﾎﾞｰﾛｰﾄﾞ"@, "SFC レインボーロード"@)
    } else if i == 204 {
        ("sfc虹"@, "SFC レインボーロード"@)
    } else if i == 205 {
        ("sfc"@, "SFC レインボーロード"@)
    } else if i == 206 {
        ("diio"@, "ツルツルツイスター"@)
    } else if i == 207 {
        ("iio"@, "ツルツルツイスター"@)
    } else if i == 208 {
        ("ﾂﾙﾂﾙﾂｲｽﾀｰ"@, "ツルツルツイスター"@)
    } else if i == 209 {
        ("ﾂﾂﾂ"@, "ツルツルツイスター"@)
    } else if i == 210 {
        ("ﾂﾙﾂﾙ"@, "ツルツルツイスター"@)
    } else if i == 211 {
        ("dhc"@, "ハイラルサーキット"@)
    } else if i == 212 {
        ("hc"@, "ハイラルサーキット"@)
    } else if i == 213 {
        ("ﾊｲﾗﾙｻｰｷｯﾄ"@, "ハイラルサーキット"@)
    } else if i == 214 {
        ("ﾊｲﾗﾙ"@, "ハイラルサーキット"@)
    } else if i == 215 {
        ("dnbc"@, "3DS ネオクッパシティ"@)
    } else if i == 216 {
        ("nbc"@, "3DS ネオクッパシティ"@)
    } else if i == 217 {
        ("ﾈｵｸｯﾊﾟｼﾃｨ"@, "3DS ネオクッパシティ"@)
    } else if i == 218 {
        ("ﾈｵﾊﾟ"@, "3DS ネオクッパシティ"@)
    } else if i == 219 {
        ("ﾈｵｸｯﾊﾟ"@, "3DS ネオクッパシティ"@)
    } else if i == 220 {
        ("drir"@, "GBA リボンロード"@)
    } else if i == 221 {
        ("rir"@, "GBA リボンロード"@)
    } else if i == 222 {
        ("ﾘﾎﾞﾝﾛｰﾄﾞ"@, "GBA リボンロード"@)
    } else if i == 223 {
        ("ﾘﾎﾞﾝ"@, "GBA リボンロード"@)
    } else if i == 224 {
        ("dsbs"@, "リンリンメトロ"@)
    } else if i == 225 {
        ("sbs"@, "リンリンメトロ"@)
    } else if i == 226 {
        ("ﾘﾝﾘﾝﾒﾄﾛ"@, "リンリンメトロ"@)
    } else if i == 227 {
        ("ﾘﾝﾒﾄ"@, "リンリンメトロ"@)
    } else if i == 228 {
        ("dbb"@, "ビッグブルー"@)
    } else if i == 229 {
        ("bb"@, "ビッグブルー"@)
    } else if i == 230 {
        ("ﾋﾞｯｸﾞﾌﾞﾙｰ"@, "ビッグブルー"@)
    } else if i == 231 {
        ("bpp"@, "Tour パリプロムナード"@)
    } else if i == 232 {
        ("pp"@, "Tour パリプロムナード"@)
    } else if i == 233 {
        ("paris"@, "Tour パリプロムナード"@)
    } else if i == 234 {
        ("ﾊﾟﾘﾌﾟﾛﾑﾅｰﾄﾞ"@, "Tour パリプロムナード"@)
    } else if i == 235 {
        ("ﾊﾟﾘ"@, "Tour パリプロムナード"@)
    } else if i == 236 {
        ("btc"@, "3DS キノピオサーキット"@)
    } else if i == 237 {
        ("tc"@, "3DS キノピオサーキット"@)
    } else if i == 238 {
        ("ｷﾉﾋﾟｵｻｰｷｯﾄ"@, "3DS キノピオサーキット"@)
    } else if i == 239 {
        ("ｷﾉｻ"@, "3DS キノピオサーキット"@)
    } else if i == 240 {
        ("bcmo"@, "N64 チョコマウンテン"@)
    } else if i == 241 {
        ("bcm64"@, "N64 チョコマウンテン"@)
    } else if i == 242 {
        ("bchm"@, "N64 チョコマウンテン"@)
    } else if i == 243 {
        ("cmo"@, "N64 チョコマウンテン"@)
    } else if i == 244 {
        ("chm"@, "N64 チョコマウンテン"@)
    } else if i == 245 {
        ("cm64"@, "N64 チョコマウンテン"@)
    } else if i == 246 {
        ("ﾁｮｺﾏｳﾝﾃﾝ"@, "N64 チョコマウンテン"@)
    } else if i == 247 {
        ("ﾁｮｺ"@, "N64 チョコマウンテン"@)
    } else if i == 248 {
        ("ﾁｮｺﾏ"@, "N64 チョコマウンテン"@)
    } else if i == 249 {
        ("bcma"@, "Wii ココナッツモール"@)
    } else if i == 250 {
        ("bcom"@, "Wii ココナッツモール"@)
    } else if i == 251 {
        ("bcmw"@, "Wii ココナッツモール"@)
    } else if i == 252 {
        ("cma"@, "Wii ココナッツモール"@)
    } else if i == 253 {
        ("com"@, "Wii ココナッツモール"@)
    } else if i == 254 {
        ("cmw"@, "Wii ココナッツモール"@)
    } else if i == 255 {
        ("ｺｺﾅｯﾂﾓｰﾙ"@, "Wii ココナッツモール"@)
    } else if i == 256 {
        ("ｺｺﾓ"@, "Wii ココナッツモール"@)
    } else if i == 257 {
        ("ｺｺﾅｯﾂ"@, "Wii ココナッツモール"@)
    } else if i == 258 {
        ("ﾅｯﾂ"@, "Wii ココナッツモール"@)
    } else if i == 259 {
        ("btb"@, "Tour トーキョースクランブル"@)
    } else if i == 260 {
        ("tb"@, "Tour トーキョースクランブル"@)
    } else if i == 261 {
        ("tokyo"@, "Tour トーキョースクランブル"@)
    } else if i == 262 {
        ("ﾄｰｷｮｰｽｸﾗﾝﾌﾞﾙ"@, "Tour トーキョースクランブル"@)
    } else if i == 263 {
        ("ｽｸﾗﾝﾌﾞﾙ"@, "Tour トーキョースクランブル"@)
    } else if i == 264 {
        ("ﾄｰｷｮｰ"@, "Tour トーキョースクランブル"@)
    } else if i == 265 {
        ("ﾄｳｷｮｳ"@, "Tour トーキョースクランブル"@)
    } else if i == 266 {
        ("ﾄｰｷｮｳ"@, "Tour トーキョースクランブル"@)
    } else if i == 267 {
        ("ﾄｳｷｮｰ"@, "Tour トーキョースクランブル"@)
    } else if i == 268 {
        ("東京"@, "Tour トーキョースクランブル"@)
    } else if i == 269 {
        ("bsr"@, "DS キノコリッジウェイ"@)
    } else if i == 270 {
        ("sr"@, "DS キノコリッジウェイ"@)
    } else if i == 271 {
        ("ｷﾉｺﾘｯｼﾞｳｪｲ"@, "DS キノコリッジウェイ"@)
    } else if i == 272 {
        ("ｷﾉｺﾘｯｼﾞ"@, "DS キノコリッジウェイ"@)
    } else if i == 273 {
        ("ﾘｯｼﾞｳｪｲ"@, "DS キノコリッジウェイ"@)
    } else if i == 274 {
        ("ｷﾉｺﾘ"@, "DS キノコリッジウェイ"@)
    } else if i == 275 {
        ("ｷｺﾘ"@, "DS キノコリッジウェイ"@)
    } else if i == 276 {
        ("ﾘｯｼﾞ"@, "DS キノコリッジウェイ"@)
    } else if i == 277 {
        ("bsg"@, "GBA スカイガーデン"@)
    } else if i == 278 {
        ("sg"@, "GBA スカイガーデン"@)
    } else if i == 279 {
        ("gbaｽｶｲｶﾞｰﾃﾞﾝ"@, "GBA スカイガーデン"@)
    } else if i == 280 {
        ("gbaｽｶ"@, "GBA スカイガーデン"@)
    } else if i == 281 {
        ("ｸﾞﾊﾞｽｶ"@, "GBA スカイガーデン"@)
    } else if i == 282 {
        ("ｸﾞﾊﾞｽｶｶﾞ"@, "GBA スカイガーデン"@)
    } else if i == 283 {
        ("gbaｽｶｶﾞ"@, "GBA スカイガーデン"@)
    } else if i == 284 {
        ("bnh"@, "ニンニンドージョー"@)
    } else if i == 285 {
        ("nh"@, "ニンニンドージョー"@)
    } else if i == 286 {
        ("ﾆﾝﾆﾝﾄﾞｰｼﾞｮｰ"@, "ニンニンドージョー"@)
    } else if i == 287 {
        ("ﾆﾝｼﾞｮｰ"@, "ニンニンドージョー"@)
    } else if i == 288 {
        ("ﾆﾝﾆﾝ"@, "ニンニンドージョー"@)
    } else if i == 289 {
        ("bnym"@, "Tour ニューヨークドリーム"@)
    } else if i == 290 {
        ("nym"@, "Tour ニューヨークドリーム"@)
    } else if i == 291 {
        ("ﾆｭｰﾖｰｸﾄﾞﾘｰﾑ"@, "Tour ニューヨークドリーム"@)
    } else if i == 292 {
        ("ﾆｭｰﾖｰｸ"@, "Tour ニューヨークドリーム"@)
    } else if i == 293 {
        ("ﾆｭｰﾄﾞﾘ"@, "Tour ニューヨークドリーム"@)
    } else if i == 294 {
        ("ny"@, "Tour ニューヨークドリーム"@)
    } else if i == 295 {
        ("bmc3"@, "SFC マリオサーキット3"@)
    } else if i == 296 {
        ("mc3"@, "SFC マリオサーキット3"@)
    } else if i == 297 {
        ("ﾏﾘｵｻｰｷｯﾄ3"@, "SFC マリオサーキット3"@)
    } else if i == 298 {
        ("ﾏﾘｻ3"@, "SFC マリオサーキット3"@)
    } else if i == 299 {
        ("sfcﾏﾘｻ"@, "SFC マリオサーキット3"@)
    } else {
        (""@, ""@)
    }
}


/// Alias table entries 300 to 399; see [`spec_shorthand_entry`].
pub open spec fn spec_shorthand_entry_3(i: int) -> (Seq<char>, Seq<char>) {
    if i == 300 {
        ("sfcﾏﾘｵｻｰｷｯﾄ"@, "SFC マリオサーキット3"@)
    } else if i == 301 {
        ("sfcﾏﾘｻ3"@, "SFC マリオサーキット3"@)
    } else if i == 302 {
        ("sfcﾏﾘｵｻｰｷｯﾄ3"@, "SFC マリオサーキット3"@)
    } else if i == 303 {
        ("bkd"@, "N64 カラカラさばく"@)
    } else if i == 304 {
        ("kd"@, "N64 カラカラさばく"@)
    } else if i == 305 {
        ("64ｶﾗｻﾊﾞ"@, "N64 カラカラさばく"@)
    } else if i == 306 {
        ("64ｶﾗ"@, "N64 カラカラさばく"@)
    } else if i == 307 {
        ("64ｻﾊﾞ"@, "N64 カラカラさばく"@)
    } else if i == 308 {
        ("bwp"@, "DS ワルイージピンボール"@)
    } else if i == 309 {
        ("ﾜﾙｲｰｼﾞﾋﾟﾝﾎﾞｰﾙ"@, "DS ワルイージピンボール"@)
    } else if i == 310 {
        ("ﾜﾙﾋﾟﾝ"@, "DS ワルイージピンボール"@)
    } else if i == 311 {
        ("ﾋﾟﾝﾎﾞｰﾙ"@, "DS ワルイージピンボール"@)
    } else if i == 312 {
        ("bss"@, "Tour シドニーサンシャイン"@)
    } else if i == 313 {
        ("ss"@, "Tour シドニーサンシャイン"@)
    } else if i == 314 {
        ("bsys"@, "Tour シドニーサンシャイン"@)
    } else if i == 315 {
        ("sys"@, "Tour シドニーサンシャイン"@)
    } else if i == 316 {
        ("ｼﾄﾞﾆｰｻﾝｼｬｲﾝ"@, "Tour シドニーサンシャイン"@)
    } else if i == 317 {
        ("ｼﾄﾞﾆｰ"@, "Tour シドニーサンシャイン"@)
    } else if i == 318 {
        ("bsl"@, "GBA スノーランド"@)
    } else if i == 319 {
        ("ｽﾉｰﾗﾝﾄﾞ"@, "GBA スノーランド"@)
    } else if i == 320 {
        ("ｽﾉﾗﾝ"@, "GBA スノーランド"@)
    } else if i == 321 {
        ("bmg"@, "Wii キノコキャニオン"@)
    } else if i == 322 {
        ("mg"@, "Wii キノコキャニオン"@)
    } else if i == 323 {
        ("ｷﾉｺｷｬﾆｵﾝ"@, "Wii キノコキャニオン"@)
    } else if i == 324 {
        ("ｷﾉｷｬﾆ"@, "Wii キノコキャニオン"@)
    } else if i == 325 {
        ("ｷｬﾆｵﾝ"@, "Wii キノコキャニオン"@)
    } else if i == 326 {
        ("bshs"@, "アイスビルディング"@)
    } else if i == 327 {
        ("shs"@, "アイスビルディング"@)
    } else if i == 328 {
        ("ｱｲｽﾋﾞﾙﾃﾞｨﾝｸﾞ"@, "アイスビルディング"@)
    } else if i == 329 {
        ("ｱｲｽ"@, "アイスビルディング"@)
    } else if i == 330 {
        ("bll"@, "Tour ロンドンアベニュー"@)
    } else if i == 331 {
        ("ll"@, "Tour ロンドンアベニュー"@)
    } else if i == 332 {
        ("ﾛﾝﾄﾞﾝｱﾍﾞﾆｭｰ"@, "Tour ロンドンアベニュー"@)
    } else if i == 333 {
        ("ﾛﾝﾄﾞﾝ"@, "Tour ロンドンアベニュー"@)
    } else if i == 334 {
        ("bbl"@, "GBA テレサレイク"@)
    } else if i == 335 {
        ("bl"@, "GBA テレサレイク"@)
    } else if i == 336 {
        ("ﾃﾚｻﾚｲｸ"@, "GBA テレサレイク"@)
    } else if i == 337 {
        ("ﾚｲｸ"@, "GBA テレサレイク"@)
    } else if i == 338 {
        ("ﾃﾚｲｸ"@, "GBA テレサレイク"@)
    } else if i == 339 {
        ("brrm"@, "3DS ロックロックマウンテン"@)
    } else if i == 340 {
        ("rrm"@, "3DS ロックロックマウンテン"@)
    } else if i == 341 {
        ("ﾛｯｸﾛｯｸﾏｳﾝﾃﾝ"@, "3DS ロックロックマウンテン"@)
    } else if i == 342 {
        ("ﾛｸﾏ"@, "3DS ロックロックマウンテン"@)
    } else if i == 343 {
        ("ﾛｯｸ"@, "3DS ロックロックマウンテン"@)
    } else if i == 344 {
        ("岩山"@, "3DS ロックロックマウンテン"@)
    } else if i == 345 {
        ("ﾛｯｸﾛｯｸ"@, "3DS ロックロックマウンテン"@)
    } else if i == 346 {
        ("bmt"@, "Wii メイプルツリーハウス"@)
    } else if i == 347 {
        ("mt"@, "Wii メイプルツリーハウス"@)
    } else if i == 348 {
        ("ﾒｲﾌﾟﾙﾂﾘｰﾊｳｽ"@, "Wii メイプルツリーハウス"@)
    } else if i == 349 {
        ("ﾒｲﾌﾟﾙ"@, "Wii メイプルツリーハウス"@)
    } else if i == 350 {
        ("bbb"@, "Tour ベルリンシュトラーセ"@)
    } else if i == 351 {
        ("ﾍﾞﾙﾘﾝｼｭﾄﾗｰｾ"@, "Tour ベルリンシュトラーセ"@)
    } else if i == 352 {
        ("ﾍﾞﾙﾘﾝ"@, "Tour ベルリンシュトラーセ"@)
    } else if i == 353 {
        ("bpg"@, "DS ピーチガーデン"@)
    } else if i == 354 {
        ("pg"@, "DS ピーチガーデン"@)
    } else if i == 355 {
        ("ﾋﾟｰﾁｶﾞｰﾃﾞﾝ"@, "DS ピーチガーデン"@)
    } else if i == 356 {
        ("ﾋﾟﾁｶﾞ"@, "DS ピーチガーデン"@)
    } else if i == 357 {
        ("ｶﾞｰﾃﾞﾝ"@, "DS ピーチガーデン"@)
    } else if i == 358 {
        ("bmm"@, "メリーメリーマウンテン"@)
    } else if i == 359 {
        ("mm"@, "メリーメリーマウンテン"@)
    } else if i == 360 {
        ("ﾒﾘｰﾒﾘｰﾏｳﾝﾃﾝ"@, "メリーメリーマウンテン"@)
    } else if i == 361 {
        ("ﾒﾘﾏ"@, "メリーメリーマウンテン"@)
    } else if i == 362 {
        ("ﾒﾘｰﾒﾘｰ"@, "メリーメリーマウンテン"@)
    } else if i == 363 {
        ("ﾒﾘｰ"@, "メリーメリーマウンテン"@)
    } else if i == 364 {
        ("ﾒﾘﾔﾏ"@, "メリーメリーマウンテン"@)
    } else if i == 365 {
        ("ﾒﾘ山"@, "メリーメリーマウンテン"@)
    } else if i == 366 {
        ("brr7"@, "3DS レインボーロード"@)
    } else if i == 367 {
        ("rr7"@, "3DS レインボーロード"@)
    } else if i == 368 {
        ("3dsﾆｼﾞ"@, "3DS レインボーロード"@)
    } else if i == 369 {
        ("3ds虹"@, "3DS レインボーロード"@)
    } else if i == 370 {
        ("7ﾆｼﾞ"@, "3DS レインボーロード"@)
    } else if i == 371 {
        ("7虹"@, "3DS レインボーロード"@)
    } else if i == 372 {
        ("bad"@, "Tour アムステルダムブルーム"@)
    } else if i == 373 {
        ("ad"@, "Tour アムステルダムブルーム"@)
    } else if i == 374 {
        ("amsterdam"@, "Tour アムステルダムブルーム"@)
    } else if i == 375 {
        ("ｱﾑｽﾃﾙﾀﾞﾑﾌﾞﾙｰﾑ"@, "Tour アムステルダムブルーム"@)
    } else if i == 376 {
        ("ｱﾑｽﾃﾙﾀﾞﾑ"@, "Tour アムステルダムブルーム"@)
    } else if i == 377 {
        ("ｱﾑｽ"@, "Tour アムステルダムブルーム"@)
    } else if i == 378 {
        ("ﾌﾞﾙｰﾑ"@, "Tour アムステルダムブルーム"@)
    } else if i == 379 {
        ("brp"@, "GBA リバーサイドパーク"@)
    } else if i == 380 {
        ("rp"@, "GBA リバーサイドパーク"@)
    } else if i == 381 {
        ("ﾘﾊﾞｰｻｲﾄﾞﾊﾟｰｸ"@, "GBA リバーサイドパーク"@)
    } else if i == 382 {
        ("ﾘﾊﾞｰｻｲﾄﾞ"@, "GBA リバーサイドパーク"@)
    } else if i == 383 {
        ("ﾘﾊﾞﾊﾟ"@, "GBA リバーサイドパーク"@)
    } else if i == 384 {
        ("bdks"@, "Wii DKスノーボードクロス"@)
    } else if i == 385 {
        ("dks"@, "Wii DKスノーボードクロス"@)
    } else if i == 386 {
        ("summit"@, "Wii DKスノーボードクロス"@)
    } else if i == 387 {
        ("dkｽﾉｰﾎﾞｰﾄﾞｸﾛｽ"@, "Wii DKスノーボードクロス"@)
    } else if i == 388 {
        ("ｽﾉｰﾎﾞｰﾄﾞｸﾛｽ"@, "Wii DKスノーボードクロス"@)
    } else if i == 389 {
        ("ｽﾉﾎﾞｸﾛｽ"@, "Wii DKスノーボードクロス"@)
    } else if i == 390 {
        ("ｽﾉﾎﾞ"@, "Wii DKスノーボードクロス"@)
    } else if i == 391 {
        ("byi"@, "ヨッシーアイランド"@)
    } else if i == 392 {
        ("yi"@, "ヨッシーアイランド"@)
    } else if i == 393 {
        ("ﾖｯｼｰｱｲﾗﾝﾄﾞ"@, "ヨッシーアイランド"@)
    } else if i == 394 {
        ("ﾖｼｱｲ"@, "ヨッシーアイランド"@)
    } else if i == 395 {
        ("bbr"@, "Tour バンコクラッシュ"@)
    } else if i == 396 {
        ("br"@, "Tour バンコクラッシュ"@)
    } else if i == 397 {
        ("bangkok"@, "Tour バンコクラッシュ"@)
    } else if i == 398 {
        ("ﾊﾞﾝｺｸﾗｯｼｭ"@, "Tour バンコクラッシュ"@)
    } else if i == 399 {
        ("ﾊﾞﾝｺｸ"@, "Tour バンコクラッシュ"@)
    } else {
        (""@, ""@)
    }
}


/// Alias table entries 400 to 496; see [`spec_shorthand_entry`].
pub open spec fn spec_shorthand_entry_4(i: int) -> (Seq<char>, Seq<char>) {
    if i == 400 {
        ("bmc"@, "DS マリオサーキット"@)
    } else if i == 401 {
        ("dsﾏﾘｵｻｰｷｯﾄ"@, "DS マリオサーキット"@)
    } else if i == 402 {
        ("dsﾏﾘｻ"@, "DS マリオサーキット"@)
    } else if i == 403 {
        ("bws"@, "GC ワルイージスタジアム"@)
    } else if i == 404 {
        ("ﾜﾙｲｰｼﾞｽﾀｼﾞｱﾑ"@, "GC ワルイージスタジアム"@)
    } else if i == 405 {
        ("ﾜﾙｽﾀ"@, "GC ワルイージスタジアム"@)
    } else if i == 406 {
        ("bssy"@, "Tour シンガポールスプラッシュ"@)
    } else if i == 407 {
        ("ssy"@, "Tour シンガポールスプラッシュ"@)
    } else if i == 408 {
        ("bsis"@, "Tour シンガポールスプラッシュ"@)
    } else if i == 409 {
        ("sis"@, "Tour シンガポールスプラッシュ"@)
    } else if i == 410 {
        ("singapore"@, "Tour シンガポールスプラッシュ"@)
    } else if i == 411 {
        ("ｼﾝｶﾞﾎﾟｰﾙｽﾌﾟﾗｯｼｭ"@, "Tour シンガポールスプラッシュ"@)
    } else if i == 412 {
        ("ｼﾝｶﾞﾎﾟｰﾙ"@, "Tour シンガポールスプラッシュ"@)
    } else if i == 413 {
        ("bada"@, "Tour アテネポリス"@)
    } else if i == 414 {
        ("ada"@, "Tour アテネポリス"@)
    } else if i == 415 {
        ("athens"@, "Tour アテネポリス"@)
    } else if i == 416 {
        ("ｱﾃﾈﾎﾟﾘｽ"@, "Tour アテネポリス"@)
    } else if i == 417 {
        ("ｱﾃﾈ"@, "Tour アテネポリス"@)
    } else if i == 418 {
        ("bdc"@, "GC デイジークルーザー"@)
    } else if i == 419 {
        ("dc"@, "GC デイジークルーザー"@)
    } else if i == 420 {
        ("ﾃﾞｲｼﾞｰｸﾙｰｻﾞｰ"@, "GC デイジークルーザー"@)
    } else if i == 421 {
        ("ﾃﾞｲｸﾙ"@, "GC デイジークルーザー"@)
    } else if i == 422 {
        ("bmh"@, "Wii ムーンリッジ&ハイウェイ"@)
    } else if i == 423 {
        ("mh"@, "Wii ムーンリッジ&ハイウェイ"@)
    } else if i == 424 {
        ("ﾑｰﾝﾘｯｼﾞ"@, "Wii ムーンリッジ&ハイウェイ"@)
    } else if i == 425 {
        ("ﾑﾝﾊｲ"@, "Wii ムーンリッジ&ハイウェイ"@)
    } else if i == 426 {
        ("ﾑｰﾝﾊｲ"@, "Wii ムーンリッジ&ハイウェイ"@)
    } else if i == 427 {
        ("bscs"@, "シャボンロード"@)
    } else if i == 428 {
        ("scs"@, "シャボンロード"@)
    } else if i == 429 {
        ("ｼｬﾎﾞﾝﾛｰﾄﾞ"@, "シャボンロード"@)
    } else if i == 430 {
        ("ｼｬﾎﾞﾝ"@, "シャボンロード"@)
    } else if i == 431 {
        ("ｼｬﾎﾞﾛ"@, "シャボンロード"@)
    } else if i == 432 {
        ("blal"@, "Tour ロサンゼルスコースト"@)
    } else if i == 433 {
        ("lal"@, "Tour ロサンゼルスコースト"@)
    } else if i == 434 {
        ("losangeles"@, "Tour ロサンゼルスコースト"@)
    } else if i == 435 {
        ("los"@, "Tour ロサンゼルスコースト"@)
    } else if i == 436 {
        ("ﾛｻﾝｾﾞﾙｽｺｰｽﾄ"@, "Tour ロサンゼルスコースト"@)
    } else if i == 437 {
        ("ﾛｻﾝｾﾞﾙｽ"@, "Tour ロサンゼルスコースト"@)
    } else if i == 438 {
        ("ﾛｽ"@, "Tour ロサンゼルスコースト"@)
    } else if i == 439 {
        ("bsw"@, "GBA サンセットこうや"@)
    } else if i == 440 {
        ("sw"@, "GBA サンセットこうや"@)
    } else if i == 441 {
        ("ｻﾝｾｯﾄｺｳﾔ"@, "GBA サンセットこうや"@)
    } else if i == 442 {
        ("ｻﾝｾｯﾄ"@, "GBA サンセットこうや"@)
    } else if i == 443 {
        ("ｺｳﾔ"@, "GBA サンセットこうや"@)
    } else if i == 444 {
        ("ｻﾝｾ"@, "GBA サンセットこうや"@)
    } else if i == 445 {
        ("bkc"@, "Wii ノコノコみさき"@)
    } else if i == 446 {
        ("kc"@, "Wii ノコノコみさき"@)
    } else if i == 447 {
        ("ﾉｺﾉｺﾐｻｷ"@, "Wii ノコノコみさき"@)
    } else if i == 448 {
        ("ﾉｺﾉｺ"@, "Wii ノコノコみさき"@)
    } else if i == 449 {
        ("ﾉｺﾐｻ"@, "Wii ノコノコみさき"@)
    } else if i == 450 {
        ("ﾉｺﾐ"@, "Wii ノコノコみさき"@)
    } else if i == 451 {
        ("bvv"@, "Tour バンクーバーバレー"@)
    } else if i == 452 {
        ("vv"@, "Tour バンクーバーバレー"@)
    } else if i == 453 {
        ("vancouver"@, "Tour バンクーバーバレー"@)
    } else if i == 454 {
        ("ﾊﾞﾝｸｰﾊﾞｰﾊﾞﾚｰ"@, "Tour バンクーバーバレー"@)
    } else if i == 455 {
        ("ﾊﾞﾝｸｰﾊﾞｰ"@, "Tour バンクーバーバレー"@)
    } else if i == 456 {
        ("bra"@, "Tour ローマアバンティ"@)
    } else if i == 457 {
        ("ra"@, "Tour ローマアバンティ"@)
    } else if i == 458 {
        ("rome"@, "Tour ローマアバンティ"@)
    } else if i == 459 {
        ("ﾛｰﾏｱﾊﾞﾝﾃｨ"@, "Tour ローマアバンティ"@)
    } else if i == 460 {
        ("ﾛｰﾏ"@, "Tour ローマアバンティ"@)
    } else if i == 461 {
        ("bdkm"@, "GC DKマウンテン"@)
    } else if i == 462 {
        ("dkm"@, "GC DKマウンテン"@)
    } else if i == 463 {
        ("dkﾏｳﾝﾃﾝ"@, "GC DKマウンテン"@)
    } else if i == 464 {
        ("dkﾔﾏ"@, "GC DKマウンテン"@)
    } else if i == 465 {
        ("dk山"@, "GC DKマウンテン"@)
    } else if i == 466 {
        ("bdci"@, "Wii デイジーサーキット"@)
    } else if i == 467 {
        ("dci"@, "Wii デイジーサーキット"@)
    } else if i == 468 {
        ("ﾃﾞｲｼﾞｰｻｰｷｯﾄ"@, "Wii デイジーサーキット"@)
    } else if i == 469 {
        ("ﾃﾞｲｻ"@, "Wii デイジーサーキット"@)
    } else if i == 470 {
        ("bppc"@, "パックンしんでん"@)
    } else if i == 471 {
        ("ppc"@, "パックンしんでん"@)
    } else if i == 472 {
        ("ﾊﾟｯｸﾝｼﾝﾃﾞﾝ"@, "パックンしんでん"@)
    } else if i == 473 {
        ("ﾊﾟｸｼﾝ"@, "パックンしんでん"@)
    } else if i == 474 {
        ("ｼﾝﾃﾞﾝ"@, "パックンしんでん"@)
    } else if i == 475 {
        ("bmd"@, "Tour マドリードグランデ"@)
    } else if i == 476 {
        ("md"@, "Tour マドリードグランデ"@)
    } else if i == 477 {
        ("madrid"@, "Tour マドリードグランデ"@)
    } else if i == 478 {
        ("ﾏﾄﾞﾘｰﾄﾞｸﾞﾗﾝﾃﾞ"@, "Tour マドリードグランデ"@)
    } else if i == 479 {
        ("ﾏﾄﾞﾘｰﾄﾞ"@, "Tour マドリードグランデ"@)
    } else if i == 480 {
        ("briw"@, "3DS ロゼッタプラネット"@)
    } else if i == 481 {
        ("riw"@, "3DS ロゼッタプラネット"@)
    } else if i == 482 {
        ("ﾛｾﾞｯﾀﾌﾟﾗﾈｯﾄ"@, "3DS ロゼッタプラネット"@)
    } else if i == 483 {
        ("ﾛｾﾞﾌﾟﾗ"@, "3DS ロゼッタプラネット"@)
    } else if i == 484 {
        ("bbc3"@, "SFC クッパじょう3"@)
    } else if i == 485 {
        ("bbc3"@, "SFC クッパじょう3"@)
    } else if i == 486 {
        ("bc3"@, "SFC クッパじょう3"@)
    } else if i == 487 {
        ("ｸｯﾊﾟｼﾞｮｳ3"@, "SFC クッパじょう3"@)
    } else if i == 488 {
        ("ｸｯﾊﾟｼﾞｮｳ"@, "SFC クッパじょう3"@)
    } else if i == 489 {
        ("ｸｯﾊﾟ城"@, "SFC クッパじょう3"@)
    } else if i == 490 {
        ("brr"@, "Wii レインボーロード"@)
    } else if i == 491 {
        ("brrw"@, "Wii レインボーロード"@)
    } else if i == 492 {
        ("rrw"@, "Wii レインボーロード"@)
    } else if i == 493 {
        ("wiiﾆｼﾞ"@, "Wii レインボーロード"@)
    } else if i == 494 {
        ("wiiﾚｲﾝﾎﾞｰﾛｰﾄﾞ"@, "Wii レインボーロード"@)
    } else if i == 495 {
        ("wii虹"@, "Wii レインボーロード"@)
    } else if i == 496 {
        ("ｳｨｰﾆｼﾞ"@, "Wii レインボーロード"@)
    } else {
        (""@, ""@)
    }
}


/// Alias table entry `i`: the alias and the display form of the course it
/// names. Indices outside the table give empty strings.
pub open spec fn spec_shorthand_entry(i: int) -> (Seq<char>, Seq<char>) {
    if i < 100 {
        spec_shorthand_entry_0(i)
    } else if i < 200 {
        spec_shorthand_entry_1(i)
    } else if i < 300 {
        spec_shorthand_entry_2(i)
    } else if i < 400 {
        spec_shorthand_entry_3(i)
    } else if i < 497 {
        spec_shorthand_entry_4(i)
    } else {
        (""@, ""@)
    }
}


fn push_shorthand(v: &mut Vec<(String, String)>, alias: &str, display: &str)
    ensures
        final(v)@.len() == old(v)@.len() + 1,
        forall|i: int| 0 <= i < old(v)@.len() ==> final(v)@[i] == old(v)@[i],
        final(v)@[old(v)@.len() as int].0@ == alias@,
        final(v)@[old(v)@.len() as int].1@ == display@,
{
    v.push((alias.to_owned(), display.to_owned()));
}


fn push_shorthands_0(v: &mut Vec<(String, String)>)
    requires
        old(v)@.len() == 0,
    ensures
        final(v)@.len() == 50,
        forall|i: int| 0 <= i < 0 ==> final(v)@[i] == old(v)@[i],
        forall|i: int|
            0 <= i < 50 ==> (#[trigger] final(v)@[i]).0@ == spec_shorthand_entry(i).0
                && final(v)@[i].1@ == spec_shorthand_entry(i).1,
{
    push_shorthand(v, "mks", "マリオカートスタジアム");
    push_shorthand(v, "ﾏﾘｵｶｰﾄｽﾀｼﾞｱﾑ", "マリオカートスタジアム");
    push_shorthand(v, "ﾏﾘｶｽ", "マリオカートスタジアム");
    push_shorthand(v, "wp", "ウォーターパーク");
    push_shorthand(v, "ｳｫｰﾀﾊﾟｰｸ", "ウォーターパーク");
    push_shorthand(v, "ｦｰﾀｰﾊﾟｰｸ", "ウォーターパーク");
    push_shorthand(v, "ｳｫﾀﾊﾟ", "ウォーターパーク");
    push_shorthand(v, "ｦﾀﾊﾟ", "ウォーターパーク");
    push_shorthand(v, "ｵﾀﾊﾟ", "ウォーターパーク");
    push_shorthand(v, "ssc", "スイーツキャニオン");
    push_shorthand(v, "ｽｲｰﾂｷｬﾆｵﾝ", "スイーツキャニオン");
    push_shorthand(v, "ｽｲｷｬﾆ", "スイーツキャニオン");
    push_shorthand(v, "tr", "ドッスンいせき");
    push_shorthand(v, "ﾄﾞｯｽﾝｲｾｷ", "ドッスンいせき");
    push_shorthand(v, "ﾄﾞｯｽﾝ", "ドッスンいせき");
    push_shorthand(v, "ｲｾｷ", "ドッスンいせき");
    push_shorthand(v, "ﾄﾞｯｽﾝ遺跡", "ドッスンいせき");
    push_shorthand(v, "遺跡", "ドッスンいせき");
    push_shorthand(v, "mc", "マリオサーキット");
    push_shorthand(v, "ﾏﾘｵｻｰｷｯﾄ", "マリオサーキット");
    push_shorthand(v, "ﾏﾘｻ", "マリオサーキット");
    push_shorthand(v, "新ﾏﾘｻ", "マリオサーキット");
    push_shorthand(v, "ｼﾝﾏﾘｻ", "マリオサーキット");
    push_shorthand(v, "th", "キノピオハーバー");
    push_shorthand(v, "ｷﾉﾋﾟｵﾊｰﾊﾞｰ", "キノピオハーバー");
    push_shorthand(v, "ﾊｰﾊﾞｰ", "キノピオハーバー");
    push_shorthand(v, "tm", "ねじれマンション");
    push_shorthand(v, "ﾈｼﾞﾚﾏﾝｼｮﾝ", "ねじれマンション");
    push_shorthand(v, "ﾈｼﾞﾏﾝ", "ねじれマンション");
    push_shorthand(v, "ﾈｼﾞﾚ", "ねじれマンション");
    push_shorthand(v, "ﾈｼﾞｼｮﾝ", "ねじれマンション");
    push_shorthand(v, "ﾈｼﾞ", "ねじれマンション");
    push_shorthand(v, "ﾈｼﾞﾈｼﾞ", "ねじれマンション");
    push_shorthand(v, "ﾏﾝｼｮﾝ", "ねじれマンション");
    push_shorthand(v, "sgf", "ヘイホーこうざん");
    push_shorthand(v, "ﾍｲﾎｰｺｳｻﾞﾝ", "ヘイホーこうざん");
    push_shorthand(v, "ﾍｲﾎｰ鉱山", "ヘイホーこうざん");
    push_shorthand(v, "ﾍｲｺｰ", "ヘイホーこうざん");
    push_shorthand(v, "ﾍｲｺｳ", "ヘイホーこうざん");
    push_shorthand(v, "ﾍｲ鉱", "ヘイホーこうざん");
    push_shorthand(v, "sa", "サンシャインくうこう");
    push_shorthand(v, "ｻﾝｼｬｲﾝｸｳｺｳ", "サンシャインくうこう");
    push_shorthand(v, "空港", "サンシャインくうこう");
    push_shorthand(v, "ｸｳｺｳ", "サンシャインくうこう");
    push_shorthand(v, "ｻﾝｼｬｲﾝ", "サンシャインくうこう");
    push_shorthand(v, "ds", "ドルフィンみさき");
    push_shorthand(v, "ﾄﾞﾙﾌｨﾝﾐｻｷ", "ドルフィンみさき");
    push_shorthand(v, "ﾄﾞﾙﾐ", "ドルフィンみさき");
    push_shorthand(v, "ﾐｻｷ", "ドルフィンみさき");
    push_shorthand(v, "ﾄﾞﾙﾌｨﾝ岬", "ドルフィンみさき");
}


fn push_shorthands_1(v: &mut Vec<(String, String)>)
    requires
        old(v)@.len() == 50,
    ensures
        final(v)@.len() == 100,
        forall|i: int| 0 <= i < 50 ==> final(v)@[i] == old(v)@[i],
        forall|i: int|
            50 <= i < 100 ==> (#[trigger] final(v)@[i]).0@ == spec_shorthand_entry(i).0
                && final(v)@[i].1@ == spec_shorthand_entry(i).1,
{
    push_shorthand(v, "岬", "ドルフィンみさき");
    push_shorthand(v, "ed", "エレクトロドリーム");
    push_shorthand(v, "ｴﾚｸﾄﾛﾄﾞﾘｰﾑ", "エレクトロドリーム");
    push_shorthand(v, "ｴﾚﾄﾞ", "エレクトロドリーム");
    push_shorthand(v, "ｴﾚﾄﾞﾘ", "エレクトロドリーム");
    push_shorthand(v, "mw", "ワリオスノーマウンテン");
    push_shorthand(v, "ﾜﾘｵｽﾉｰﾏｳﾝﾃﾝ", "ワリオスノーマウンテン");
    push_shorthand(v, "ﾜﾘｽﾉ", "ワリオスノーマウンテン");
    push_shorthand(v, "ﾕｷﾔﾏ", "ワリオスノーマウンテン");
    push_shorthand(v, "雪山", "ワリオスノーマウンテン");
    push_shorthand(v, "ｽﾉ", "ワリオスノーマウンテン");
    push_shorthand(v, "ﾕｷﾔﾏｳﾝﾃﾝ", "ワリオスノーマウンテン");
    push_shorthand(v, "cc", "スカイガーデン");
    push_shorthand(v, "ｽｶｲｶﾞｰﾃﾞﾝ", "スカイガーデン");
    push_shorthand(v, "ｽｶｶﾞ", "スカイガーデン");
    push_shorthand(v, "bdd", "ホネホネさばく");
    push_shorthand(v, "ﾎﾈﾎﾈｻﾊﾞｸ", "ホネホネさばく");
    push_shorthand(v, "ﾎﾈｻﾊﾞ", "ホネホネさばく");
    push_shorthand(v, "ﾎﾈﾎﾈ", "ホネホネさばく");
    push_shorthand(v, "bc", "クッパキャッスル");
    push_shorthand(v, "ｸｯﾊﾟｷｬｯｽﾙ", "クッパキャッスル");
    push_shorthand(v, "ｸﾊﾟｷｬ", "クッパキャッスル");
    push_shorthand(v, "ｸｷｬﾊﾟ", "クッパキャッスル");
    push_shorthand(v, "ｸｯｷｬﾊﾟｯｽﾙ", "クッパキャッスル");
    push_shorthand(v, "rr", "レインボーロード");
    push_shorthand(v, "ﾚｲﾝﾎﾞｰﾛｰﾄﾞ", "レインボーロード");
    push_shorthand(v, "新虹", "レインボーロード");
    push_shorthand(v, "ｼﾝﾆｼﾞ", "レインボーロード");
    push_shorthand(v, "dyc", "GC ヨッシーサーキット");
    push_shorthand(v, "yc", "GC ヨッシーサーキット");
    push_shorthand(v, "ﾖｯｼｰｻｰｷｯﾄ", "GC ヨッシーサーキット");
    push_shorthand(v, "ﾖｼｻ", "GC ヨッシーサーキット");
    push_shorthand(v, "dea", "エキサイトバイク");
    push_shorthand(v, "ea", "エキサイトバイク");
    push_shorthand(v, "ｴｷｻｲﾄﾊﾞｲｸ", "エキサイトバイク");
    push_shorthand(v, "ｴｷﾊﾞ", "エキサイトバイク");
    push_shorthand(v, "ddd", "ドラゴンロード");
    push_shorthand(v, "dd", "ドラゴンロード");
    push_shorthand(v, "ﾄﾞﾗｺﾞﾝﾛｰﾄﾞ", "ドラゴンロード");
    push_shorthand(v, "ﾄﾞﾗﾛ", "ドラゴンロード");
    push_shorthand(v, "dmc", "ミュートシティ");
    push_shorthand(v, "ﾐｭｰﾄｼﾃｨ", "ミュートシティ");
    push_shorthand(v, "ﾐｭｰﾄ", "ミュートシティ");
    push_shorthand(v, "dbp", "GC ベビィパーク");
    push_shorthand(v, "bp", "GC ベビィパーク");
    push_shorthand(v, "ﾍﾞﾋﾞｨﾊﾟｰｸ", "GC ベビィパーク");
    push_shorthand(v, "ﾍﾞﾋﾞｰﾊﾟｰｸ", "GC ベビィパーク");
    push_shorthand(v, "ﾍﾞﾋﾞﾊﾟ", "GC ベビィパーク");
    push_shorthand(v, "dcl", "GBA チーズランド");
    push_shorthand(v, "cl", "GBA チーズランド");
}


fn push_shorthands_2(v: &mut Vec<(String, String)>)
    requires
        old(v)@.len() == 100,
    ensures
        final(v)@.len() == 150,
        forall|i: int| 0 <= i < 100 ==> final(v)@[i] == old(v)@[i],
        forall|i: int|
            100 <= i < 150 ==> (#[trigger] final(v)@[i]).0@ == spec_shorthand_entry(i).0
                && final(v)@[i].1@ == spec_shorthand_entry(i).1,
{
    push_shorthand(v, "ﾁｰｽﾞﾗﾝﾄﾞ", "GBA チーズランド");
    push_shorthand(v, "ﾁｰｽﾞ", "GBA チーズランド");
    push_shorthand(v, "dww", "ネイチャーロード");
    push_shorthand(v, "ww", "ネイチャーロード");
    push_shorthand(v, "ﾈｲﾁｬｰﾗﾝﾄﾞ", "ネイチャーロード");
    push_shorthand(v, "ﾈｲﾁｬｰ", "ネイチャーロード");
    push_shorthand(v, "ﾅﾁｭﾚ", "ネイチャーロード");
    push_shorthand(v, "dac", "どうぶつの森");
    push_shorthand(v, "ac", "どうぶつの森");
    push_shorthand(v, "ﾄﾞｳﾌﾞﾂﾉﾓﾘ", "どうぶつの森");
    push_shorthand(v, "ﾄﾞｳﾓﾘ", "どうぶつの森");
    push_shorthand(v, "ﾌﾞﾂﾓﾘ", "どうぶつの森");
    push_shorthand(v, "ﾄﾞｳ森", "どうぶつの森");
    push_shorthand(v, "ﾌﾞﾂ森", "どうぶつの森");
    push_shorthand(v, "ﾄﾞｳﾌﾞﾂﾉ森", "どうぶつの森");
    push_shorthand(v, "rmmm", "Wii モーモーカントリー");
    push_shorthand(v, "mmm", "Wii モーモーカントリー");
    push_shorthand(v, "ﾓｰﾓｰｶﾝﾄﾘｰ", "Wii モーモーカントリー");
    push_shorthand(v, "ﾓﾓｶﾝ", "Wii モーモーカントリー");
    push_shorthand(v, "ﾓｰﾓｰ", "Wii モーモーカントリー");
    push_shorthand(v, "rmc", "GBA マリオサーキット");
    push_shorthand(v, "gba", "GBA マリオサーキット");
    push_shorthand(v, "ｸﾞﾊﾞ", "GBA マリオサーキット");
    push_shorthand(v, "gbaﾏﾘｵｻｰｷｯﾄ", "GBA マリオサーキット");
    push_shorthand(v, "gbaﾏﾘｻ", "GBA マリオサーキット");
    push_shorthand(v, "rccb", "DS プクプクビーチ");
    push_shorthand(v, "ccb", "DS プクプクビーチ");
    push_shorthand(v, "ﾌﾟｸﾌﾟｸﾋﾞｰﾁ", "DS プクプクビーチ");
    push_shorthand(v, "ﾌﾟｸﾌﾟｸ", "DS プクプクビーチ");
    push_shorthand(v, "ﾌﾟｸﾋﾞ", "DS プクプクビーチ");
    push_shorthand(v, "rtt", "N64 キノピオハイウェイ");
    push_shorthand(v, "tt", "N64 キノピオハイウェイ");
    push_shorthand(v, "ｷﾉﾋﾟｵﾊｲｳｪｲ", "N64 キノピオハイウェイ");
    push_shorthand(v, "ﾊｲｳｪｲ", "N64 キノピオハイウェイ");
    push_shorthand(v, "rddd", "GC カラカラさばく");
    push_shorthand(v, "ｶﾗｶﾗｻﾊﾞｸ", "GC カラカラさばく");
    push_shorthand(v, "ｶﾗｻﾊﾞ", "GC カラカラさばく");
    push_shorthand(v, "ｻﾊﾞｸ", "GC カラカラさばく");
    push_shorthand(v, "gcｶﾗ", "GC カラカラさばく");
    push_shorthand(v, "gcｶﾗｻﾊﾞ", "GC カラカラさばく");
    push_shorthand(v, "gcｻﾊﾞ", "GC カラカラさばく");
    push_shorthand(v, "rdp3", "SFC ドーナツへいや3");
    push_shorthand(v, "rdp", "SFC ドーナツへいや3");
    push_shorthand(v, "dp3", "SFC ドーナツへいや3");
    push_shorthand(v, "ﾄﾞｰﾅﾂﾍｲﾔ", "SFC ドーナツへいや3");
    push_shorthand(v, "ﾍｲﾔ", "SFC ドーナツへいや3");
    push_shorthand(v, "ﾄﾞｰﾅﾂ平野", "SFC ドーナツへいや3");
    push_shorthand(v, "平野", "SFC ドーナツへいや3");
    push_shorthand(v, "rrry", "N64 ピーチサーキット");
    push_shorthand(v, "rry", "N64 ピーチサーキット");
}


fn push_shorthands_3(v: &mut Vec<(String, String)>)
    requires
        old(v)@.len() == 150,
    ensures
        final(v)@.len() == 200,
        forall|i: int| 0 <= i < 150 ==> final(v)@[i] == old(v)@[i],
        forall|i: int|
            150 <= i < 200 ==> (#[trigger] final(v)@[i]).0@ == spec_shorthand_entry(i).0
                && final(v)@[i].1@ == spec_shorthand_entry(i).1,
{
    push_shorthand(v, "ﾋﾟｰﾁｻｰｷｯﾄ", "N64 ピーチサーキット");
    push_shorthand(v, "ﾋﾟﾁｻ", "N64 ピーチサーキット");
    push_shorthand(v, "rdkj", "3DS DKジャングル");
    push_shorthand(v, "dk", "3DS DKジャングル");
    push_shorthand(v, "dkj", "3DS DKジャングル");
    push_shorthand(v, "dkｼﾞｬﾝｸﾞﾙ", "3DS DKジャングル");
    push_shorthand(v, "ｼﾞｬﾝｸﾞﾙ", "3DS DKジャングル");
    push_shorthand(v, "rws", "DS ワリオスタジアム");
    push_shorthand(v, "ws", "DS ワリオスタジアム");
    push_shorthand(v, "ﾜﾘｵｽﾀｼﾞｱﾑ", "DS ワリオスタジアム");
    push_shorthand(v, "ﾜﾘｽﾀ", "DS ワリオスタジアム");
    push_shorthand(v, "rsl", "GC シャーベットランド");
    push_shorthand(v, "sl", "GC シャーベットランド");
    push_shorthand(v, "ｼｬｰﾍﾞｯﾄﾗﾝﾄﾞ", "GC シャーベットランド");
    push_shorthand(v, "ｼｬｰﾍﾞｯﾄ", "GC シャーベットランド");
    push_shorthand(v, "ｼｬﾍﾞﾗﾝ", "GC シャーベットランド");
    push_shorthand(v, "ｼｬﾍﾞ", "GC シャーベットランド");
    push_shorthand(v, "rmp", "3DS ミュージックパーク");
    push_shorthand(v, "mp", "3DS ミュージックパーク");
    push_shorthand(v, "ﾐｭｰｼﾞｯｸﾊﾟｰｸ", "3DS ミュージックパーク");
    push_shorthand(v, "ﾐｭｰﾊﾟ", "3DS ミュージックパーク");
    push_shorthand(v, "ryv", "N64 ヨッシーバレー");
    push_shorthand(v, "yv", "N64 ヨッシーバレー");
    push_shorthand(v, "ﾖｯｼｰﾊﾞﾚｰ", "N64 ヨッシーバレー");
    push_shorthand(v, "ﾖｼﾊﾞ", "N64 ヨッシーバレー");
    push_shorthand(v, "rttc", "DS チクタクロック");
    push_shorthand(v, "ttc", "DS チクタクロック");
    push_shorthand(v, "ﾁｸﾀｸﾛｯｸ", "DS チクタクロック");
    push_shorthand(v, "ﾁｸﾀｸ", "DS チクタクロック");
    push_shorthand(v, "rpps", "3DS パックンスライダー");
    push_shorthand(v, "pps", "3DS パックンスライダー");
    push_shorthand(v, "ﾊﾟｯｸﾝｽﾗｲﾀﾞｰ", "3DS パックンスライダー");
    push_shorthand(v, "ﾊﾟｸｽﾗ", "3DS パックンスライダー");
    push_shorthand(v, "ﾊﾟｯｸﾝ", "3DS パックンスライダー");
    push_shorthand(v, "rgv", "Wii グラグラかざん");
    push_shorthand(v, "gv", "Wii グラグラかざん");
    push_shorthand(v, "ｸﾞﾗｸﾞﾗｶｻﾞﾝ", "Wii グラグラかざん");
    push_shorthand(v, "ｸﾞﾗｸﾞﾗ", "Wii グラグラかざん");
    push_shorthand(v, "ｶｻﾞﾝ", "Wii グラグラかざん");
    push_shorthand(v, "rrrd", "N64 レインボーロード");
    push_shorthand(v, "rrd", "N64 レインボーロード");
    push_shorthand(v, "64ﾚｲﾝﾎﾞｰﾛｰﾄﾞ", "N64 レインボーロード");
    push_shorthand(v, "64ﾆｼﾞ", "N64 レインボーロード");
    push_shorthand(v, "64虹", "N64 レインボーロード");
    push_shorthand(v, "ﾛｸﾖﾝ", "N64 レインボーロード");
    push_shorthand(v, "dwgm", "Wii ワリオこうざん");
    push_shorthand(v, "wgm", "Wii ワリオこうざん");
    push_shorthand(v, "ﾜﾘｵｺｳｻﾞﾝ", "Wii ワリオこうざん");
    push_shorthand(v, "ﾜﾘｺｳ", "Wii ワリオこうざん");
    push_shorthand(v, "ﾜﾘｵ鉱山", "Wii ワリオこうざん");
}


fn push_shorthands_4(v: &mut Vec<(String, String)>)
    requires
        old(v)@.len() == 200,
    ensures
        final(v)@.len() == 250,
        forall|i: int| 0 <= i < 200 ==> final(v)@[i] == old(v)@[i],
        forall|i: int|
            200 <= i < 250 ==> (#[trigger] final(v)@[i]).0@ == spec_shorthand_entry(i).0
                && final(v)@[i].1@ == spec_shorthand_entry(i).1,
{
    push_shorthand(v, "ﾜﾘ鉱", "Wii ワリオこうざん");
    push_shorthand(v, "drr", "SFC レインボーロード");
    push_shorthand(v, "sfcﾆｼﾞ", "SFC レインボーロード");
    push_shorthand(v, "sfcﾚｲﾝﾎﾞｰﾛｰﾄﾞ", "SFC レインボーロード");
    push_shorthand(v, "sfc虹", "SFC レインボーロード");
    push_shorthand(v, "sfc", "SFC レインボーロード");
    push_shorthand(v, "diio", "ツルツルツイスター");
    push_shorthand(v, "iio", "ツルツルツイスター");
    push_shorthand(v, "ﾂﾙﾂﾙﾂｲｽﾀｰ", "ツルツルツイスター");
    push_shorthand(v, "ﾂﾂﾂ", "ツルツルツイスター");
    push_shorthand(v, "ﾂﾙﾂﾙ", "ツルツルツイスター");
    push_shorthand(v, "dhc", "ハイラルサーキット");
    push_shorthand(v, "hc", "ハイラルサーキット");
    push_shorthand(v, "ﾊｲﾗﾙｻｰｷｯﾄ", "ハイラルサーキット");
    push_shorthand(v, "ﾊｲﾗﾙ", "ハイラルサーキット");
    push_shorthand(v, "dnbc", "3DS ネオクッパシティ");
    push_shorthand(v, "nbc", "3DS ネオクッパシティ");
    push_shorthand(v, "ﾈｵｸｯﾊﾟｼﾃｨ", "3DS ネオクッパシティ");
    push_shorthand(v, "ﾈｵﾊﾟ", "3DS ネオクッパシティ");
    push_shorthand(v, "ﾈｵｸｯﾊﾟ", "3DS ネオクッパシティ");
    push_shorthand(v, "drir", "GBA リボンロード");
    push_shorthand(v, "rir", "GBA リボンロード");
    push_shorthand(v, "ﾘﾎﾞﾝﾛｰﾄﾞ", "GBA リボンロード");
    push_shorthand(v, "ﾘﾎﾞﾝ", "GBA リボンロード");
    push_shorthand(v, "dsbs", "リンリンメトロ");
    push_shorthand(v, "sbs", "リンリンメトロ");
    push_shorthand(v, "ﾘﾝﾘﾝﾒﾄﾛ", "リンリンメトロ");
    push_shorthand(v, "ﾘﾝﾒﾄ", "リンリンメトロ");
    push_shorthand(v, "dbb", "ビッグブルー");
    push_shorthand(v, "bb", "ビッグブルー");
    push_shorthand(v, "ﾋﾞｯｸﾞﾌﾞﾙｰ", "ビッグブルー");
    push_shorthand(v, "bpp", "Tour パリプロムナード");
    push_shorthand(v, "pp", "Tour パリプロムナード");
    push_shorthand(v, "paris", "Tour パリプロムナード");
    push_shorthand(v, "ﾊﾟﾘﾌﾟﾛﾑﾅｰﾄﾞ", "Tour パリプロムナード");
    push_shorthand(v, "ﾊﾟﾘ", "Tour パリプロムナード");
    push_shorthand(v, "btc", "3DS キノピオサーキット");
    push_shorthand(v, "tc", "3DS キノピオサーキット");
    push_shorthand(v, "ｷﾉﾋﾟｵｻｰｷｯﾄ", "3DS キノピオサーキット");
    push_shorthand(v, "ｷﾉｻ", "3DS キノピオサーキット");
    push_shorthand(v, "bcmo", "N64 チョコマウンテン");
    push_shorthand(v, "bcm64", "N64 チョコマウンテン");
    push_shorthand(v, "bchm", "N64 チョコマウンテン");
    push_shorthand(v, "cmo", "N64 チョコマウンテン");
    push_shorthand(v, "chm", "N64 チョコマウンテン");
    push_shorthand(v, "cm64", "N64 チョコマウンテン");
    push_shorthand(v, "ﾁｮｺﾏｳﾝﾃﾝ", "N64 チョコマウンテン");
    push_shorthand(v, "ﾁｮｺ", "N64 チョコマウンテン");
    push_shorthand(v, "ﾁｮｺﾏ", "N64 チョコマウンテン");
    push_shorthand(v, "bcma", "Wii ココナッツモール");
}


fn push_shorthands_5(v: &mut Vec<(String, String)>)
    requires
        old(v)@.len() == 250,
    ensures
        final(v)@.len() == 300,
        forall|i: int| 0 <= i < 250 ==> final(v)@[i] == old(v)@[i],
        forall|i: int|
            250 <= i < 300 ==> (#[trigger] final(v)@[i]).0@ == spec_shorthand_entry(i).0
                && final(v)@[i].1@ == spec_shorthand_entry(i).1,
{
    push_shorthand(v, "bcom", "Wii ココナッツモール");
    push_shorthand(v, "bcmw", "Wii ココナッツモール");
    push_shorthand(v, "cma", "Wii ココナッツモール");
    push_shorthand(v, "com", "Wii ココナッツモール");
    push_shorthand(v, "cmw", "Wii ココナッツモール");
    push_shorthand(v, "ｺｺﾅｯﾂﾓｰﾙ", "Wii ココナッツモール");
    push_shorthand(v, "ｺｺﾓ", "Wii ココナッツモール");
    push_shorthand(v, "ｺｺﾅｯﾂ", "Wii ココナッツモール");
    push_shorthand(v, "ﾅｯﾂ", "Wii ココナッツモール");
    push_shorthand(v, "btb", "Tour トーキョースクランブル");
    push_shorthand(v, "tb", "Tour トーキョースクランブル");
    push_shorthand(v, "tokyo", "Tour トーキョースクランブル");
    push_shorthand(v, "ﾄｰｷｮｰｽｸﾗﾝﾌﾞﾙ", "Tour トーキョースクランブル");
    push_shorthand(v, "ｽｸﾗﾝﾌﾞﾙ", "Tour トーキョースクランブル");
    push_shorthand(v, "ﾄｰｷｮｰ", "Tour トーキョースクランブル");
    push_shorthand(v, "ﾄｳｷｮｳ", "Tour トーキョースクランブル");
    push_shorthand(v, "ﾄｰｷｮｳ", "Tour トーキョースクランブル");
    push_shorthand(v, "ﾄｳｷｮｰ", "Tour トーキョースクランブル");
    push_shorthand(v, "東京", "Tour トーキョースクランブル");
    push_shorthand(v, "bsr", "DS キノコリッジウェイ");
    push_shorthand(v, "sr", "DS キノコリッジウェイ");
    push_shorthand(v, "ｷﾉｺﾘｯｼﾞｳｪｲ", "DS キノコリッジウェイ");
    push_shorthand(v, "ｷﾉｺﾘｯｼﾞ", "DS キノコリッジウェイ");
    push_shorthand(v, "ﾘｯｼﾞｳｪｲ", "DS キノコリッジウェイ");
    push_shorthand(v, "ｷﾉｺﾘ", "DS キノコリッジウェイ");
    push_shorthand(v, "ｷｺﾘ", "DS キノコリッジウェイ");
    push_shorthand(v, "ﾘｯｼﾞ", "DS キノコリッジウェイ");
    push_shorthand(v, "bsg", "GBA スカイガーデン");
    push_shorthand(v, "sg", "GBA スカイガーデン");
    push_shorthand(v, "gbaｽｶｲｶﾞｰﾃﾞﾝ", "GBA スカイガーデン");
    push_shorthand(v, "gbaｽｶ", "GBA スカイガーデン");
    push_shorthand(v, "ｸﾞﾊﾞｽｶ", "GBA スカイガーデン");
    push_shorthand(v, "ｸﾞﾊﾞｽｶｶﾞ", "GBA スカイガーデン");
    push_shorthand(v, "gbaｽｶｶﾞ", "GBA スカイガーデン");
    push_shorthand(v, "bnh", "ニンニンドージョー");
    push_shorthand(v, "nh", "ニンニンドージョー");
    push_shorthand(v, "ﾆﾝﾆﾝﾄﾞｰｼﾞｮｰ", "ニンニンドージョー");
    push_shorthand(v, "ﾆﾝｼﾞｮｰ", "ニンニンドージョー");
    push_shorthand(v, "ﾆﾝﾆﾝ", "ニンニンドージョー");
    push_shorthand(v, "bnym", "Tour ニューヨークドリーム");
    push_shorthand(v, "nym", "Tour ニューヨークドリーム");
    push_shorthand(v, "ﾆｭｰﾖｰｸﾄﾞﾘｰﾑ", "Tour ニューヨークドリーム");
    push_shorthand(v, "ﾆｭｰﾖｰｸ", "Tour ニューヨークドリーム");
    push_shorthand(v, "ﾆｭｰﾄﾞﾘ", "Tour ニューヨークドリーム");
    push_shorthand(v, "ny", "Tour ニューヨークドリーム");
    push_shorthand(v, "bmc3", "SFC マリオサーキット3");
    push_shorthand(v, "mc3", "SFC マリオサーキット3");
    push_shorthand(v, "ﾏﾘｵｻｰｷｯﾄ3", "SFC マリオサーキット3");
    push_shorthand(v, "ﾏﾘｻ3", "SFC マリオサーキット3");
    push_shorthand(v, "sfcﾏﾘｻ", "SFC マリオサーキット3");
}


fn push_shorthands_6(v: &mut Vec<(String, String)>)
    requires
        old(v)@.len() == 300,
    ensures
        final(v)@.len() == 350,
        forall|i: int| 0 <= i < 300 ==> final(v)@[i] == old(v)@[i],
        forall|i: int|
            300 <= i < 350 ==> (#[trigger] final(v)@[i]).0@ == spec_shorthand_entry(i).0
                && final(v)@[i].1@ == spec_shorthand_entry(i).1,
{
    push_shorthand(v, "sfcﾏﾘｵｻｰｷｯﾄ", "SFC マリオサーキット3");
    push_shorthand(v, "sfcﾏﾘｻ3", "SFC マリオサーキット3");
    push_shorthand(v, "sfcﾏﾘｵｻｰｷｯﾄ3", "SFC マリオサーキット3");
    push_shorthand(v, "bkd", "N64 カラカラさばく");
    push_shorthand(v, "kd", "N64 カラカラさばく");
    push_shorthand(v, "64ｶﾗｻﾊﾞ", "N64 カラカラさばく");
    push_shorthand(v, "64ｶﾗ", "N64 カラカラさばく");
    push_shorthand(v, "64ｻﾊﾞ", "N64 カラカラさばく");
    push_shorthand(v, "bwp", "DS ワルイージピンボール");
    push_shorthand(v, "ﾜﾙｲｰｼﾞﾋﾟﾝﾎﾞｰﾙ", "DS ワルイージピンボール");
    push_shorthand(v, "ﾜﾙﾋﾟﾝ", "DS ワルイージピンボール");
    push_shorthand(v, "ﾋﾟﾝﾎﾞｰﾙ", "DS ワルイージピンボール");
    push_shorthand(v, "bss", "Tour シドニーサンシャイン");
    push_shorthand(v, "ss", "Tour シドニーサンシャイン");
    push_shorthand(v, "bsys", "Tour シドニーサンシャイン");
    push_shorthand(v, "sys", "Tour シドニーサンシャイン");
    push_shorthand(v, "ｼﾄﾞﾆｰｻﾝｼｬｲﾝ", "Tour シドニーサンシャイン");
    push_shorthand(v, "ｼﾄﾞﾆｰ", "Tour シドニーサンシャイン");
    push_shorthand(v, "bsl", "GBA スノーランド");
    push_shorthand(v, "ｽﾉｰﾗﾝﾄﾞ", "GBA スノーランド");
    push_shorthand(v, "ｽﾉﾗﾝ", "GBA スノーランド");
    push_shorthand(v, "bmg", "Wii キノコキャニオン");
    push_shorthand(v, "mg", "Wii キノコキャニオン");
    push_shorthand(v, "ｷﾉｺｷｬﾆｵﾝ", "Wii キノコキャニオン");
    push_shorthand(v, "ｷﾉｷｬﾆ", "Wii キノコキャニオン");
    push_shorthand(v, "ｷｬﾆｵﾝ", "Wii キノコキャニオン");
    push_shorthand(v, "bshs", "アイスビルディング");
    push_shorthand(v, "shs", "アイスビルディング");
    push_shorthand(v, "ｱｲｽﾋﾞﾙﾃﾞｨﾝｸﾞ", "アイスビルディング");
    push_shorthand(v, "ｱｲｽ", "アイスビルディング");
    push_shorthand(v, "bll", "Tour ロンドンアベニュー");
    push_shorthand(v, "ll", "Tour ロンドンアベニュー");
    push_shorthand(v, "ﾛﾝﾄﾞﾝｱﾍﾞﾆｭｰ", "Tour ロンドンアベニュー");
    push_shorthand(v, "ﾛﾝﾄﾞﾝ", "Tour ロンドンアベニュー");
    push_shorthand(v, "bbl", "GBA テレサレイク");
    push_shorthand(v, "bl", "GBA テレサレイク");
    push_shorthand(v, "ﾃﾚｻﾚｲｸ", "GBA テレサレイク");
    push_shorthand(v, "ﾚｲｸ", "GBA テレサレイク");
    push_shorthand(v, "ﾃﾚｲｸ", "GBA テレサレイク");
    push_shorthand(v, "brrm", "3DS ロックロックマウンテン");
    push_shorthand(v, "rrm", "3DS ロックロックマウンテン");
    push_shorthand(v, "ﾛｯｸﾛｯｸﾏｳﾝﾃﾝ", "3DS ロックロックマウンテン");
    push_shorthand(v, "ﾛｸﾏ", "3DS ロックロックマウンテン");
    push_shorthand(v, "ﾛｯｸ", "3DS ロックロックマウンテン");
    push_shorthand(v, "岩山", "3DS ロックロックマウンテン");
    push_shorthand(v, "ﾛｯｸﾛｯｸ", "3DS ロックロックマウンテン");
    push_shorthand(v, "bmt", "Wii メイプルツリーハウス");
    push_shorthand(v, "mt", "Wii メイプルツリーハウス");
    push_shorthand(v, "ﾒｲﾌﾟﾙﾂﾘｰﾊｳｽ", "Wii メイプルツリーハウス");
    push_shorthand(v, "ﾒｲﾌﾟﾙ", "Wii メイプルツリーハウス");
}


fn push_shorthands_7(v: &mut Vec<(String, String)>)
    requires
        old(v)@.len() == 350,
    ensures
        final(v)@.len() == 400,
        forall|i: int| 0 <= i < 350 ==> final(v)@[i] == old(v)@[i],
        forall|i: int|
            350 <= i < 400 ==> (#[trigger] final(v)@[i]).0@ == spec_shorthand_entry(i).0
                && final(v)@[i].1@ == spec_shorthand_entry(i).1,
{
    push_shorthand(v, "bbb", "Tour ベルリンシュトラーセ");
    push_shorthand(v, "ﾍﾞﾙﾘﾝｼｭﾄﾗｰｾ", "Tour ベルリンシュトラーセ");
    push_shorthand(v, "ﾍﾞﾙﾘﾝ", "Tour ベルリンシュトラーセ");
    push_shorthand(v, "bpg", "DS ピーチガーデン");
    push_shorthand(v, "pg", "DS ピーチガーデン");
    push_shorthand(v, "ﾋﾟｰﾁｶﾞｰﾃﾞﾝ", "DS ピーチガーデン");
    push_shorthand(v, "ﾋﾟﾁｶﾞ", "DS ピーチガーデン");
    push_shorthand(v, "ｶﾞｰﾃﾞﾝ", "DS ピーチガーデン");
    push_shorthand(v, "bmm", "メリーメリーマウンテン");
    push_shorthand(v, "mm", "メリーメリーマウンテン");
    push_shorthand(v, "ﾒﾘｰﾒﾘｰﾏｳﾝﾃﾝ", "メリーメリーマウンテン");
    push_shorthand(v, "ﾒﾘﾏ", "メリーメリーマウンテン");
    push_shorthand(v, "ﾒﾘｰﾒﾘｰ", "メリーメリーマウンテン");
    push_shorthand(v, "ﾒﾘｰ", "メリーメリーマウンテン");
    push_shorthand(v, "ﾒﾘﾔﾏ", "メリーメリーマウンテン");
    push_shorthand(v, "ﾒﾘ山", "メリーメリーマウンテン");
    push_shorthand(v, "brr7", "3DS レインボーロード");
    push_shorthand(v, "rr7", "3DS レインボーロード");
    push_shorthand(v, "3dsﾆｼﾞ", "3DS レインボーロード");
    push_shorthand(v, "3ds虹", "3DS レインボーロード");
    push_shorthand(v, "7ﾆｼﾞ", "3DS レインボーロード");
    push_shorthand(v, "7虹", "3DS レインボーロード");
    push_shorthand(v, "bad", "Tour アムステルダムブルーム");
    push_shorthand(v, "ad", "Tour アムステルダムブルーム");
    push_shorthand(v, "amsterdam", "Tour アムステルダムブルーム");
    push_shorthand(v, "ｱﾑｽﾃﾙﾀﾞﾑﾌﾞﾙｰﾑ", "Tour アムステルダムブルーム");
    push_shorthand(v, "ｱﾑｽﾃﾙﾀﾞﾑ", "Tour アムステルダムブルーム");
    push_shorthand(v, "ｱﾑｽ", "Tour アムステルダムブルーム");
    push_shorthand(v, "ﾌﾞﾙｰﾑ", "Tour アムステルダムブルーム");
    push_shorthand(v, "brp", "GBA リバーサイドパーク");
    push_shorthand(v, "rp", "GBA リバーサイドパーク");
    push_shorthand(v, "ﾘﾊﾞｰｻｲﾄﾞﾊﾟｰｸ", "GBA リバーサイドパーク");
    push_shorthand(v, "ﾘﾊﾞｰｻｲﾄﾞ", "GBA リバーサイドパーク");
    push_shorthand(v, "ﾘﾊﾞﾊﾟ", "GBA リバーサイドパーク");
    push_shorthand(v, "bdks", "Wii DKスノーボードクロス");
    push_shorthand(v, "dks", "Wii DKスノーボードクロス");
    push_shorthand(v, "summit", "Wii DKスノーボードクロス");
    push_shorthand(v, "dkｽﾉｰﾎﾞｰﾄﾞｸﾛｽ", "Wii DKスノーボードクロス");
    push_shorthand(v, "ｽﾉｰﾎﾞｰﾄﾞｸﾛｽ", "Wii DKスノーボードクロス");
    push_shorthand(v, "ｽﾉﾎﾞｸﾛｽ", "Wii DKスノーボードクロス");
    push_shorthand(v, "ｽﾉﾎﾞ", "Wii DKスノーボードクロス");
    push_shorthand(v, "byi", "ヨッシーアイランド");
    push_shorthand(v, "yi", "ヨッシーアイランド");
    push_shorthand(v, "ﾖｯｼｰｱｲﾗﾝﾄﾞ", "ヨッシーアイランド");
    push_shorthand(v, "ﾖｼｱｲ", "ヨッシーアイランド");
    push_shorthand(v, "bbr", "Tour バンコクラッシュ");
    push_shorthand(v, "br", "Tour バンコクラッシュ");
    push_shorthand(v, "bangkok", "Tour バンコクラッシュ");
    push_shorthand(v, "ﾊﾞﾝｺｸﾗｯｼｭ", "Tour バンコクラッシュ");
    push_shorthand(v, "ﾊﾞﾝｺｸ", "Tour バンコクラッシュ");
}


fn push_shorthands_8(v: &mut Vec<(String, String)>)
    requires
        old(v)@.len() == 400,
    ensures
        final(v)@.len() == 450,
        forall|i: int| 0 <= i < 400 ==> final(v)@[i] == old(v)@[i],
        forall|i: int|
            400 <= i < 450 ==> (#[trigger] final(v)@[i]).0@ == spec_shorthand_entry(i).0
                && final(v)@[i].1@ == spec_shorthand_entry(i).1,
{
    push_shorthand(v, "bmc", "DS マリオサーキット");
    push_shorthand(v, "dsﾏﾘｵｻｰｷｯﾄ", "DS マリオサーキット");
    push_shorthand(v, "dsﾏﾘｻ", "DS マリオサーキット");
    push_shorthand(v, "bws", "GC ワルイージスタジアム");
    push_shorthand(v, "ﾜﾙｲｰｼﾞｽﾀｼﾞｱﾑ", "GC ワルイージスタジアム");
    push_shorthand(v, "ﾜﾙｽﾀ", "GC ワルイージスタジアム");
    push_shorthand(v, "bssy", "Tour シンガポールスプラッシュ");
    push_shorthand(v, "ssy", "Tour シンガポールスプラッシュ");
    push_shorthand(v, "bsis", "Tour シンガポールスプラッシュ");
    push_shorthand(v, "sis", "Tour シンガポールスプラッシュ");
    push_shorthand(v, "singapore", "Tour シンガポールスプラッシュ");
    push_shorthand(v, "ｼﾝｶﾞﾎﾟｰﾙｽﾌﾟﾗｯｼｭ", "Tour シンガポールスプラッシュ");
    push_shorthand(v, "ｼﾝｶﾞﾎﾟｰﾙ", "Tour シンガポールスプラッシュ");
    push_shorthand(v, "bada", "Tour アテネポリス");
    push_shorthand(v, "ada", "Tour アテネポリス");
    push_shorthand(v, "athens", "Tour アテネポリス");
    push_shorthand(v, "ｱﾃﾈﾎﾟﾘｽ", "Tour アテネポリス");
    push_shorthand(v, "ｱﾃﾈ", "Tour アテネポリス");
    push_shorthand(v, "bdc", "GC デイジークルーザー");
    push_shorthand(v, "dc", "GC デイジークルーザー");
    push_shorthand(v, "ﾃﾞｲｼﾞｰｸﾙｰｻﾞｰ", "GC デイジークルーザー");
    push_shorthand(v, "ﾃﾞｲｸﾙ", "GC デイジークルーザー");
    push_shorthand(v, "bmh", "Wii ムーンリッジ&ハイウェイ");
    push_shorthand(v, "mh", "Wii ムーンリッジ&ハイウェイ");
    push_shorthand(v, "ﾑｰﾝﾘｯｼﾞ", "Wii ムーンリッジ&ハイウェイ");
    push_shorthand(v, "ﾑﾝﾊｲ", "Wii ムーンリッジ&ハイウェイ");
    push_shorthand(v, "ﾑｰﾝﾊｲ", "Wii ムーンリッジ&ハイウェイ");
    push_shorthand(v, "bscs", "シャボンロード");
    push_shorthand(v, "scs", "シャボンロード");
    push_shorthand(v, "ｼｬﾎﾞﾝﾛｰﾄﾞ", "シャボンロード");
    push_shorthand(v, "ｼｬﾎﾞﾝ", "シャボンロード");
    push_shorthand(v, "ｼｬﾎﾞﾛ", "シャボンロード");
    push_shorthand(v, "blal", "Tour ロサンゼルスコースト");
    push_shorthand(v, "lal", "Tour ロサンゼルスコースト");
    push_shorthand(v, "losangeles", "Tour ロサンゼルスコースト");
    push_shorthand(v, "los", "Tour ロサンゼルスコースト");
    push_shorthand(v, "ﾛｻﾝｾﾞﾙｽｺｰｽﾄ", "Tour ロサンゼルスコースト");
    push_shorthand(v, "ﾛｻﾝｾﾞﾙｽ", "Tour ロサンゼルスコースト");
    push_shorthand(v, "ﾛｽ", "Tour ロサンゼルスコースト");
    push_shorthand(v, "bsw", "GBA サンセットこうや");
    push_shorthand(v, "sw", "GBA サンセットこうや");
    push_shorthand(v, "ｻﾝｾｯﾄｺｳﾔ", "GBA サンセットこうや");
    push_shorthand(v, "ｻﾝｾｯﾄ", "GBA サンセットこうや");
    push_shorthand(v, "ｺｳﾔ", "GBA サンセットこうや");
    push_shorthand(v, "ｻﾝｾ", "GBA サンセットこうや");
    push_shorthand(v, "bkc", "Wii ノコノコみさき");
    push_shorthand(v, "kc", "Wii ノコノコみさき");
    push_shorthand(v, "ﾉｺﾉｺﾐｻｷ", "Wii ノコノコみさき");
    push_shorthand(v, "ﾉｺﾉｺ", "Wii ノコノコみさき");
    push_shorthand(v, "ﾉｺﾐｻ", "Wii ノコノコみさき");
}


fn push_shorthands_9(v: &mut Vec<(String, String)>)
    requires
        old(v)@.len() == 450,
    ensures
        final(v)@.len() == 497,
        forall|i: int| 0 <= i < 450 ==> final(v)@[i] == old(v)@[i],
        forall|i: int|
            450 <= i < 497 ==> (#[trigger] final(v)@[i]).0@ == spec_shorthand_entry(i).0
                && final(v)@[i].1@ == spec_shorthand_entry(i).1,
{
    push_shorthand(v, "ﾉｺﾐ", "Wii ノコノコみさき");
    push_shorthand(v, "bvv", "Tour バンクーバーバレー");
    push_shorthand(v, "vv", "Tour バンクーバーバレー");
    push_shorthand(v, "vancouver", "Tour バンクーバーバレー");
    push_shorthand(v, "ﾊﾞﾝｸｰﾊﾞｰﾊﾞﾚｰ", "Tour バンクーバーバレー");
    push_shorthand(v, "ﾊﾞﾝｸｰﾊﾞｰ", "Tour バンクーバーバレー");
    push_shorthand(v, "bra", "Tour ローマアバンティ");
    push_shorthand(v, "ra", "Tour ローマアバンティ");
    push_shorthand(v, "rome", "Tour ローマアバンティ");
    push_shorthand(v, "ﾛｰﾏｱﾊﾞﾝﾃｨ", "Tour ローマアバンティ");
    push_shorthand(v, "ﾛｰﾏ", "Tour ローマアバンティ");
    push_shorthand(v, "bdkm", "GC DKマウンテン");
    push_shorthand(v, "dkm", "GC DKマウンテン");
    push_shorthand(v, "dkﾏｳﾝﾃﾝ", "GC DKマウンテン");
    push_shorthand(v, "dkﾔﾏ", "GC DKマウンテン");
    push_shorthand(v, "dk山", "GC DKマウンテン");
    push_shorthand(v, "bdci", "Wii デイジーサーキット");
    push_shorthand(v, "dci", "Wii デイジーサーキット");
    push_shorthand(v, "ﾃﾞｲｼﾞｰｻｰｷｯﾄ", "Wii デイジーサーキット");
    push_shorthand(v, "ﾃﾞｲｻ", "Wii デイジーサーキット");
    push_shorthand(v, "bppc", "パックンしんでん");
    push_shorthand(v, "ppc", "パックンしんでん");
    push_shorthand(v, "ﾊﾟｯｸﾝｼﾝﾃﾞﾝ", "パックンしんでん");
    push_shorthand(v, "ﾊﾟｸｼﾝ", "パックンしんでん");
    push_shorthand(v, "ｼﾝﾃﾞﾝ", "パックンしんでん");
    push_shorthand(v, "bmd", "Tour マドリードグランデ");
    push_shorthand(v, "md", "Tour マドリードグランデ");
    push_shorthand(v, "madrid", "Tour マドリードグランデ");
    push_shorthand(v, "ﾏﾄﾞﾘｰﾄﾞｸﾞﾗﾝﾃﾞ", "Tour マドリードグランデ");
    push_shorthand(v, "ﾏﾄﾞﾘｰﾄﾞ", "Tour マドリードグランデ");
    push_shorthand(v, "briw", "3DS ロゼッタプラネット");
    push_shorthand(v, "riw", "3DS ロゼッタプラネット");
    push_shorthand(v, "ﾛｾﾞｯﾀﾌﾟﾗﾈｯﾄ", "3DS ロゼッタプラネット");
    push_shorthand(v, "ﾛｾﾞﾌﾟﾗ", "3DS ロゼッタプラネット");
    push_shorthand(v, "bbc3", "SFC クッパじょう3");
    push_shorthand(v, "bbc3", "SFC クッパじょう3");
    push_shorthand(v, "bc3", "SFC クッパじょう3");
    push_shorthand(v, "ｸｯﾊﾟｼﾞｮｳ3", "SFC クッパじょう3");
    push_shorthand(v, "ｸｯﾊﾟｼﾞｮｳ", "SFC クッパじょう3");
    push_shorthand(v, "ｸｯﾊﾟ城", "SFC クッパじょう3");
    push_shorthand(v, "brr", "Wii レインボーロード");
    push_shorthand(v, "brrw", "Wii レインボーロード");
    push_shorthand(v, "rrw", "Wii レインボーロード");
    push_shorthand(v, "wiiﾆｼﾞ", "Wii レインボーロード");
    push_shorthand(v, "wiiﾚｲﾝﾎﾞｰﾛｰﾄﾞ", "Wii レインボーロード");
    push_shorthand(v, "wii虹", "Wii レインボーロード");
    push_shorthand(v, "ｳｨｰﾆｼﾞ", "Wii レインボーロード");
}


/// Every shorthand alias, paired with the display form of the course it
/// names, in catalog order; entry `i` is exactly
/// [`spec_shorthand_entry`]`(i)`.
pub fn course_shorthands() -> (v: Vec<(String, String)>)
    ensures
        v@.len() == spec_shorthand_len(),
        forall|i: int|
            0 <= i < spec_shorthand_len() ==> (#[trigger] v@[i]).0@ == spec_shorthand_entry(i).0
                && v@[i].1@ == spec_shorthand_entry(i).1,
{
    let mut v: Vec<(String, String)> = Vec::new();
    push_shorthands_0(&mut v);
    push_shorthands_1(&mut v);
    push_shorthands_2(&mut v);
    push_shorthands_3(&mut v);
    push_shorthands_4(&mut v);
    push_shorthands_5(&mut v);
    push_shorthands_6(&mut v);
    push_shorthands_7(&mut v);
    push_shorthands_8(&mut v);
    push_shorthands_9(&mut v);
    v
}

/// The half-width fold of a string: ASCII letters lower-cased, hiragana
/// and full-width katakana turned into half-width katakana. The result is
/// a function of the characters alone.
pub uninterp spec fn half_width_of(s: Seq<char>) -> Seq<char>;

/// Relies on kanaria's `UCSStr` conversion chain (`katakana`, `narrow`,
/// `lower_case`): the half-width fold of the input, a function of the
/// characters alone.
#[verifier::external_body]
fn half_width(s: &str) -> (r: String)
    ensures
        r@ == half_width_of(s@),
{
    kanaria::string::UCSStr::from_str(s)
        .katakana()
        .narrow(kanaria::utils::ConvertTarget::ALL)
        .lower_case()
        .to_string()
}

/// The half-width fold an alias is looked up under.
pub fn to_half_width(s: &str) -> (r: String)
    ensures
        r@ == half_width_of(s@),
{
    half_width(s)
}

/// The display form stored for the first alias equal to `key`.
pub open spec fn spec_lookup_shorthand(list: Seq<(String, String)>, key: Seq<char>) -> Option<
    String,
>
    decreases list.len(),
{
    if list.len() == 0 {
        None
    } else if list[0].0@ == key {
        Some(list[0].1)
    } else {
        spec_lookup_shorthand(list.drop_first(), key)
    }
}

/// The display form of the course named by a shorthand alias: the input is
/// folded to half-width and matched against the alias table.
pub fn lookup_shorthand(shorthands: &Vec<(String, String)>, input: &str) -> (r: Option<String>)
    ensures
        r == spec_lookup_shorthand(shorthands@, half_width_of(input@)),
{
    let key = to_half_width(input);
    let n = shorthands.len();
    let mut i: usize = 0;
    proof {
        assert(shorthands@.skip(0) =~= shorthands@);
    }
    while i < n
        invariant
            n == shorthands@.len(),
            i <= n,
            key@ == half_width_of(input@),
            spec_lookup_shorthand(shorthands@, key@) == spec_lookup_shorthand(
                shorthands@.skip(i as int),
                key@,
            ),
        decreases n - i,
    {
        proof {
            assert(shorthands@.skip(i as int)[0] == shorthands@[i as int]);
            assert(shorthands@.skip(i as int).drop_first() =~= shorthands@.skip(i + 1));
        }
        if shorthands[i].0.eq(&key) {
            return Some(shorthands[i].1.clone());
        }
        i = i + 1;
    }
    proof {
        assert(shorthands@.skip(n as int) =~= Seq::<(String, String)>::empty());
    }
    None
}

} // verus!
