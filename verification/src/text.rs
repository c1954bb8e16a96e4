//! Canonicalization of recognized text fragments.
//!
//! OCR output mixes full-width and half-width Latin characters, hiragana
//! and katakana, and voiced/unvoiced kana freely. Comparisons against the
//! course catalog therefore run on a normalized form: full-width Latin is
//! folded to half-width, hiragana to katakana, voiced and small kana to
//! their plain base kana, and ASCII letters to lower case. The two
//! stand-alone voicing marks carry no information of their own and are
//! dropped.

use vstd::prelude::*;

verus! {

broadcast use vstd::string::group_string_axioms;

/// What a single character becomes under normalization: `None` for the two
/// stand-alone voicing marks (dropped), otherwise its folded form, which is
/// the character itself when no folding applies.
pub open spec fn norm_char(c: char) -> Option<char> {
    match c {
        '０' => Some('0'),
        '１' => Some('1'),
        '２' => Some('2'),
        '３' => Some('3'),
        '４' => Some('4'),
        '５' => Some('5'),
        '６' => Some('6'),
        '７' => Some('7'),
        '８' => Some('8'),
        '９' => Some('9'),
        'Ａ' => Some('a'),
        'Ｂ' => Some('b'),
        'Ｃ' => Some('c'),
        'Ｄ' => Some('d'),
        'Ｅ' => Some('e'),
        'Ｆ' => Some('f'),
        'Ｇ' => Some('g'),
        'Ｈ' => Some('h'),
        'Ｉ' => Some('i'),
        'Ｊ' => Some('j'),
        'Ｋ' => Some('k'),
        'Ｌ' => Some('l'),
        'Ｍ' => Some('m'),
        'Ｎ' => Some('n'),
        'Ｏ' => Some('o'),
        'Ｐ' => Some('p'),
        'Ｑ' => Some('q'),
        'Ｒ' => Some('r'),
        'Ｓ' => Some('s'),
        'Ｔ' => Some('t'),
        'Ｕ' => Some('u'),
        'Ｖ' => Some('v'),
        'Ｗ' => Some('w'),
        'Ｘ' => Some('x'),
        'Ｙ' => Some('y'),
        'Ｚ' => Some('z'),
        'ａ' => Some('a'),
        'ｂ' => Some('b'),
        'ｃ' => Some('c'),
        'ｄ' => Some('d'),
        'ｅ' => Some('e'),
        'ｆ' => Some('f'),
        'ｇ' => Some('g'),
        'ｈ' => Some('h'),
        'ｉ' => Some('i'),
        'ｊ' => Some('j'),
        'ｋ' => Some('k'),
        'ｌ' => Some('l'),
        'ｍ' => Some('m'),
        'ｎ' => Some('n'),
        'ｏ' => Some('o'),
        'ｐ' => Some('p'),
        'ｑ' => Some('q'),
        'ｒ' => Some('r'),
        'ｓ' => Some('s'),
        'ｔ' => Some('t'),
        'ｕ' => Some('u'),
        'ｖ' => Some('v'),
        'ｗ' => Some('w'),
        'ｘ' => Some('x'),
        'ｙ' => Some('y'),
        'ｚ' => Some('z'),
        '　' => Some(' '),
        'が' => Some('カ'),
        'ぎ' => Some('キ'),
        'ぐ' => Some('ク'),
        'げ' => Some('ケ'),
        'ご' => Some('コ'),
        'ざ' => Some('サ'),
        'じ' => Some('シ'),
        'ず' => Some('ス'),
        'ぜ' => Some('セ'),
        'ぞ' => Some('ソ'),
        'だ' => Some('タ'),
        'ぢ' => Some('チ'),
        'づ' => Some('ツ'),
        'で' => Some('テ'),
        'ど' => Some('ト'),
        'ば' => Some('ハ'),
        'び' => Some('ヒ'),
        'ぶ' => Some('フ'),
        'べ' => Some('ヘ'),
        'ぼ' => Some('ホ'),
        'ぱ' => Some('ハ'),
        'ぴ' => Some('ヒ'),
        'ぷ' => Some('フ'),
        'ぺ' => Some('ヘ'),
        'ぽ' => Some('ホ'),
        'ガ' => Some('カ'),
        'ギ' => Some('キ'),
        'グ' => Some('ク'),
        'ゲ' => Some('ケ'),
        'ゴ' => Some('コ'),
        'ザ' => Some('サ'),
        'ジ' => Some('シ'),
        'ズ' => Some('ス'),
        'ゼ' => Some('セ'),
        'ゾ' => Some('ソ'),
        'ダ' => Some('タ'),
        'ヂ' => Some('チ'),
        'ヅ' => Some('ツ'),
        'デ' => Some('テ'),
        'ド' => Some('ト'),
        'バ' => Some('ハ'),
        'ビ' => Some('ヒ'),
        'ブ' => Some('フ'),
        'ベ' => Some('ヘ'),
        'ボ' => Some('ホ'),
        'パ' => Some('ハ'),
        'ピ' => Some('ヒ'),
        'プ' => Some('フ'),
        'ペ' => Some('ヘ'),
        'ポ' => Some('ホ'),
        'ヴ' => Some('ウ'),
        '゛' => None,
        '゜' => None,
        'ぁ' => Some('ア'),
        'ぃ' => Some('イ'),
        'ぅ' => Some('ウ'),
        'ぇ' => Some('エ'),
        'ぉ' => Some('オ'),
        'っ' => Some('ツ'),
        'ゃ' => Some('ヤ'),
        'ゅ' => Some('ユ'),
        'ょ' => Some('ヨ'),
        'ゎ' => Some('ワ'),
        'あ' => Some('ア'),
        'い' => Some('イ'),
        'う' => Some('ウ'),
        'え' => Some('エ'),
        'お' => Some('オ'),
        'か' => Some('カ'),
        'き' => Some('キ'),
        'く' => Some('ク'),
        'け' => Some('ケ'),
        'こ' => Some('コ'),
        'さ' => Some('サ'),
        'し' => Some('シ'),
        'す' => Some('ス'),
        'せ' => Some('セ'),
        'そ' => Some('ソ'),
        'た' => Some('タ'),
        'ち' => Some('チ'),
        'つ' => Some('ツ'),
        'て' => Some('テ'),
        'と' => Some('ト'),
        'な' => Some('ナ'),
        'に' => Some('ニ'),
        'ぬ' => Some('ヌ'),
        'ね' => Some('ネ'),
        'の' => Some('ノ'),
        'は' => Some('ハ'),
        'ひ' => Some('ヒ'),
        'ふ' => Some('フ'),
        'へ' => Some('ヘ'),
        'ほ' => Some('ホ'),
        'ま' => Some('マ'),
        'み' => Some('ミ'),
        'む' => Some('ム'),
        'め' => Some('メ'),
        'も' => Some('モ'),
        'や' => Some('ヤ'),
        'ゆ' => Some('ユ'),
        'よ' => Some('ヨ'),
        'ら' => Some('ラ'),
        'り' => Some('リ'),
        'る' => Some('ル'),
        'れ' => Some('レ'),
        'ろ' => Some('ロ'),
        'わ' => Some('ワ'),
        'を' => Some('ヲ'),
        'ん' => Some('ン'),
        'ァ' => Some('ア'),
        'ィ' => Some('イ'),
        'ゥ' => Some('ウ'),
        'ェ' => Some('エ'),
        'ォ' => Some('オ'),
        'ッ' => Some('ツ'),
        'ャ' => Some('ヤ'),
        'ュ' => Some('ユ'),
        'ョ' => Some('ヨ'),
        'ヮ' => Some('ワ'),
        'ヵ' => Some('カ'),
        '工' => Some('エ'),
        'A' => Some('a'),
        'B' => Some('b'),
        'C' => Some('c'),
        'D' => Some('d'),
        'E' => Some('e'),
        'F' => Some('f'),
        'G' => Some('g'),
        'H' => Some('h'),
        'I' => Some('i'),
        'J' => Some('j'),
        'K' => Some('k'),
        'L' => Some('l'),
        'M' => Some('m'),
        'N' => Some('n'),
        'O' => Some('o'),
        'P' => Some('p'),
        'Q' => Some('q'),
        'R' => Some('r'),
        'S' => Some('s'),
        'T' => Some('t'),
        'U' => Some('u'),
        'V' => Some('v'),
        'W' => Some('w'),
        'X' => Some('x'),
        'Y' => Some('y'),
        'Z' => Some('z'),
        _ => Some(c),
    }
}

/// Normalization of a whole character sequence, character by character.
pub open spec fn normalize_seq(s: Seq<char>) -> Seq<char>
    decreases s.len(),
{
    if s.len() == 0 {
        Seq::empty()
    } else {
        match norm_char(s[0]) {
            Some(d) => seq![d] + normalize_seq(s.drop_first()),
            None => normalize_seq(s.drop_first()),
        }
    }
}

/// Normalization distributes over concatenation.
pub proof fn lemma_normalize_append(a: Seq<char>, b: Seq<char>)
    ensures
        normalize_seq(a + b) == normalize_seq(a) + normalize_seq(b),
    decreases a.len(),
{
    if a.len() == 0 {
        assert(a + b =~= b);
        assert(normalize_seq(a) + normalize_seq(b) =~= normalize_seq(b));
    } else {
        assert((a + b).drop_first() =~= a.drop_first() + b);
        lemma_normalize_append(a.drop_first(), b);
        match norm_char(a[0]) {
            Some(d) => {
                assert(seq![d] + (normalize_seq(a.drop_first()) + normalize_seq(b)) =~= (seq![d]
                    + normalize_seq(a.drop_first())) + normalize_seq(b));
            },
            None => {},
        }
    }
}

/// Appending one character appends its folded form (or nothing).
pub proof fn lemma_normalize_snoc(s: Seq<char>, c: char)
    ensures
        normalize_seq(s.push(c)) == match norm_char(c) {
            Some(d) => normalize_seq(s).push(d),
            None => normalize_seq(s),
        },
{
    reveal_with_fuel(normalize_seq, 3);
    assert(s.push(c) =~= s + seq![c]);
    lemma_normalize_append(s, seq![c]);
    assert(seq![c].drop_first() =~= Seq::<char>::empty());
    match norm_char(c) {
        Some(d) => {
            assert(normalize_seq(seq![c]) =~= seq![d]);
            assert(normalize_seq(s) + seq![d] =~= normalize_seq(s).push(d));
        },
        None => {
            assert(normalize_seq(seq![c]) =~= Seq::<char>::empty());
            assert(normalize_seq(s) + Seq::<char>::empty() =~= normalize_seq(s));
        },
    }
}

/// Every character the folding produces is itself a fixed point of the
/// folding.
#[verifier::rlimit(100)]
proof fn lemma_norm_char_fixed(c: char)
    ensures
        norm_char(c) matches Some(d) ==> norm_char(d) == Some(d),
{
}

/// Normalization is idempotent: a normalized sequence normalizes to itself.
pub proof fn lemma_normalize_idempotent(s: Seq<char>)
    ensures
        normalize_seq(normalize_seq(s)) == normalize_seq(s),
    decreases s.len(),
{
    if s.len() > 0 {
        lemma_normalize_idempotent(s.drop_first());
        match norm_char(s[0]) {
            Some(d) => {
                lemma_norm_char_fixed(s[0]);
                reveal_with_fuel(normalize_seq, 2);
                lemma_normalize_append(seq![d], normalize_seq(s.drop_first()));
                assert(seq![d].drop_first() =~= Seq::<char>::empty());
                assert(normalize_seq(seq![d]) =~= seq![d]);
            },
            None => {},
        }
    }
}

fn fold_char(c: char) -> (r: Option<char>)
    ensures
        r == norm_char(c),
{
    match c {
        '０' => Some('0'),
        '１' => Some('1'),
        '２' => Some('2'),
        '３' => Some('3'),
        '４' => Some('4'),
        '５' => Some('5'),
        '６' => Some('6'),
        '７' => Some('7'),
        '８' => Some('8'),
        '９' => Some('9'),
        'Ａ' => Some('a'),
        'Ｂ' => Some('b'),
        'Ｃ' => Some('c'),
        'Ｄ' => Some('d'),
        'Ｅ' => Some('e'),
        'Ｆ' => Some('f'),
        'Ｇ' => Some('g'),
        'Ｈ' => Some('h'),
        'Ｉ' => Some('i'),
        'Ｊ' => Some('j'),
        'Ｋ' => Some('k'),
        'Ｌ' => Some('l'),
        'Ｍ' => Some('m'),
        'Ｎ' => Some('n'),
        'Ｏ' => Some('o'),
        'Ｐ' => Some('p'),
        'Ｑ' => Some('q'),
        'Ｒ' => Some('r'),
        'Ｓ' => Some('s'),
        'Ｔ' => Some('t'),
        'Ｕ' => Some('u'),
        'Ｖ' => Some('v'),
        'Ｗ' => Some('w'),
        'Ｘ' => Some('x'),
        'Ｙ' => Some('y'),
        'Ｚ' => Some('z'),
        'ａ' => Some('a'),
        'ｂ' => Some('b'),
        'ｃ' => Some('c'),
        'ｄ' => Some('d'),
        'ｅ' => Some('e'),
        'ｆ' => Some('f'),
        'ｇ' => Some('g'),
        'ｈ' => Some('h'),
        'ｉ' => Some('i'),
        'ｊ' => Some('j'),
        'ｋ' => Some('k'),
        'ｌ' => Some('l'),
        'ｍ' => Some('m'),
        'ｎ' => Some('n'),
        'ｏ' => Some('o'),
        'ｐ' => Some('p'),
        'ｑ' => Some('q'),
        'ｒ' => Some('r'),
        'ｓ' => Some('s'),
        'ｔ' => Some('t'),
        'ｕ' => Some('u'),
        'ｖ' => Some('v'),
        'ｗ' => Some('w'),
        'ｘ' => Some('x'),
        'ｙ' => Some('y'),
        'ｚ' => Some('z'),
        '　' => Some(' '),
        'が' => Some('カ'),
        'ぎ' => Some('キ'),
        'ぐ' => Some('ク'),
        'げ' => Some('ケ'),
        'ご' => Some('コ'),
        'ざ' => Some('サ'),
        'じ' => Some('シ'),
        'ず' => Some('ス'),
        'ぜ' => Some('セ'),
        'ぞ' => Some('ソ'),
        'だ' => Some('タ'),
        'ぢ' => Some('チ'),
        'づ' => Some('ツ'),
        'で' => Some('テ'),
        'ど' => Some('ト'),
        'ば' => Some('ハ'),
        'び' => Some('ヒ'),
        'ぶ' => Some('フ'),
        'べ' => Some('ヘ'),
        'ぼ' => Some('ホ'),
        'ぱ' => Some('ハ'),
        'ぴ' => Some('ヒ'),
        'ぷ' => Some('フ'),
        'ぺ' => Some('ヘ'),
        'ぽ' => Some('ホ'),
        'ガ' => Some('カ'),
        'ギ' => Some('キ'),
        'グ' => Some('ク'),
        'ゲ' => Some('ケ'),
        'ゴ' => Some('コ'),
        'ザ' => Some('サ'),
        'ジ' => Some('シ'),
        'ズ' => Some('ス'),
        'ゼ' => Some('セ'),
        'ゾ' => Some('ソ'),
        'ダ' => Some('タ'),
        'ヂ' => Some('チ'),
        'ヅ' => Some('ツ'),
        'デ' => Some('テ'),
        'ド' => Some('ト'),
        'バ' => Some('ハ'),
        'ビ' => Some('ヒ'),
        'ブ' => Some('フ'),
        'ベ' => Some('ヘ'),
        'ボ' => Some('ホ'),
        'パ' => Some('ハ'),
        'ピ' => Some('ヒ'),
        'プ' => Some('フ'),
        'ペ' => Some('ヘ'),
        'ポ' => Some('ホ'),
        'ヴ' => Some('ウ'),
        '゛' => None,
        '゜' => None,
        'ぁ' => Some('ア'),
        'ぃ' => Some('イ'),
        'ぅ' => Some('ウ'),
        'ぇ' => Some('エ'),
        'ぉ' => Some('オ'),
        'っ' => Some('ツ'),
        'ゃ' => Some('ヤ'),
        'ゅ' => Some('ユ'),
        'ょ' => Some('ヨ'),
        'ゎ' => Some('ワ'),
        'あ' => Some('ア'),
        'い' => Some('イ'),
        'う' => Some('ウ'),
        'え' => Some('エ'),
        'お' => Some('オ'),
        'か' => Some('カ'),
        'き' => Some('キ'),
        'く' => Some('ク'),
        'け' => Some('ケ'),
        'こ' => Some('コ'),
        'さ' => Some('サ'),
        'し' => Some('シ'),
        'す' => Some('ス'),
        'せ' => Some('セ'),
        'そ' => Some('ソ'),
        'た' => Some('タ'),
        'ち' => Some('チ'),
        'つ' => Some('ツ'),
        'て' => Some('テ'),
        'と' => Some('ト'),
        'な' => Some('ナ'),
        'に' => Some('ニ'),
        'ぬ' => Some('ヌ'),
        'ね' => Some('ネ'),
        'の' => Some('ノ'),
        'は' => Some('ハ'),
        'ひ' => Some('ヒ'),
        'ふ' => Some('フ'),
        'へ' => Some('ヘ'),
        'ほ' => Some('ホ'),
        'ま' => Some('マ'),
        'み' => Some('ミ'),
        'む' => Some('ム'),
        'め' => Some('メ'),
        'も' => Some('モ'),
        'や' => Some('ヤ'),
        'ゆ' => Some('ユ'),
        'よ' => Some('ヨ'),
        'ら' => Some('ラ'),
        'り' => Some('リ'),
        'る' => Some('ル'),
        'れ' => Some('レ'),
        'ろ' => Some('ロ'),
        'わ' => Some('ワ'),
        'を' => Some('ヲ'),
        'ん' => Some('ン'),
        'ァ' => Some('ア'),
        'ィ' => Some('イ'),
        'ゥ' => Some('ウ'),
        'ェ' => Some('エ'),
        'ォ' => Some('オ'),
        'ッ' => Some('ツ'),
        'ャ' => Some('ヤ'),
        'ュ' => Some('ユ'),
        'ョ' => Some('ヨ'),
        'ヮ' => Some('ワ'),
        'ヵ' => Some('カ'),
        '工' => Some('エ'),
        'A' => Some('a'),
        'B' => Some('b'),
        'C' => Some('c'),
        'D' => Some('d'),
        'E' => Some('e'),
        'F' => Some('f'),
        'G' => Some('g'),
        'H' => Some('h'),
        'I' => Some('i'),
        'J' => Some('j'),
        'K' => Some('k'),
        'L' => Some('l'),
        'M' => Some('m'),
        'N' => Some('n'),
        'O' => Some('o'),
        'P' => Some('p'),
        'Q' => Some('q'),
        'R' => Some('r'),
        'S' => Some('s'),
        'T' => Some('t'),
        'U' => Some('u'),
        'V' => Some('v'),
        'W' => Some('w'),
        'X' => Some('x'),
        'Y' => Some('y'),
        'Z' => Some('z'),
        _ => Some(c),
    }
}

/// Relies on `String::push`: appends exactly the given character.
#[verifier::external_body]
fn push_char(s: &mut String, c: char)
    ensures
        final(s)@ == old(s)@.push(c),
{
    s.push(c);
}

/// The normalized form of a fragment; see [`norm_char`] for the folding.
pub fn normalize_japanese_characters(text: String) -> (r: String)
    ensures
        r@ == normalize_seq(text@),
{
    let mut result = String::new();
    for c in it: text.as_str().chars()
        invariant
            it.seq() == text@,
            result@ == normalize_seq(it.seq().take(it.index() as int)),
    {
        proof {
            let i = it.index() as int;
            assert(it.seq().take(i + 1) =~= it.seq().take(i).push(it.seq()[i]));
            lemma_normalize_snoc(it.seq().take(i), it.seq()[i]);
        }
        match fold_char(c) {
            Some(d) => {
                push_char(&mut result, d);
            },
            None => {},
        }
    }
    proof {
        assert(text@.take(text@.len() as int) =~= text@);
    }
    result
}


/// ASCII upper-case letters folded to lower case; anything else unchanged.
pub open spec fn lower_char(c: char) -> char {
    match c {
        'A' => 'a',
        'B' => 'b',
        'C' => 'c',
        'D' => 'd',
        'E' => 'e',
        'F' => 'f',
        'G' => 'g',
        'H' => 'h',
        'I' => 'i',
        'J' => 'j',
        'K' => 'k',
        'L' => 'l',
        'M' => 'm',
        'N' => 'n',
        'O' => 'o',
        'P' => 'p',
        'Q' => 'q',
        'R' => 'r',
        'S' => 's',
        'T' => 't',
        'U' => 'u',
        'V' => 'v',
        'W' => 'w',
        'X' => 'x',
        'Y' => 'y',
        'Z' => 'z',
        _ => c,
    }
}

/// A sequence with every ASCII letter folded to lower case.
pub open spec fn lower_seq(s: Seq<char>) -> Seq<char> {
    s.map_values(|c: char| lower_char(c))
}

fn lower_char_exec(c: char) -> (r: char)
    ensures
        r == lower_char(c),
{
    match c {
        'A' => 'a',
        'B' => 'b',
        'C' => 'c',
        'D' => 'd',
        'E' => 'e',
        'F' => 'f',
        'G' => 'g',
        'H' => 'h',
        'I' => 'i',
        'J' => 'j',
        'K' => 'k',
        'L' => 'l',
        'M' => 'm',
        'N' => 'n',
        'O' => 'o',
        'P' => 'p',
        'Q' => 'q',
        'R' => 'r',
        'S' => 's',
        'T' => 't',
        'U' => 'u',
        'V' => 'v',
        'W' => 'w',
        'X' => 'x',
        'Y' => 'y',
        'Z' => 'z',
        _ => c,
    }
}

/// The characters stripped from the ends of a fragment before lookup:
/// ASCII whitespace and the full-width space OCR output often carries.
pub open spec fn is_space_char(c: char) -> bool {
    c == ' ' || c == '\t' || c == '\n' || c == '\r' || c == '\u{3000}'
}

/// The sequence with leading and trailing whitespace removed.
pub open spec fn trim_seq(s: Seq<char>) -> Seq<char>
    decreases s.len(),
{
    if s.len() == 0 {
        s
    } else if is_space_char(s[0]) {
        trim_seq(s.drop_first())
    } else if is_space_char(s[s.len() - 1]) {
        trim_seq(s.drop_last())
    } else {
        s
    }
}

/// `needle` occurs contiguously in `hay` starting at `i`.
pub open spec fn matches_at(hay: Seq<char>, needle: Seq<char>, i: int) -> bool {
    &&& 0 <= i
    &&& i + needle.len() <= hay.len()
    &&& hay.subrange(i, i + needle.len()) == needle
}

/// `needle` occurs contiguously somewhere in `hay`.
pub open spec fn contains_seq(hay: Seq<char>, needle: Seq<char>) -> bool {
    exists|i: int| matches_at(hay, needle, i)
}

/// The characters of a string, as a vector.
pub fn to_char_vec(s: &str) -> (v: Vec<char>)
    ensures
        v@ == s@,
{
    let mut v: Vec<char> = Vec::new();
    for c in it: s.chars()
        invariant
            it.seq() == s@,
            v@ == it.seq().take(it.index() as int),
    {
        v.push(c);
    }
    proof {
        assert(s@.take(s@.len() as int) =~= s@);
    }
    v
}

/// Every ASCII letter of the vector folded to lower case.
pub fn lower_chars(v: &Vec<char>) -> (r: Vec<char>)
    ensures
        r@ == lower_seq(v@),
{
    let mut r: Vec<char> = Vec::new();
    let n = v.len();
    for i in 0..n
        invariant
            n == v@.len(),
            r@ =~= v@.take(i as int).map_values(|c: char| lower_char(c)),
    {
        r.push(lower_char_exec(v[i]));
        proof {
            assert(v@.take(i + 1) =~= v@.take(i as int).push(v@[i as int]));
        }
    }
    proof {
        assert(v@.take(n as int) =~= v@);
    }
    r
}

/// The vector with leading and trailing whitespace removed.
pub fn trim_chars(v: &Vec<char>) -> (r: Vec<char>)
    ensures
        r@ == trim_seq(v@),
{
    let mut start: usize = 0;
    let mut end: usize = v.len();
    proof {
        assert(v@.subrange(0, v@.len() as int) =~= v@);
    }
    while start < end && is_space_exec(v[start])
        invariant
            start <= end <= v@.len(),
            trim_seq(v@) == trim_seq(v@.subrange(start as int, end as int)),
        decreases end - start,
    {
        proof {
            let sub = v@.subrange(start as int, end as int);
            assert(sub.drop_first() =~= v@.subrange(start as int + 1, end as int));
        }
        start = start + 1;
    }
    while start < end && is_space_exec(v[end - 1])
        invariant
            start <= end <= v@.len(),
            trim_seq(v@) == trim_seq(v@.subrange(start as int, end as int)),
            start < end ==> !is_space_char(v@[start as int]),
        decreases end - start,
    {
        proof {
            let sub = v@.subrange(start as int, end as int);
            assert(sub.drop_last() =~= v@.subrange(start as int, end as int - 1));
        }
        end = end - 1;
    }
    let mut r: Vec<char> = Vec::new();
    let mut i: usize = start;
    while i < end
        invariant
            start <= i <= end <= v@.len(),
            r@ =~= v@.subrange(start as int, i as int),
        decreases end - i,
    {
        r.push(v[i]);
        proof {
            assert(v@.subrange(start as int, i + 1) =~= v@.subrange(start as int, i as int).push(
                v@[i as int],
            ));
        }
        i = i + 1;
    }
    proof {
        let sub = v@.subrange(start as int, end as int);
        if start < end {
            assert(!is_space_char(sub[0]));
            assert(!is_space_char(sub[sub.len() - 1]));
        }
        assert(trim_seq(sub) == sub);
    }
    r
}

fn is_space_exec(c: char) -> (r: bool)
    ensures
        r == is_space_char(c),
{
    c == ' ' || c == '\t' || c == '\n' || c == '\r' || c == '\u{3000}'
}

/// Whether `needle` occurs in `hay` starting at offset `i`.
fn prefix_matches(hay: &Vec<char>, needle: &Vec<char>, i: usize) -> (r: bool)
    requires
        i + needle@.len() <= hay@.len(),
    ensures
        r <==> (forall|m: int| 0 <= m < needle@.len() ==> hay@[i + m] == needle@[m]),
{
    let nlen = needle.len();
    let hlen = hay.len();
    let mut j: usize = 0;
    while j < nlen
        invariant
            nlen == needle@.len(),
            hlen == hay@.len(),
            i + nlen <= hay@.len(),
            j <= nlen,
            forall|m: int| 0 <= m < j ==> hay@[i + m] == needle@[m],
        decreases nlen - j,
    {
        if hay[i + j] != needle[j] {
            proof {
                assert(hay@[i + j as int] != needle@[j as int]);
            }
            return false;
        }
        proof {
            assert(hay@[i + j as int] == needle@[j as int]);
        }
        j = j + 1;
    }
    true
}

/// Whether `needle` occurs contiguously in `hay`.
pub fn contains_chars(hay: &Vec<char>, needle: &Vec<char>) -> (r: bool)
    ensures
        r == contains_seq(hay@, needle@),
{
    let nlen = needle.len();
    let hlen = hay.len();
    if nlen > hlen {
        proof {
            assert(forall|i: int| !matches_at(hay@, needle@, i));
        }
        return false;
    }
    let mut i: usize = 0;
    while i <= hlen - nlen
        invariant
            nlen == needle@.len() <= hlen == hay@.len(),
            i <= hlen - nlen + 1,
            forall|k: int| 0 <= k < i ==> !matches_at(hay@, needle@, k),
        decreases hlen - nlen - i + 1,
    {
        if prefix_matches(hay, needle, i) {
            proof {
                assert(hay@.subrange(i as int, i + needle@.len()) =~= needle@);
                assert(matches_at(hay@, needle@, i as int));
            }
            return true;
        }
        proof {
            if matches_at(hay@, needle@, i as int) {
                assert(forall|m: int| 0 <= m < nlen ==> #[trigger] hay@.subrange(
                    i as int,
                    i + nlen,
                )[m] == hay@[i + m]);
                assert(false);
            }
        }
        i = i + 1;
    }
    proof {
        assert(forall|k: int| !matches_at(hay@, needle@, k));
    }
    false
}

/// Whether two character vectors hold the same characters.
pub fn chars_eq(a: &Vec<char>, b: &Vec<char>) -> (r: bool)
    ensures
        r == (a@ == b@),
{
    if a.len() != b.len() {
        return false;
    }
    let n = a.len();
    for i in 0..n
        invariant
            n == a@.len() == b@.len(),
            forall|k: int| 0 <= k < i ==> a@[k] == b@[k],
    {
        if a[i] != b[i] {
            return false;
        }
    }
    proof {
        assert(a@ =~= b@);
    }
    true
}

/// The normalized form of a character vector; see [`norm_char`].
pub fn normalize_chars(v: &Vec<char>) -> (r: Vec<char>)
    ensures
        r@ == normalize_seq(v@),
{
    let mut r: Vec<char> = Vec::new();
    let n = v.len();
    for i in 0..n
        invariant
            n == v@.len(),
            r@ == normalize_seq(v@.take(i as int)),
    {
        proof {
            assert(v@.take(i + 1) =~= v@.take(i as int).push(v@[i as int]));
            lemma_normalize_snoc(v@.take(i as int), v@[i as int]);
        }
        match fold_char(v[i]) {
            Some(d) => {
                r.push(d);
            },
            None => {},
        }
    }
    proof {
        assert(v@.take(n as int) =~= v@);
    }
    r
}

} // verus!
