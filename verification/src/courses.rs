//! Course and console types, and the two course resolvers.
//!
//! Both resolvers take the list of OCR [`Word`]s seen in a frame. A series
//! tag among the words ("GC", "3DS", ...) picks the console whose courses
//! are searched; with no tag the current-generation courses are searched.
//! The exact resolver returns the course whose normalized name equals a
//! normalized word; the nearest resolver compares the longest word against
//! every course of the console by edit distance.

use vstd::prelude::*;

use crate::text::contains_chars;
use crate::text::contains_seq;
use crate::text::lower_chars;
use crate::text::lower_seq;
use crate::text::normalize_chars;
use crate::text::normalize_seq;
use crate::text::to_char_vec;
use crate::text::trim_chars;
use crate::text::trim_seq;
use crate::text::chars_eq;
use crate::word::Word;

verus! {

/// The game generation ("series") a course belongs to.
#[allow(clippy::upper_case_acronyms)]
#[derive(Debug, Clone, Copy, PartialEq, Eq, Hash, Structural)]
pub enum Console {
    SFC,
    GBA,
    N64,
    GC,
    DS,
    Wii,
    _3DS,
    New,
    Tour,
}

/// The prefix a console contributes to a course's display form. Courses of
/// the current generation carry no prefix.
pub open spec fn spec_console_label(c: Console) -> Seq<char> {
    match c {
        Console::SFC => "SFC"@,
        Console::GBA => "GBA"@,
        Console::N64 => "N64"@,
        Console::GC => "GC"@,
        Console::DS => "DS"@,
        Console::Wii => "Wii"@,
        Console::_3DS => "3DS"@,
        Console::New => ""@,
        Console::Tour => "Tour"@,
    }
}

impl Console {
    /// The console's display label; empty for the current generation.
    pub fn label(self) -> (s: String)
        ensures
            s@ == spec_console_label(self),
    {
        let text: &str = match self {
            Console::SFC => "SFC",
            Console::GBA => "GBA",
            Console::N64 => "N64",
            Console::GC => "GC",
            Console::DS => "DS",
            Console::Wii => "Wii",
            Console::_3DS => "3DS",
            Console::New => "",
            Console::Tour => "Tour",
        };
        text.to_owned()
    }
}

/// A course of the catalog: its display name and the console it first
/// appeared on.
#[derive(Debug, PartialEq, Eq, Hash)]
pub struct Course {
    pub name: String,
    pub console: Console,
}

impl Clone for Course {
    fn clone(&self) -> (c: Self)
        ensures
            c == *self,
    {
        Course { name: self.name.clone(), console: self.console }
    }
}

/// A course's display form: the console label and the name, separated by a
/// space; courses of the current generation show the bare name.
pub open spec fn spec_course_display(c: Course) -> Seq<char> {
    if c.console == Console::New {
        c.name@
    } else {
        spec_console_label(c.console) + " "@ + c.name@
    }
}

impl Course {
    pub fn new(name: String, console: Console) -> (c: Self)
        ensures
            c.name == name,
            c.console == console,
    {
        Self { name, console }
    }

    /// The string shown to the user for this course.
    pub fn display_name(&self) -> (s: String)
        ensures
            s@ == spec_course_display(*self),
    {
        match self.console {
            Console::New => self.name.clone(),
            _ => {
                let mut s = self.console.label();
                s.append(" ");
                s.append(self.name.as_str());
                s
            },
        }
    }
}

/// The console named by a series tag inside the fragment, if any; the tags
/// are tried in a fixed order so that "3ds" wins over its substring "ds".
pub open spec fn word_console(t: Seq<char>) -> Option<Console> {
    let l = lower_seq(t);
    if contains_seq(l, "sfc"@) {
        Some(Console::SFC)
    } else if contains_seq(l, "gba"@) {
        Some(Console::GBA)
    } else if contains_seq(l, "n64"@) {
        Some(Console::N64)
    } else if contains_seq(l, "gc"@) {
        Some(Console::GC)
    } else if contains_seq(l, "3ds"@) {
        Some(Console::_3DS)
    } else if contains_seq(l, "ds"@) {
        Some(Console::DS)
    } else if contains_seq(l, "wii"@) {
        Some(Console::Wii)
    } else if contains_seq(l, "tour"@) {
        Some(Console::Tour)
    } else {
        None
    }
}

/// The console inferred from a word list: what the first word carrying a
/// series tag names, or the current generation when none does.
pub open spec fn spec_infer_console(words: Seq<Word>) -> Console
    decreases words.len(),
{
    if words.len() == 0 {
        Console::New
    } else {
        match word_console(words[0].text@) {
            Some(c) => c,
            None => spec_infer_console(words.drop_first()),
        }
    }
}

pub(crate) fn word_console_exec(text: &str) -> (r: Option<Console>)
    ensures
        r == word_console(text@),
{
    let chars = to_char_vec(text);
    let l = lower_chars(&chars);
    if contains_chars(&l, &to_char_vec("sfc")) {
        Some(Console::SFC)
    } else if contains_chars(&l, &to_char_vec("gba")) {
        Some(Console::GBA)
    } else if contains_chars(&l, &to_char_vec("n64")) {
        Some(Console::N64)
    } else if contains_chars(&l, &to_char_vec("gc")) {
        Some(Console::GC)
    } else if contains_chars(&l, &to_char_vec("3ds")) {
        Some(Console::_3DS)
    } else if contains_chars(&l, &to_char_vec("ds")) {
        Some(Console::DS)
    } else if contains_chars(&l, &to_char_vec("wii")) {
        Some(Console::Wii)
    } else if contains_chars(&l, &to_char_vec("tour")) {
        Some(Console::Tour)
    } else {
        None
    }
}

/// The console whose courses both resolvers search for the given words.
pub fn get_console_by_words(words: &Vec<Word>) -> (r: Console)
    ensures
        r == spec_infer_console(words@),
{
    let n = words.len();
    let mut i: usize = 0;
    proof {
        assert(words@.skip(0) =~= words@);
    }
    while i < n
        invariant
            n == words@.len(),
            i <= n,
            spec_infer_console(words@) == spec_infer_console(words@.skip(i as int)),
        decreases n - i,
    {
        proof {
            assert(words@.skip(i as int)[0] == words@[i as int]);
            assert(words@.skip(i as int).drop_first() =~= words@.skip(i + 1));
        }
        match word_console_exec(words[i].text.as_str()) {
            Some(c) => {
                return c;
            },
            None => {},
        }
        i = i + 1;
    }
    proof {
        assert(words@.skip(n as int) =~= Seq::<Word>::empty());
    }
    Console::New
}

/// The key a fragment is looked up under: lower-cased, trimmed,
/// normalized.
pub open spec fn word_key(t: Seq<char>) -> Seq<char> {
    normalize_seq(trim_seq(lower_seq(t)))
}

/// The key a course is stored under: its normalized name.
pub open spec fn course_key(c: Course) -> Seq<char> {
    normalize_seq(c.name@)
}

/// The first course of the given console whose key equals `key`.
pub open spec fn spec_lookup_course(cat: Seq<Course>, console: Console, key: Seq<char>) -> Option<
    Course,
>
    decreases cat.len(),
{
    if cat.len() == 0 {
        None
    } else if cat[0].console == console && course_key(cat[0]) == key {
        Some(cat[0])
    } else {
        spec_lookup_course(cat.drop_first(), console, key)
    }
}

/// The course named exactly by the first word that has an exact match, if
/// any, searching the given console only.
pub open spec fn spec_exact_from_words(
    cat: Seq<Course>,
    words: Seq<Word>,
    console: Console,
) -> Option<Course>
    decreases words.len(),
{
    if words.len() == 0 {
        None
    } else {
        match spec_lookup_course(cat, console, word_key(words[0].text@)) {
            Some(c) => Some(c),
            None => spec_exact_from_words(cat, words.drop_first(), console),
        }
    }
}

/// What the exact resolver returns: the console is inferred from the
/// words, and the first word whose key matches a course of that console
/// resolves to that course.
pub open spec fn spec_get_course_by_words(cat: Seq<Course>, words: Seq<Word>) -> Option<Course> {
    spec_exact_from_words(cat, words, spec_infer_console(words))
}

fn word_key_exec(text: &str) -> (r: Vec<char>)
    ensures
        r@ == word_key(text@),
{
    let chars = to_char_vec(text);
    let l = lower_chars(&chars);
    let t = trim_chars(&l);
    normalize_chars(&t)
}

fn lookup_course(cat: &Vec<Course>, console: Console, key: &Vec<char>) -> (r: Option<Course>)
    ensures
        r == spec_lookup_course(cat@, console, key@),
{
    let n = cat.len();
    let mut i: usize = 0;
    proof {
        assert(cat@.skip(0) =~= cat@);
    }
    while i < n
        invariant
            n == cat@.len(),
            i <= n,
            spec_lookup_course(cat@, console, key@) == spec_lookup_course(
                cat@.skip(i as int),
                console,
                key@,
            ),
        decreases n - i,
    {
        proof {
            assert(cat@.skip(i as int)[0] == cat@[i as int]);
            assert(cat@.skip(i as int).drop_first() =~= cat@.skip(i + 1));
        }
        if cat[i].console == console {
            let ck = normalize_chars(&to_char_vec(cat[i].name.as_str()));
            if chars_eq(&ck, key) {
                return Some(cat[i].clone());
            }
        }
        i = i + 1;
    }
    proof {
        assert(cat@.skip(n as int) =~= Seq::<Course>::empty());
    }
    None
}

/// Exact resolve: the first word whose normalized form names a course of
/// the inferred console, resolved to that course; `None` when no word
/// matches exactly.
pub fn get_course_by_words(cat: &Vec<Course>, words: &Vec<Word>) -> (r: Option<Course>)
    ensures
        r == spec_get_course_by_words(cat@, words@),
{
    let console = get_console_by_words(words);
    let n = words.len();
    let mut i: usize = 0;
    proof {
        assert(words@.skip(0) =~= words@);
    }
    while i < n
        invariant
            n == words@.len(),
            i <= n,
            console == spec_infer_console(words@),
            spec_exact_from_words(cat@, words@, console) == spec_exact_from_words(
                cat@,
                words@.skip(i as int),
                console,
            ),
        decreases n - i,
    {
        proof {
            assert(words@.skip(i as int)[0] == words@[i as int]);
            assert(words@.skip(i as int).drop_first() =~= words@.skip(i + 1));
        }
        let key = word_key_exec(words[i].text.as_str());
        match lookup_course(cat, console, &key) {
            Some(c) => {
                return Some(c);
            },
            None => {},
        }
        i = i + 1;
    }
    proof {
        assert(words@.skip(n as int) =~= Seq::<Word>::empty());
    }
    None
}


/// The minimum number of single-character insertions, deletions and
/// substitutions that turn `a` into `b`.
pub open spec fn spec_levenshtein(a: Seq<char>, b: Seq<char>) -> nat
    decreases a.len(), b.len(),
{
    if a.len() == 0 {
        b.len()
    } else if b.len() == 0 {
        a.len()
    } else {
        let keep_or_sub: nat = if a[0] == b[0] {
            spec_levenshtein(a.drop_first(), b.drop_first())
        } else {
            spec_levenshtein(a.drop_first(), b.drop_first()) + 1
        };
        let del: nat = spec_levenshtein(a.drop_first(), b) + 1;
        let ins: nat = spec_levenshtein(a, b.drop_first()) + 1;
        if keep_or_sub <= del && keep_or_sub <= ins {
            keep_or_sub
        } else if del <= ins {
            del
        } else {
            ins
        }
    }
}

/// Relies on `strsim::levenshtein`: the Levenshtein edit distance between
/// the two character sequences.
#[verifier::external_body]
fn levenshtein_chars(a: &Vec<char>, b: &Vec<char>) -> (d: usize)
    ensures
        d == spec_levenshtein(a@, b@),
{
    let sa: String = a.iter().collect();
    let sb: String = b.iter().collect();
    strsim::levenshtein(&sa, &sb)
}

/// The index of the first word of maximal character count among the first
/// `n` words.
pub open spec fn spec_longest_idx(words: Seq<Word>, n: int) -> int
    decreases n,
{
    if n <= 1 {
        0
    } else {
        let p = spec_longest_idx(words, n - 1);
        if words[n - 1].text@.len() > words[p].text@.len() {
            n - 1
        } else {
            p
        }
    }
}

/// The first course among the first `n` catalog entries of the given
/// console at minimal edit distance from `target`, with that distance.
pub open spec fn spec_best_match(
    cat: Seq<Course>,
    console: Console,
    target: Seq<char>,
    n: int,
) -> Option<(int, nat)>
    decreases n,
{
    if n <= 0 {
        None
    } else {
        let prev = spec_best_match(cat, console, target, n - 1);
        if cat[n - 1].console != console {
            prev
        } else {
            let d = spec_levenshtein(target, course_key(cat[n - 1]));
            match prev {
                None => Some((n - 1, d)),
                Some(p) => if d < p.1 {
                    Some((n - 1, d))
                } else {
                    prev
                },
            }
        }
    }
}

/// What the nearest resolver returns: the first course of the inferred
/// console at minimal edit distance from the normalized longest word, when
/// that distance is within the threshold.
pub open spec fn spec_get_course_by_words_with_nearest(
    cat: Seq<Course>,
    words: Seq<Word>,
    threshold: int,
) -> Option<Course> {
    if words.len() == 0 {
        None
    } else {
        let lw = words[spec_longest_idx(words, words.len() as int)];
        let target = normalize_seq(lw.text@);
        match spec_best_match(cat, spec_infer_console(words), target, cat.len() as int) {
            None => None,
            Some(p) => if p.1 <= threshold {
                Some(cat[p.0])
            } else {
                None
            },
        }
    }
}

/// Nearest resolve: the longest word, normalized, is compared against
/// every course of the inferred console by edit distance; the closest
/// course is returned when its distance is within `threshold`, and `None`
/// otherwise or when `words` is empty.
pub fn get_course_by_words_with_nearest(
    cat: &Vec<Course>,
    words: &Vec<Word>,
    threshold: usize,
) -> (r: Option<Course>)
    ensures
        r == spec_get_course_by_words_with_nearest(cat@, words@, threshold as int),
{
    if words.len() == 0 {
        return None;
    }
    let console = get_console_by_words(words);

    let n = words.len();
    let mut longest: usize = 0;
    let mut longest_len: usize = to_char_vec(words[0].text.as_str()).len();
    let mut i: usize = 1;
    while i < n
        invariant
            n == words@.len(),
            1 <= i <= n,
            longest == spec_longest_idx(words@, i as int),
            0 <= longest < i,
            longest_len == words@[longest as int].text@.len(),
        decreases n - i,
    {
        let wl = to_char_vec(words[i].text.as_str()).len();
        if wl > longest_len {
            longest = i;
            longest_len = wl;
        }
        i = i + 1;
    }

    let target = normalize_chars(&to_char_vec(words[longest].text.as_str()));

    let m = cat.len();
    let mut best: Option<(usize, usize)> = None;
    let mut j: usize = 0;
    while j < m
        invariant
            m == cat@.len(),
            j <= m,
            target@ == normalize_seq(words@[longest as int].text@),
            match best {
                None => spec_best_match(cat@, console, target@, j as int) is None,
                Some(b) => {
                    &&& 0 <= b.0 < j
                    &&& spec_best_match(cat@, console, target@, j as int) == Some(
                        (b.0 as int, b.1 as nat),
                    )
                },
            },
        decreases m - j,
    {
        if cat[j].console == console {
            let ck = normalize_chars(&to_char_vec(cat[j].name.as_str()));
            let d = levenshtein_chars(&target, &ck);
            match best {
                None => {
                    best = Some((j, d));
                },
                Some(b) => {
                    if d < b.1 {
                        best = Some((j, d));
                    }
                },
            }
        }
        j = j + 1;
    }

    match best {
        None => None,
        Some(b) => {
            if b.1 <= threshold {
                Some(cat[b.0].clone())
            } else {
                None
            }
        },
    }
}

} // verus!
