//! Inferring a chapter's ordinal from its display title.
use vstd::prelude::*;
use crate::model::ChapterNumber;
use crate::text::{string_of, lowercase, lower_of, words, words_of, same_chars};

verus! {

/// A character that may stand in a number: an ASCII digit or a point.
pub open spec fn is_num_char(c: char) -> bool {
    ('0' <= c && c <= '9') || c == '.'
}

/// The end of the run of number characters of `t` that starts at `i`.
pub open spec fn run_end(t: Seq<char>, i: int) -> int
    decreases t.len() - i,
{
    if 0 <= i < t.len() && is_num_char(t[i]) {
        run_end(t, i + 1)
    } else {
        i
    }
}

/// The leading run of digits and points of `t`.
pub open spec fn num_prefix(t: Seq<char>) -> Seq<char> {
    t.subrange(0, run_end(t, 0))
}

/// A run of digits and points that reads as a floating number: at least one
/// digit and at most one point.
pub open spec fn is_decimal_literal(d: Seq<char>) -> bool {
    &&& exists|i: int| 0 <= i < d.len() && '0' <= #[trigger] d[i] && d[i] <= '9'
    &&& forall|i: int, j: int| 0 <= i < j < d.len() && #[trigger] d[i] == '.' ==> #[trigger] d[j] != '.'
}

/// A word that announces a chapter number.
pub open spec fn is_label(t: Seq<char>) -> bool {
    t == seq!['c', 'h', 'a', 'p', 't', 'e', 'r'] || t == seq!['c', 'h'] || t == seq!['c', 'h', '.']
        || t == seq!['c', 'h', 'a', 'p'] || t == seq!['c', 'h', 'a', 'p', '.']
}

/// The number read from the word after the first label, from index `i` on,
/// whose following word starts with a literal.
pub open spec fn label_number_from(ts: Seq<Seq<char>>, i: int) -> Option<Seq<char>>
    decreases ts.len() - i,
{
    if i < 0 || i + 1 >= ts.len() {
        None
    } else if is_label(ts[i]) && is_decimal_literal(num_prefix(ts[i + 1])) {
        Some(num_prefix(ts[i + 1]))
    } else {
        label_number_from(ts, i + 1)
    }
}

/// The number read from the first word, from index `i` on, that starts with a literal.
pub open spec fn bare_number_from(ts: Seq<Seq<char>>, i: int) -> Option<Seq<char>>
    decreases ts.len() - i,
{
    if i < 0 || i >= ts.len() {
        None
    } else if is_decimal_literal(num_prefix(ts[i])) {
        Some(num_prefix(ts[i]))
    } else {
        bare_number_from(ts, i + 1)
    }
}

/// The number of a title split into lowercase words: after a label first,
/// else the first bare number.
pub open spec fn title_number(ts: Seq<Seq<char>>) -> Option<Seq<char>> {
    match label_number_from(ts, 0) {
        Some(n) => Some(n),
        None => bare_number_from(ts, 0),
    }
}

/// The views of a list of words.
pub open spec fn words_view(ts: Seq<Vec<char>>) -> Seq<Seq<char>> {
    ts.map_values(|t: Vec<char>| t@)
}

/// `c` is the ordinal of a chapter titled `title` found at `position`: the
/// number read from the title, else the position.
pub open spec fn number_is(c: ChapterNumber, title: Option<Seq<char>>, position: usize) -> bool {
    let inferred = match title {
        Some(t) => title_number(words_of(lower_of(t))),
        None => None,
    };
    match inferred {
        Some(d) => c matches ChapterNumber::Decimal(s) && s@ == d,
        None => c matches ChapterNumber::Position(p) && p == position,
    }
}

/// The leading run of digits and points of `t`.
pub fn numeric_prefix(t: &Vec<char>) -> (r: Vec<char>)
    ensures
        r@ == num_prefix(t@),
{
    let mut out: Vec<char> = Vec::new();
    let mut i: usize = 0;
    while i < t.len() && (('0' <= t[i] && t[i] <= '9') || t[i] == '.')
        invariant
            i <= t.len(),
            run_end(t@, 0) == run_end(t@, i as int),
            out@ == t@.subrange(0, i as int),
        decreases t.len() - i,
    {
        out.push(t[i]);
        i = i + 1;
        assert(out@ =~= t@.subrange(0, i as int));
    }
    out
}

/// Whether a run of digits and points reads as a floating number.
pub fn is_decimal(d: &Vec<char>) -> (r: bool)
    ensures
        r == is_decimal_literal(d@),
{
    let mut digit = false;
    let mut point: Option<usize> = None;
    let mut i: usize = 0;
    while i < d.len()
        invariant
            i <= d.len(),
            digit == exists|k: int| 0 <= k < i && '0' <= #[trigger] d@[k] && d@[k] <= '9',
            forall|a: int, b: int| 0 <= a < b < i && #[trigger] d@[a] == '.' ==> #[trigger] d@[b] != '.',
            match point {
                Some(p) => p < i && d@[p as int] == '.',
                None => forall|k: int| 0 <= k < i ==> #[trigger] d@[k] != '.',
            },
        decreases d.len() - i,
    {
        if d[i] == '.' {
            if let Some(p) = point {
                assert(d@[p as int] == '.' && d@[i as int] == '.');
                return false;
            }
            point = Some(i);
        }
        if '0' <= d[i] && d[i] <= '9' {
            digit = true;
        }
        i = i + 1;
    }
    digit
}

/// Whether a word announces a chapter number.
pub fn is_label_word(t: &Vec<char>) -> (r: bool)
    ensures
        r == is_label(t@),
{
    let l1 = vec!['c', 'h', 'a', 'p', 't', 'e', 'r'];
    let l2 = vec!['c', 'h'];
    let l3 = vec!['c', 'h', '.'];
    let l4 = vec!['c', 'h', 'a', 'p'];
    let l5 = vec!['c', 'h', 'a', 'p', '.'];
    assert(l1@ =~= seq!['c', 'h', 'a', 'p', 't', 'e', 'r']);
    assert(l2@ =~= seq!['c', 'h']);
    assert(l3@ =~= seq!['c', 'h', '.']);
    assert(l4@ =~= seq!['c', 'h', 'a', 'p']);
    assert(l5@ =~= seq!['c', 'h', 'a', 'p', '.']);
    same_chars(t, &l1) || same_chars(t, &l2) || same_chars(t, &l3) || same_chars(t, &l4)
        || same_chars(t, &l5)
}

/// The number of a title given as its lowercase words: the literal after the
/// first label followed by one, else the first word that starts with a
/// literal, else none.
pub fn number_from_words(ts: &Vec<Vec<char>>) -> (r: Option<String>)
    ensures
        match r {
            Some(s) => title_number(words_view(ts@)) == Some(s@),
            None => title_number(words_view(ts@)) is None,
        },
{
    let ghost v = words_view(ts@);
    let mut i: usize = 0;
    while i < ts.len() && i + 1 < ts.len()
        invariant
            i <= ts.len(),
            v == words_view(ts@),
            label_number_from(v, 0) == label_number_from(v, i as int),
        decreases ts.len() - i,
    {
        if is_label_word(&ts[i]) {
            let n = numeric_prefix(&ts[i + 1]);
            if is_decimal(&n) {
                return Some(string_of(&n));
            }
        }
        i = i + 1;
    }
    let mut j: usize = 0;
    while j < ts.len()
        invariant
            v == words_view(ts@),
            label_number_from(v, 0) is None,
            bare_number_from(v, 0) == bare_number_from(v, j as int),
        decreases ts.len() - j,
    {
        let n = numeric_prefix(&ts[j]);
        if is_decimal(&n) {
            return Some(string_of(&n));
        }
        j = j + 1;
    }
    None
}

/// The ordinal of a chapter titled `title` found at `position`.
pub fn infer_chapter_number(title: &Option<String>, position: usize) -> (r: ChapterNumber)
    ensures
        number_is(r, crate::model::opt_view(*title), position),
{
    if let Some(t) = title {
        let lower = lowercase(t.as_str());
        let ws = words(string_of(&lower).as_str());
        assert(words_view(ws@) =~= words_of(lower_of(t@)));
        if let Some(d) = number_from_words(&ws) {
            return ChapterNumber::Decimal(d);
        }
    }
    ChapterNumber::Position(position)
}

} // verus!
