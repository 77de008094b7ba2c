//! Splitting text into pieces: on a separator character, on white space,
//! and into the items of a Tcl list, where `{...}` groups a run of words.
use vstd::prelude::*;
use crate::text::{is_ws, is_whitespace, substring};

verus! {

/// The views of a sequence of strings.
pub open spec fn views(v: Seq<String>) -> Seq<Seq<char>> {
    v.map_values(|x: String| x@)
}

/// The first position at or after `i` where `s` holds `c`; `s.len()` where
/// there is none.
pub open spec fn next_pos(s: Seq<char>, i: int, c: char) -> int
    decreases s.len() - i,
{
    if i >= s.len() {
        s.len() as int
    } else if s[i] == c {
        i
    } else {
        next_pos(s, i + 1, c)
    }
}

proof fn lemma_next_pos(s: Seq<char>, i: int, c: char)
    requires
        0 <= i <= s.len(),
    ensures
        i <= next_pos(s, i, c) <= s.len(),
        next_pos(s, i, c) < s.len() ==> s[next_pos(s, i, c)] == c,
        forall|k: int| i <= k < next_pos(s, i, c) ==> s[k] != c,
    decreases s.len() - i,
{
    if i < s.len() && s[i] != c {
        lemma_next_pos(s, i + 1, c);
    }
}

/// The position of the first `c` in `s` at or after `i`, or `s.len()`.
pub fn find_from(s: &Vec<char>, i: usize, c: char) -> (r: usize)
    requires
        i <= s@.len(),
    ensures
        r == next_pos(s@, i as int, c),
{
    let mut j: usize = i;
    while j < s.len() && s[j] != c
        invariant
            i <= j <= s@.len(),
            next_pos(s@, i as int, c) == next_pos(s@, j as int, c),
        decreases s@.len() - j,
    {
        j = j + 1;
    }
    j
}

/// The pieces of `s` between the occurrences of `sep`, from position `i` on:
/// what `str::split` with a character yields.
pub open spec fn split_from(s: Seq<char>, i: int, sep: char) -> Seq<Seq<char>>
    decreases s.len() - i,
    via split_from_decreases
{
    let e = next_pos(s, i, sep);
    if i < 0 || i > s.len() {
        seq![]
    } else if e >= s.len() {
        seq![s.subrange(i, s.len() as int)]
    } else {
        seq![s.subrange(i, e)] + split_from(s, e + 1, sep)
    }
}

#[via_fn]
proof fn split_from_decreases(s: Seq<char>, i: int, sep: char) {
    if 0 <= i <= s.len() {
        lemma_next_pos(s, i, sep);
    }
}

/// The pieces of `s` between the occurrences of `sep`.
pub open spec fn split_on(s: Seq<char>, sep: char) -> Seq<Seq<char>> {
    split_from(s, 0, sep)
}

/// Splits `text` at each `sep`, as `str::split` does with a character.
pub fn split_char(text: &str, sep: char) -> (r: Vec<String>)
    ensures
        views(r@) == split_on(text@, sep),
{
    let s = crate::text::chars_of(text);
    let n = s.len();
    let mut out: Vec<String> = Vec::new();
    let mut i: usize = 0;
    loop
        invariant
            s@ == text@,
            n == s@.len(),
            i <= n,
            views(out@) + split_from(s@, i as int, sep) == split_on(s@, sep),
        decreases n - i,
    {
        let e = find_from(&s, i, sep);
        proof {
            lemma_next_pos(s@, i as int, sep);
        }
        let piece = substring(text, i, e);
        let ghost before = views(out@);
        out.push(piece);
        assert(views(out@) =~= before.push(piece@));
        if e == n {
            assert(views(out@) =~= before + split_from(s@, i as int, sep));
            return out;
        }
        assert(views(out@) + split_from(s@, e + 1, sep) =~= before + split_from(s@, i as int, sep));
        i = e + 1;
    }
}

/// The end of the run of non-white characters of `s` that starts at `i`,
/// looking no further than `hi`.
pub open spec fn word_end(s: Seq<char>, i: int, hi: int) -> int
    decreases hi - i,
{
    if i >= hi || is_ws(s[i]) {
        i
    } else {
        word_end(s, i + 1, hi)
    }
}

proof fn lemma_word_end(s: Seq<char>, i: int, hi: int)
    requires
        i <= hi,
    ensures
        i <= word_end(s, i, hi) <= hi,
    decreases hi - i,
{
    if i < hi && !is_ws(s[i]) {
        lemma_word_end(s, i + 1, hi);
    }
}

/// The white-space separated words of `s` between `lo` and `hi`: what
/// `str::split_whitespace` yields on that part.
pub open spec fn words_in(s: Seq<char>, lo: int, hi: int) -> Seq<Seq<char>>
    decreases hi - lo,
    via words_in_decreases
{
    if lo >= hi {
        seq![]
    } else if is_ws(s[lo]) {
        words_in(s, lo + 1, hi)
    } else {
        seq![s.subrange(lo, word_end(s, lo, hi))] + words_in(s, word_end(s, lo, hi), hi)
    }
}

#[via_fn]
proof fn words_in_decreases(s: Seq<char>, lo: int, hi: int) {
    if lo < hi && !is_ws(s[lo]) {
        lemma_word_end(s, lo + 1, hi);
    }
}

/// Appends to `out` the words of `text` between `lo` and `hi`.
fn push_words(text: &str, s: &Vec<char>, lo: usize, hi: usize, out: &mut Vec<String>)
    requires
        s@ == text@,
        lo <= hi <= s@.len(),
    ensures
        views(final(out)@) == views(old(out)@) + words_in(s@, lo as int, hi as int),
{
    let mut j: usize = lo;
    while j < hi
        invariant
            s@ == text@,
            lo <= j <= hi <= s@.len(),
            views(out@) + words_in(s@, j as int, hi as int) == views(old(out)@) + words_in(
                s@,
                lo as int,
                hi as int,
            ),
        decreases hi - j,
    {
        if is_whitespace(s[j]) {
            j = j + 1;
        } else {
            let mut e: usize = j + 1;
            while e < hi && !is_whitespace(s[e])
                invariant
                    j < e <= hi <= s@.len(),
                    word_end(s@, j as int, hi as int) == word_end(s@, e as int, hi as int),
                decreases hi - e,
            {
                e = e + 1;
            }
            let ghost before = views(out@);
            out.push(substring(text, j, e));
            assert(views(out@) =~= before.push(s@.subrange(j as int, e as int)));
            assert(views(out@) + words_in(s@, e as int, hi as int) =~= before + words_in(
                s@,
                j as int,
                hi as int,
            ));
            j = e;
        }
    }
}

/// The items of a Tcl list in `s`, from position `i` on. Outside braces,
/// items are the white-space separated words; a `{` starts an item that runs
/// to the next `}`, braces left out. Where a `{` has no `}` after it, the
/// items end before it.
pub open spec fn items_from(s: Seq<char>, i: int) -> Seq<Seq<char>>
    decreases s.len() - i,
    via items_from_decreases
{
    if i < 0 || i >= s.len() {
        seq![]
    } else {
        let open = next_pos(s, i, '{');
        if open >= s.len() {
            words_in(s, i, s.len() as int)
        } else {
            let close = next_pos(s, open + 1, '}');
            if close >= s.len() {
                words_in(s, i, open)
            } else {
                words_in(s, i, open) + seq![s.subrange(open + 1, close)] + items_from(s, close + 1)
            }
        }
    }
}

#[via_fn]
proof fn items_from_decreases(s: Seq<char>, i: int) {
    if 0 <= i < s.len() {
        lemma_next_pos(s, i, '{');
        let open = next_pos(s, i, '{');
        if open < s.len() {
            lemma_next_pos(s, open + 1, '}');
        }
    }
}

/// The items of the Tcl list `s`.
pub open spec fn tcl_items(s: Seq<char>) -> Seq<Seq<char>> {
    items_from(s, 0)
}

/// Splits a Tcl list into its items: words, and `{...}` groups with the
/// braces taken off. An unterminated `{` ends the list; what came before it
/// is kept.
pub fn split_items(text: &str) -> (r: Vec<String>)
    ensures
        views(r@) == tcl_items(text@),
{
    let s = crate::text::chars_of(text);
    let n = s.len();
    let mut out: Vec<String> = Vec::new();
    let mut i: usize = 0;
    while i < n
        invariant
            s@ == text@,
            n == s@.len(),
            i <= n,
            views(out@) + items_from(s@, i as int) == tcl_items(s@),
        decreases n - i,
    {
        let ghost before = views(out@);
        let open = find_from(&s, i, '{');
        proof {
            lemma_next_pos(s@, i as int, '{');
        }
        if open == n {
            push_words(text, &s, i, n, &mut out);
            assert(views(out@) =~= before + items_from(s@, i as int));
            assert(views(out@) + items_from(s@, n as int) =~= views(out@));
            return out;
        }
        let close = find_from(&s, open + 1, '}');
        proof {
            lemma_next_pos(s@, open + 1, '}');
        }
        push_words(text, &s, i, open, &mut out);
        if close == n {
            assert(views(out@) =~= before + items_from(s@, i as int));
            assert(views(out@) + items_from(s@, n as int) =~= views(out@));
            return out;
        }
        let ghost mid = views(out@);
        out.push(substring(text, open + 1, close));
        assert(views(out@) =~= mid.push(s@.subrange(open + 1, close as int)));
        assert(views(out@) + items_from(s@, close + 1) =~= before + items_from(s@, i as int));
        i = close + 1;
    }
    assert(views(out@) + items_from(s@, i as int) =~= views(out@));
    out
}

} // verus!
