//! Helpers shared by the text-level passes: spans, word boundaries, segments.
use vstd::prelude::*;

use crate::diagnostic::{Diagnostic, DiagnosticView};
use crate::text::{
    byte_len, byte_offset, char_index_at, char_index_from, chars_of, is_numeric_char,
    lemma_byte_len_take_mono, numeric_char, str_byte_len, string_of, utf8_width, vec_slice,
};
use crate::tokenizer::{
    Token, TokenView, is_punctuation, is_punctuation_char, is_white_space, span_token, tokens_view,
    white_space,
};

verus! {

broadcast use vstd::string::group_string_axioms;

/// Diagnostics by content.
pub open spec fn diags_view(v: Seq<Diagnostic>) -> Seq<DiagnosticView> {
    v.map_values(|d: Diagnostic| d@)
}

/// Spans by value.
pub open spec fn spans_view(v: Seq<(usize, usize)>) -> Seq<(int, int)> {
    v.map_values(|p: (usize, usize)| (p.0 as int, p.1 as int))
}

/// Some diagnostic's span overlaps `span`.
pub open spec fn overlaps_span(diags: Seq<DiagnosticView>, span: (int, int)) -> bool {
    exists|i: int|
        0 <= i < diags.len() && (#[trigger] diags[i]).span.0 < span.1 && span.0 < diags[i].span.1
}

/// Whether a diagnostic already covers part of `span`.
pub fn overlaps_existing_span(diagnostics: &Vec<Diagnostic>, span: (usize, usize)) -> (r: bool)
    ensures
        r == overlaps_span(diags_view(diagnostics@), (span.0 as int, span.1 as int)),
{
    let mut i: usize = 0;
    while i < diagnostics.len()
        invariant
            i <= diagnostics.len(),
            forall|j: int|
                0 <= j < i ==> !((#[trigger] diags_view(diagnostics@)[j]).span.0 < span.1
                    && span.0 < diags_view(diagnostics@)[j].span.1),
        decreases diagnostics.len() - i,
    {
        let d = &diagnostics[i];
        assert(diags_view(diagnostics@)[i as int] == d@);
        if d.span.0 < span.1 && span.0 < d.span.1 {
            return true;
        }
        i = i + 1;
    }
    false
}

/// Whether `span` is in `spans`.
pub fn span_listed(spans: &Vec<(usize, usize)>, span: (usize, usize)) -> (r: bool)
    ensures
        r == spans_view(spans@).contains((span.0 as int, span.1 as int)),
{
    let mut i: usize = 0;
    while i < spans.len()
        invariant
            i <= spans.len(),
            forall|j: int| 0 <= j < i ==> (#[trigger] spans_view(spans@)[j]) != (span.0 as int, span.1 as int),
        decreases spans.len() - i,
    {
        assert(spans_view(spans@)[i as int] == (spans@[i as int].0 as int, spans@[i as int].1 as int));
        if spans[i].0 == span.0 && spans[i].1 == span.1 {
            return true;
        }
        i = i + 1;
    }
    false
}

/// A Devanagari char that is not punctuation.
pub open spec fn devanagari_letter(c: char) -> bool {
    0x900 <= (c as u32) <= 0x97F && !(c == '।' || c == ',' || c == '.' || c == '!' || c == '?' || c
        == ';' || c == ':' || c == '“' || c == '”' || c == '‘' || c == '’')
}

/// A non-empty word of Devanagari letters only.
pub open spec fn devanagari_word(s: Seq<char>) -> bool {
    s.len() > 0 && forall|i: int| 0 <= i < s.len() ==> #[trigger] devanagari_letter(s[i])
}

/// Whether `s` is a non-empty word of Devanagari letters.
pub fn is_devanagari_word(s: &str) -> (r: bool)
    ensures
        r == devanagari_word(s@),
{
    let v = chars_of(s);
    if v.len() == 0 {
        return false;
    }
    let mut i: usize = 0;
    while i < v.len()
        invariant
            v@ == s@,
            i <= v.len(),
            forall|j: int| 0 <= j < i ==> #[trigger] devanagari_letter(s@[j]),
        decreases v.len() - i,
    {
        let c = v[i];
        let u = c as u32;
        if !(0x900 <= u && u <= 0x97F && !(c == '।' || c == ',' || c == '.' || c == '!' || c == '?'
            || c == ';' || c == ':' || c == '“' || c == '”' || c == '‘' || c == '’')) {
            assert(!devanagari_letter(s@[i as int]));
            return false;
        }
        i = i + 1;
    }
    true
}

/// A non-empty segment of numeric chars.
pub open spec fn numeric_segment(s: Seq<char>) -> bool {
    s.len() > 0 && forall|i: int| 0 <= i < s.len() ==> #[trigger] numeric_char(s[i])
}

/// Whether `s` is a non-empty run of numeric chars.
pub fn is_numeric_segment(s: &str) -> (r: bool)
    ensures
        r == numeric_segment(s@),
{
    let v = chars_of(s);
    let mut i: usize = 0;
    while i < v.len()
        invariant
            v@ == s@,
            i <= v.len(),
            forall|j: int| 0 <= j < i ==> #[trigger] numeric_char(s@[j]),
        decreases v.len() - i,
    {
        if !is_numeric_char(v[i]) {
            return false;
        }
        i = i + 1;
    }
    v.len() > 0
}

/// A char that may stand next to a whole word.
pub open spec fn boundary_char(c: char) -> bool {
    is_white_space(c) || c == '.' || c == ',' || c == '!' || c == '?' || c == ';' || c == ':' || c
        == '-' || c == '(' || c == ')' || c == '[' || c == ']' || c == '{' || c == '}' || c == '"'
        || c == '\'' || c == '/' || c == '।' || c == '…'
}

/// Whether `c` may stand next to a whole word.
pub fn is_boundary_char(c: char) -> (r: bool)
    ensures
        r == boundary_char(c),
{
    white_space(c) || c == '.' || c == ',' || c == '!' || c == '?' || c == ';' || c == ':' || c
        == '-' || c == '(' || c == ')' || c == '[' || c == ']' || c == '{' || c == '}' || c == '"'
        || c == '\'' || c == '/' || c == '।' || c == '…'
}

/// The bytes `[start, end)` of `s` form a whole word: the char before and the
/// char after, where there are any, are boundary chars.
pub open spec fn word_boundary(s: Seq<char>, start: int, end: int) -> bool {
    let i = char_index_at(s, start);
    let j = char_index_at(s, end);
    &&& (start == 0 || i == 0 || boundary_char(s[i - 1]))
    &&& (end >= byte_len(s) || j >= s.len() || boundary_char(s[j]))
}

/// Whether the bytes `[start, end)` of `text` form a whole word.
pub fn is_word_boundary(text: &str, start: usize, end: usize) -> (r: bool)
    ensures
        r == word_boundary(text@, start as int, end as int),
{
    let v = chars_of(text);
    let total = str_byte_len(text);
    let i = char_index_of(text, &v, start);
    let j = char_index_of(text, &v, end);
    let prev_ok = start == 0 || i == 0 || is_boundary_char(v[i - 1]);
    let next_ok = end >= total || j >= v.len() || is_boundary_char(v[j]);
    prev_ok && next_ok
}

/// The index of the char of `text` that starts at byte offset `b`.
pub fn char_index_of(text: &str, v: &Vec<char>, b: usize) -> (r: usize)
    requires
        v@ == text@,
    ensures
        r as int == char_index_at(text@, b as int),
        r <= v.len(),
{
    let total = str_byte_len(text);
    let mut i: usize = 0;
    let mut pos: usize = 0;
    assert(text@.take(0) =~= Seq::<char>::empty());
    while i < v.len() && pos < b
        invariant
            v@ == text@,
            i <= v.len(),
            total == byte_len(text@),
            pos == byte_len(text@.take(i as int)),
            char_index_at(text@, b as int) == char_index_from(text@, b as int, i as int),
        decreases v.len() - i,
    {
        proof {
            lemma_byte_len_take_mono(text@, i + 1, text@.len() as int);
            assert(text@.take(i + 1).drop_last() =~= text@.take(i as int));
            assert(text@.take(text@.len() as int) =~= text@);
        }
        pos = pos + utf8_width(v[i]);
        i = i + 1;
    }
    i
}


// ----- white-space segments -----

/// The maximal runs of non-white-space chars of `s`, as `[start, end)` char
/// ranges, in order.
pub open spec fn ws_runs(s: Seq<char>) -> Seq<(int, int)>
    decreases s.len(),
{
    if s.len() == 0 {
        seq![]
    } else if is_white_space(s.last()) {
        ws_runs(s.drop_last())
    } else {
        let w = ws_runs(s.drop_last());
        if w.len() > 0 && w.last().1 == s.len() - 1 {
            w.update(w.len() - 1, (w.last().0, s.len() as int))
        } else {
            w.push((s.len() - 1, s.len() as int))
        }
    }
}

/// The start of chars `[a, b)` of `s` once leading punctuation is dropped.
pub open spec fn trim_front(s: Seq<char>, a: int, b: int) -> int
    decreases b - a,
{
    if a < b && is_punctuation_char(s[a]) {
        trim_front(s, a + 1, b)
    } else {
        a
    }
}

/// The end of chars `[a, b)` of `s` once trailing punctuation is dropped.
pub open spec fn trim_back(s: Seq<char>, a: int, b: int) -> int
    decreases b - a,
{
    if a < b && is_punctuation_char(s[b - 1]) {
        trim_back(s, a, b - 1)
    } else {
        b
    }
}

/// The segments of the runs `runs` of `s`: each run with the punctuation at
/// either end trimmed, where anything is left.
pub open spec fn trimmed_segments(s: Seq<char>, runs: Seq<(int, int)>) -> Seq<TokenView>
    decreases runs.len(),
{
    if runs.len() == 0 {
        seq![]
    } else {
        let rest = trimmed_segments(s, runs.drop_last());
        let r = runs.last();
        let a = trim_front(s, r.0, r.1);
        let b = trim_back(s, a, r.1);
        if a < b {
            rest.push(span_token(s, (a, b)))
        } else {
            rest
        }
    }
}

/// The segments of `s`: its runs between white space, with the punctuation at
/// either end of each run trimmed, and with byte offsets.
pub open spec fn segments_of(s: Seq<char>) -> Seq<TokenView> {
    trimmed_segments(s, ws_runs(s))
}

proof fn lemma_ws_runs_bounds(s: Seq<char>)
    ensures
        forall|k: int| 0 <= k < ws_runs(s).len() ==> 0 <= (#[trigger] ws_runs(s)[k]).0 < ws_runs(s)[k].1 <= s.len(),
    decreases s.len(),
{
    if s.len() > 0 {
        let w = ws_runs(s.drop_last());
        lemma_ws_runs_bounds(s.drop_last());
        if !is_white_space(s.last()) {
            let n = ws_runs(s);
            assert forall|k: int| 0 <= k < n.len() implies 0 <= (#[trigger] n[k]).0 < n[k].1 <= s.len() by {
                if k < w.len() && !(w.len() > 0 && w.last().1 == s.len() - 1 && k == w.len() - 1) {
                    assert(n[k] == w[k]);
                }
            }
        }
    }
}

proof fn lemma_trim_bounds(s: Seq<char>, a: int, b: int)
    requires
        a <= b,
    ensures
        a <= trim_front(s, a, b) <= b,
        a <= trim_back(s, a, b) <= b,
    decreases b - a,
{
    if a < b {
        lemma_trim_bounds(s, a + 1, b);
        lemma_trim_bounds(s, a, b - 1);
    }
}

/// The segment for chars `[a, b)` of `text`, once trimmed, if anything is left.
fn push_segment(segs: &mut Vec<Token>, text: &str, chars: &Vec<char>, a: usize, b: usize)
    requires
        chars@ == text@,
        a <= b <= chars.len(),
    ensures
        ({
            let x = trim_front(text@, a as int, b as int);
            let y = trim_back(text@, x, b as int);
            tokens_view(final(segs)@) == if x < y {
                tokens_view(old(segs)@).push(span_token(text@, (x, y)))
            } else {
                tokens_view(old(segs)@)
            }
        }),
{
    let mut x = a;
    while x < b && is_punctuation(chars[x])
        invariant
            chars@ == text@,
            a <= x <= b <= chars.len(),
            trim_front(text@, a as int, b as int) == trim_front(text@, x as int, b as int),
        decreases b - x,
    {
        x = x + 1;
    }
    let mut y = b;
    while y > x && is_punctuation(chars[y - 1])
        invariant
            chars@ == text@,
            x <= y <= b <= chars.len(),
            trim_back(text@, x as int, b as int) == trim_back(text@, x as int, y as int),
        decreases y - x,
    {
        y = y - 1;
    }
    if x < y {
        let w = vec_slice(chars, x, y);
        let start = byte_offset(text, chars, x);
        let end = byte_offset(text, chars, y);
        let ghost before = segs@;
        segs.push(Token { text: string_of(&w), start, end });
        assert(tokens_view(segs@) =~= tokens_view(before).push(span_token(text@, (x as int, y as int))));
    }
}

/// Split `text` at white space, trimming the punctuation at either end of
/// each piece: the segments that the phrase passes work on, with their byte
/// offsets.
pub fn whitespace_segments(text: &str) -> (r: Vec<Token>)
    ensures
        tokens_view(r@) == segments_of(text@),
{
    let chars = chars_of(text);
    let mut segs: Vec<Token> = Vec::new();
    let mut open: Option<usize> = None;
    let mut i: usize = 0;
    assert(tokens_view(segs@) =~= Seq::<TokenView>::empty());
    while i < chars.len()
        invariant
            chars@ == text@,
            i <= chars.len(),
            match open {
                None => {
                    &&& tokens_view(segs@) == trimmed_segments(text@, ws_runs(text@.take(i as int)))
                    &&& (ws_runs(text@.take(i as int)).len() == 0 || ws_runs(text@.take(i as int)).last().1 < i)
                },
                Some(a) => {
                    &&& ws_runs(text@.take(i as int)).len() > 0
                    &&& ws_runs(text@.take(i as int)).last() == (a as int, i as int)
                    &&& tokens_view(segs@) == trimmed_segments(text@, ws_runs(text@.take(i as int)).drop_last())
                },
            },
        decreases chars.len() - i,
    {
        let c = chars[i];
        let ghost pre = text@.take(i as int);
        let ghost post = text@.take(i + 1);
        proof {
            assert(post.drop_last() =~= pre);
            assert(post.last() == c);
            lemma_ws_runs_bounds(pre);
        }
        if white_space(c) {
            assert(ws_runs(post) == ws_runs(pre));
            if let Some(a) = open {
                let ghost sp = ws_runs(pre);
                push_segment(&mut segs, text, &chars, a, i);
                proof {
                    assert(sp.len() > 0);
                    assert(sp.last() == (a as int, i as int));
                }
                open = None;
            }
        } else {
            let ghost w = ws_runs(pre);
            if open.is_none() {
                assert(ws_runs(post) == w.push((i as int, i + 1)));
                assert(w.push((i as int, i + 1)).drop_last() =~= w);
                open = Some(i);
            } else {
                assert(ws_runs(post) == w.update(w.len() - 1, (w.last().0, i + 1)));
                assert(ws_runs(post).drop_last() =~= w.drop_last());
            }
        }
        i = i + 1;
    }
    assert(text@.take(i as int) =~= text@);
    proof {
        lemma_ws_runs_bounds(text@);
    }
    if let Some(a) = open {
        push_segment(&mut segs, text, &chars, a, chars.len());
        proof {
            let sp = ws_runs(text@);
            assert(sp.drop_last().push(sp.last()) =~= sp);
        }
    }
    segs
}


proof fn lemma_ws_runs_sorted(s: Seq<char>)
    ensures
        forall|k: int| 0 <= k < ws_runs(s).len() ==> 0 <= (#[trigger] ws_runs(s)[k]).0 < ws_runs(s)[k].1 <= s.len(),
        forall|k: int| 0 <= k < ws_runs(s).len() - 1 ==> (#[trigger] ws_runs(s)[k]).1 < ws_runs(s)[k + 1].0,
    decreases s.len(),
{
    lemma_ws_runs_bounds(s);
    if s.len() > 0 {
        let w = ws_runs(s.drop_last());
        lemma_ws_runs_sorted(s.drop_last());
        if !is_white_space(s.last()) {
            let n = ws_runs(s);
            if w.len() > 0 && w.last().1 == s.len() - 1 {
                assert forall|k: int| 0 <= k < n.len() - 1 implies (#[trigger] n[k]).1 < n[k + 1].0 by {
                    assert(n[k] == w[k]);
                    if k + 1 < w.len() - 1 {
                        assert(n[k + 1] == w[k + 1]);
                    }
                }
            } else {
                assert forall|k: int| 0 <= k < n.len() - 1 implies (#[trigger] n[k]).1 < n[k + 1].0 by {
                    assert(n[k] == w[k]);
                    if k + 1 < w.len() {
                        assert(n[k + 1] == w[k + 1]);
                    }
                }
            }
        }
    }
}

proof fn lemma_trimmed_segments_sorted(s: Seq<char>, runs: Seq<(int, int)>)
    requires
        forall|k: int| 0 <= k < runs.len() ==> 0 <= (#[trigger] runs[k]).0 < runs[k].1 <= s.len(),
        forall|k: int| 0 <= k < runs.len() - 1 ==> (#[trigger] runs[k]).1 < runs[k + 1].0,
    ensures
        forall|k: int|
            0 <= k < trimmed_segments(s, runs).len() ==> (#[trigger] trimmed_segments(s, runs)[k]).start
                <= trimmed_segments(s, runs)[k].end,
        forall|i: int, j: int|
            0 <= i < j < trimmed_segments(s, runs).len() ==> (#[trigger] trimmed_segments(s, runs)[i]).end
                <= (#[trigger] trimmed_segments(s, runs)[j]).start,
        runs.len() > 0 ==> forall|k: int|
            0 <= k < trimmed_segments(s, runs).len() ==> (#[trigger] trimmed_segments(s, runs)[k]).end
                <= byte_len(s.take(runs.last().1)),
    decreases runs.len(),
{
    if runs.len() > 0 {
        let rs = runs.drop_last();
        lemma_trimmed_segments_sorted(s, rs);
        let prev = trimmed_segments(s, rs);
        let segs = trimmed_segments(s, runs);
        let r = runs.last();
        let x = trim_front(s, r.0, r.1);
        let y = trim_back(s, x, r.1);
        lemma_trim_bounds(s, r.0, r.1);
        lemma_trim_bounds(s, x, r.1);
        if rs.len() > 0 {
            assert(rs.last() == runs[runs.len() - 2]);
            lemma_byte_len_take_mono(s, rs.last().1, r.1);
        }
        if x < y {
            lemma_byte_len_take_mono(s, x, y);
            lemma_byte_len_take_mono(s, y, r.1);
            if rs.len() > 0 {
                lemma_byte_len_take_mono(s, rs.last().1, x);
            }
            assert(segs == prev.push(span_token(s, (x, y))));
            assert forall|i: int, j: int| 0 <= i < j < segs.len() implies (#[trigger] segs[i]).end <= (#[trigger] segs[j]).start by {
                if j < prev.len() {
                    assert(segs[i] == prev[i]);
                    assert(segs[j] == prev[j]);
                } else {
                    assert(segs[i] == prev[i]);
                }
            }
            assert forall|k: int| 0 <= k < segs.len() implies (#[trigger] segs[k]).end <= byte_len(s.take(runs.last().1)) by {
                if k < prev.len() {
                    assert(segs[k] == prev[k]);
                }
            }
        }
    }
}

/// The segments of a text lie inside it in order: each starts no later than
/// it ends, and each ends no later than the next one starts.
pub proof fn lemma_segments_sorted(s: Seq<char>)
    ensures
        forall|k: int| 0 <= k < segments_of(s).len() ==> (#[trigger] segments_of(s)[k]).start <= segments_of(s)[k].end,
        forall|i: int, j: int|
            0 <= i < j < segments_of(s).len() ==> (#[trigger] segments_of(s)[i]).end <= (#[trigger] segments_of(s)[j]).start,
{
    lemma_ws_runs_sorted(s);
    lemma_trimmed_segments_sorted(s, ws_runs(s));
}

} // verus!
