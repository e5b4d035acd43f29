//! Character-level text operations with their mathematical meaning.
//!
//! Every string is viewed as the sequence of its Unicode scalar values
//! (`Seq<char>`); byte offsets are derived from the UTF-8 width of each char.
use vstd::prelude::*;

verus! {

broadcast use vstd::string::group_string_axioms;

// ---------------------------------------------------------------------------
// Specifications
// ---------------------------------------------------------------------------

/// `pre` is a prefix of `s`.
pub open spec fn is_prefix(pre: Seq<char>, s: Seq<char>) -> bool {
    pre.len() <= s.len() && s.subrange(0, pre.len() as int) == pre
}

/// `suf` is a suffix of `s`.
pub open spec fn is_suffix(suf: Seq<char>, s: Seq<char>) -> bool {
    suf.len() <= s.len() && s.subrange(s.len() - suf.len(), s.len() as int) == suf
}

/// `pat` occurs in `s` starting at index `i`.
pub open spec fn matches_at(s: Seq<char>, pat: Seq<char>, i: int) -> bool {
    0 <= i && i + pat.len() <= s.len() && s.subrange(i, i + pat.len()) == pat
}

/// `pat` occurs somewhere in `s`.
pub open spec fn has_sub(s: Seq<char>, pat: Seq<char>) -> bool {
    exists|i: int| #[trigger] matches_at(s, pat, i)
}

/// The first index `>= i` where `pat` occurs in `s`, or `-1`.
pub open spec fn find_from(s: Seq<char>, pat: Seq<char>, i: int) -> int
    decreases s.len() + 1 - i,
{
    if i < 0 || i + pat.len() > s.len() {
        -1
    } else if matches_at(s, pat, i) {
        i
    } else {
        find_from(s, pat, i + 1)
    }
}

/// The last index `< i` (counting down) where `pat` occurs in `s`, or `-1`:
/// `last_before(s, pat, s.len() + 1)` is the last occurrence overall.
pub open spec fn last_before(s: Seq<char>, pat: Seq<char>, i: int) -> int
    decreases i,
{
    if i <= 0 {
        -1
    } else if matches_at(s, pat, i - 1) {
        i - 1
    } else {
        last_before(s, pat, i - 1)
    }
}

/// Index of the last occurrence of `pat` in `s`, or `-1`.
pub open spec fn rfind(s: Seq<char>, pat: Seq<char>) -> int {
    last_before(s, pat, s.len() + 1int)
}

/// Left-to-right replacement of every non-overlapping occurrence of `from`
/// by `to` (the meaning of `str::replace` for a non-empty pattern).
pub open spec fn replace_all(s: Seq<char>, from: Seq<char>, to: Seq<char>) -> Seq<char>
    decreases s.len(),
{
    if s.len() == 0 || from.len() == 0 {
        s
    } else if is_prefix(from, s) {
        to + replace_all(s.skip(from.len() as int), from, to)
    } else {
        seq![s[0]] + replace_all(s.skip(1), from, to)
    }
}

/// Replacement of the first occurrence of `from` by `to` (`replacen(.., 1)`).
pub open spec fn replace_first(s: Seq<char>, from: Seq<char>, to: Seq<char>) -> Seq<char> {
    let i = find_from(s, from, 0);
    if i < 0 {
        s
    } else {
        s.take(i) + to + s.skip(i + from.len())
    }
}

/// `s` with the suffix `suf` removed, when `suf` is a suffix of `s`.
pub open spec fn strip_suffix(s: Seq<char>, suf: Seq<char>) -> Seq<char> {
    s.take(s.len() - suf.len())
}

/// `s` with the prefix `pre` removed.
pub open spec fn strip_prefix(s: Seq<char>, pre: Seq<char>) -> Seq<char> {
    s.skip(pre.len() as int)
}

/// Number of bytes that the UTF-8 encoding of `c` takes.
pub open spec fn char_width(c: char) -> nat {
    let u = c as u32;
    if u <= 0x7F {
        1
    } else if u <= 0x7FF {
        2
    } else if u <= 0xFFFF {
        3
    } else {
        4
    }
}

/// Number of bytes that the UTF-8 encoding of `s` takes.
pub open spec fn byte_len(s: Seq<char>) -> nat
    decreases s.len(),
{
    if s.len() == 0 {
        0
    } else {
        byte_len(s.drop_last()) + char_width(s.last())
    }
}

// ---------------------------------------------------------------------------
// Lemmas
// ---------------------------------------------------------------------------

/// Searching from `i` finds an occurrence at or after `i`, and none before it.
pub proof fn lemma_find_from(s: Seq<char>, pat: Seq<char>, i: int)
    requires
        0 <= i,
    ensures
        find_from(s, pat, i) == -1 || (i <= find_from(s, pat, i) && matches_at(
            s,
            pat,
            find_from(s, pat, i),
        )),
        forall|j: int| i <= j < (if find_from(s, pat, i) == -1 { s.len() + 1int } else { find_from(s, pat, i) })
            ==> !#[trigger] matches_at(s, pat, j),
    decreases s.len() + 1 - i,
{
    if i + pat.len() > s.len() {
    } else if matches_at(s, pat, i) {
    } else {
        lemma_find_from(s, pat, i + 1);
    }
}

/// `has_sub` is decided by a search from the start.
pub proof fn lemma_has_sub_find(s: Seq<char>, pat: Seq<char>)
    ensures
        has_sub(s, pat) <==> find_from(s, pat, 0) >= 0,
{
    lemma_find_from(s, pat, 0);
    if find_from(s, pat, 0) >= 0 {
        assert(matches_at(s, pat, find_from(s, pat, 0)));
    }
}

/// The last occurrence found below `i` is an occurrence, and nothing lies between it and `i`.
pub proof fn lemma_last_before(s: Seq<char>, pat: Seq<char>, i: int)
    ensures
        last_before(s, pat, i) == -1 || (last_before(s, pat, i) < i && matches_at(
            s,
            pat,
            last_before(s, pat, i),
        )),
        forall|j: int| last_before(s, pat, i) < j < i ==> !#[trigger] matches_at(s, pat, j),
    decreases i,
{
    if i <= 0 {
    } else if matches_at(s, pat, i - 1) {
    } else {
        lemma_last_before(s, pat, i - 1);
    }
}

/// The last occurrence is an occurrence, and none lies after it.
pub proof fn lemma_rfind(s: Seq<char>, pat: Seq<char>)
    ensures
        rfind(s, pat) == -1 || (0 <= rfind(s, pat) <= s.len() && matches_at(s, pat, rfind(s, pat))),
        forall|j: int| rfind(s, pat) < j <= s.len() ==> !#[trigger] matches_at(s, pat, j),
{
    lemma_last_before(s, pat, s.len() + 1int);
}

/// Replacing one char by another, everywhere, keeps the length and changes
/// exactly the places that held it.
pub proof fn lemma_replace_one_char(s: Seq<char>, a: char, b: char)
    ensures
        replace_all(s, seq![a], seq![b]).len() == s.len(),
        forall|i: int|
            0 <= i < s.len() ==> #[trigger] replace_all(s, seq![a], seq![b])[i] == if s[i] == a {
                b
            } else {
                s[i]
            },
    decreases s.len(),
{
    if s.len() > 0 {
        let t = s.skip(1);
        lemma_replace_one_char(t, a, b);
        let r = replace_all(s, seq![a], seq![b]);
        let rt = replace_all(t, seq![a], seq![b]);
        if is_prefix(seq![a], s) {
            assert(s[0] == a) by {
                assert(s.subrange(0, 1)[0] == s[0]);
            }
            assert(r == seq![b] + rt);
        } else {
            assert(s[0] != a) by {
                if s[0] == a {
                    assert(s.subrange(0, 1) =~= seq![a]);
                }
            }
            assert(r == seq![s[0]] + rt);
        }
        assert forall|i: int| 0 <= i < s.len() implies #[trigger] r[i] == if s[i] == a {
            b
        } else {
            s[i]
        } by {
            if i > 0 {
                assert(r[i] == rt[i - 1]);
                assert(t[i - 1] == s[i]);
            }
        }
    }
}

/// The byte length splits over concatenation.
pub proof fn lemma_byte_len_concat(a: Seq<char>, b: Seq<char>)
    ensures
        byte_len(a + b) == byte_len(a) + byte_len(b),
    decreases b.len(),
{
    if b.len() == 0 {
        assert(a + b =~= a);
    } else {
        lemma_byte_len_concat(a, b.drop_last());
        assert((a + b).drop_last() =~= a + b.drop_last());
    }
}

/// The byte length counted from the front.
pub proof fn lemma_byte_len_first(s: Seq<char>)
    requires
        s.len() > 0,
    ensures
        byte_len(s) == char_width(s[0]) + byte_len(s.drop_first()),
{
    let one = seq![s[0]];
    lemma_byte_len_concat(one, s.drop_first());
    assert(one + s.drop_first() =~= s);
    assert(one.drop_last() =~= Seq::<char>::empty());
    assert(byte_len(one.drop_last()) == 0);
    assert(byte_len(one) == char_width(s[0]));
}

/// `byte_len` is the length of the UTF-8 encoding.
pub proof fn lemma_byte_len_encoding(s: Seq<char>)
    ensures
        byte_len(s) == vstd::utf8::encode_utf8(s).len(),
    decreases s.len(),
{
    if s.len() > 0 {
        lemma_byte_len_first(s);
        lemma_byte_len_encoding(s.drop_first());
        let c = s[0];
        assert(vstd::utf8::is_scalar(c as u32)) by {
            vstd::utf8::char_is_scalar(c);
        }
    }
}

/// The first char index `>= i` of `s` at which at least `b` bytes precede, or `s.len()`.
pub open spec fn char_index_from(s: Seq<char>, b: int, i: int) -> int
    decreases s.len() - i,
{
    if i >= s.len() || byte_len(s.take(i)) >= b {
        i
    } else {
        char_index_from(s, b, i + 1)
    }
}

/// The index of the char that starts at byte offset `b` of `s` (`s.len()` past the end).
pub open spec fn char_index_at(s: Seq<char>, b: int) -> int {
    char_index_from(s, b, 0)
}

/// The chars of `s` between the byte offsets `start` and `end` (`&s[start..end]`).
pub open spec fn byte_slice(s: Seq<char>, start: int, end: int) -> Seq<char> {
    s.subrange(char_index_at(s, start), char_index_at(s, end))
}

/// Byte lengths of prefixes grow with the prefix.
pub proof fn lemma_byte_len_take_mono(s: Seq<char>, i: int, j: int)
    requires
        0 <= i <= j <= s.len(),
    ensures
        byte_len(s.take(i)) <= byte_len(s.take(j)),
{
    lemma_byte_len_concat(s.take(i), s.subrange(i, j));
    assert(s.take(i) + s.subrange(i, j) =~= s.take(j));
}

/// The char index found from `i` lies in `[i, s.len()]`, and it is monotone in the byte offset.
pub proof fn lemma_char_index_from(s: Seq<char>, b: int, c: int, i: int)
    requires
        0 <= i <= s.len(),
        b <= c,
    ensures
        i <= char_index_from(s, b, i) <= s.len(),
        char_index_from(s, b, i) <= char_index_from(s, c, i),
    decreases s.len() - i,
{
    if i < s.len() && byte_len(s.take(i)) < b {
        lemma_char_index_from(s, b, c, i + 1);
    } else if i < s.len() && byte_len(s.take(i)) < c {
        lemma_char_index_from(s, c, c, i + 1);
    }
}

// ---------------------------------------------------------------------------
// Executable operations
// ---------------------------------------------------------------------------

/// The chars of `s` between the byte offsets `start <= end`.
pub fn slice_bytes(s: &str, start: usize, end: usize) -> (r: String)
    requires
        start <= end,
    ensures
        r@ == byte_slice(s@, start as int, end as int),
{
    let v = chars_of(s);
    let total = str_byte_len(s);
    proof {
        lemma_char_index_from(s@, start as int, end as int, 0);
    }
    let mut i: usize = 0;
    let mut pos: usize = 0;
    let mut lo: usize = 0;
    let mut found_lo = false;
    assert(s@.take(0) =~= Seq::<char>::empty());
    while i < v.len() && pos < end
        invariant
            v@ == s@,
            i <= v.len(),
            total == byte_len(s@),
            pos == byte_len(s@.take(i as int)),
            char_index_at(s@, end as int) == char_index_from(s@, end as int, i as int),
            found_lo ==> lo == char_index_at(s@, start as int),
            !found_lo ==> char_index_at(s@, start as int) == char_index_from(s@, start as int, i as int),
        decreases v.len() - i,
    {
        if !found_lo && pos >= start {
            lo = i;
            found_lo = true;
        }
        proof {
            lemma_byte_len_take_mono(s@, i + 1, s@.len() as int);
            assert(s@.take(i + 1).drop_last() =~= s@.take(i as int));
            assert(s@.take(s@.len() as int) =~= s@);
        }
        pos = pos + utf8_width(v[i]);
        i = i + 1;
    }
    if !found_lo {
        lo = i;
        proof {
            lemma_char_index_from(s@, start as int, end as int, i as int);
        }
    }
    proof {
        lemma_char_index_from(s@, start as int, end as int, 0);
    }
    let t = vec_slice(&v, lo, i);
    string_of(&t)
}

/// `c` has one of Unicode's general categories for numbers (what
/// `char::is_numeric` decides from the Unicode tables).
pub uninterp spec fn numeric_char(c: char) -> bool;

/// `char::is_numeric`. Its contract names the result as the property
/// [`numeric_char`] of `c`, and states that the ASCII digits and the
/// Devanagari digits (U+0966–U+096F, decimal digits, category Nd) have it;
/// which other chars have it is left to the Unicode tables that std consults.
#[verifier::external_body]
pub(crate) fn is_numeric_char(c: char) -> (r: bool)
    ensures
        r == numeric_char(c),
        (0x30 <= (c as u32) <= 0x39 || 0x966 <= (c as u32) <= 0x96F) ==> r,
{
    c.is_numeric()
}

/// Number of bytes in the UTF-8 encoding of `s` (`str::len`).
pub fn str_byte_len(s: &str) -> (n: usize)
    ensures
        n == byte_len(s@),
{
    proof {
        lemma_byte_len_encoding(s@);
    }
    s.as_bytes().len()
}

/// Appends `c` to `s` (`String::push`).
#[verifier::external_body]
pub(crate) fn push_char(s: &mut String, c: char)
    ensures
        final(s)@ == old(s)@.push(c),
{
    s.push(c);
}

/// The characters of `s`, in order.
pub fn chars_of(s: &str) -> (v: Vec<char>)
    ensures
        v@ == s@,
{
    let mut v: Vec<char> = Vec::new();
    for c in it: s.chars()
        invariant
            v@ == it.seq().take(it.index() as int),
    {
        v.push(c);
    }
    v
}

/// The string made of the characters of `v`.
pub fn string_of(v: &Vec<char>) -> (s: String)
    ensures
        s@ == v@,
{
    let mut s = String::new();
    let mut i: usize = 0;
    while i < v.len()
        invariant
            i <= v.len(),
            s@ == v@.take(i as int),
        decreases v.len() - i,
    {
        push_char(&mut s, v[i]);
        i = i + 1;
        assert(s@ =~= v@.take(i as int));
    }
    assert(v@.take(v.len() as int) =~= v@);
    s
}

/// The owned copy of `s`.
pub fn owned(s: &str) -> (r: String)
    ensures
        r@ == s@,
{
    let v = chars_of(s);
    string_of(&v)
}

/// UTF-8 width of one char (`char::len_utf8`).
pub fn utf8_width(c: char) -> (n: usize)
    ensures
        n == char_width(c),
{
    let u = c as u32;
    if u <= 0x7F {
        1
    } else if u <= 0x7FF {
        2
    } else if u <= 0xFFFF {
        3
    } else {
        4
    }
}

/// Whether `pat` occurs in `s` at index `i`.
pub fn vec_matches_at(s: &Vec<char>, pat: &Vec<char>, i: usize) -> (r: bool)
    ensures
        r == matches_at(s@, pat@, i as int),
{
    if i > s.len() || pat.len() > s.len() - i {
        return false;
    }
    let mut k: usize = 0;
    while k < pat.len()
        invariant
            i + pat.len() <= s.len(),
            k <= pat.len(),
            forall|j: int| 0 <= j < k ==> s@[i + j] == pat@[j],
        decreases pat.len() - k,
    {
        if s[i + k] != pat[k] {
            assert(s@.subrange(i as int, i + pat.len())[k as int] != pat@[k as int]);
            return false;
        }
        k = k + 1;
    }
    assert(s@.subrange(i as int, i + pat.len()) =~= pat@);
    true
}

/// Whether `pre` is a prefix of `s`.
pub fn vec_starts_with(s: &Vec<char>, pre: &Vec<char>) -> (r: bool)
    ensures
        r == is_prefix(pre@, s@),
{
    vec_matches_at(s, pre, 0)
}

/// Whether `suf` is a suffix of `s`.
pub fn vec_ends_with(s: &Vec<char>, suf: &Vec<char>) -> (r: bool)
    ensures
        r == is_suffix(suf@, s@),
{
    if suf.len() > s.len() {
        return false;
    }
    vec_matches_at(s, suf, s.len() - suf.len())
}

/// The first occurrence of `pat` at or after `start`.
pub fn vec_find_from(s: &Vec<char>, pat: &Vec<char>, start: usize) -> (r: Option<usize>)
    ensures
        match r {
            Some(i) => i as int == find_from(s@, pat@, start as int),
            None => find_from(s@, pat@, start as int) == -1,
        },
{
    if start > s.len() || pat.len() > s.len() - start {
        return None;
    }
    let mut i = start;
    while i < s.len() && pat.len() <= s.len() - i
        invariant
            start <= i <= s.len(),
            find_from(s@, pat@, start as int) == find_from(s@, pat@, i as int),
        decreases s.len() - i,
    {
        if vec_matches_at(s, pat, i) {
            return Some(i);
        }
        i = i + 1;
    }
    if pat.len() <= s.len() - i && vec_matches_at(s, pat, i) {
        return Some(i);
    }
    assert(find_from(s@, pat@, i as int + 1) == -1);
    None
}

/// Whether `pat` occurs in `s`.
pub fn vec_contains(s: &Vec<char>, pat: &Vec<char>) -> (r: bool)
    ensures
        r == has_sub(s@, pat@),
{
    proof {
        lemma_has_sub_find(s@, pat@);
    }
    vec_find_from(s, pat, 0).is_some()
}

/// The last occurrence of `pat` in `s`.
pub fn vec_rfind(s: &Vec<char>, pat: &Vec<char>) -> (r: Option<usize>)
    ensures
        match r {
            Some(i) => i as int == rfind(s@, pat@),
            None => rfind(s@, pat@) == -1,
        },
{
    if vec_matches_at(s, pat, s.len()) {
        return Some(s.len());
    }
    let mut i: usize = s.len();
    while i > 0
        invariant
            i <= s.len(),
            rfind(s@, pat@) == last_before(s@, pat@, i as int),
        decreases i,
    {
        if vec_matches_at(s, pat, i - 1) {
            return Some(i - 1);
        }
        i = i - 1;
    }
    None
}

/// `a` followed by `b`.
pub fn vec_concat(a: &Vec<char>, b: &Vec<char>) -> (r: Vec<char>)
    ensures
        r@ == a@ + b@,
{
    let mut r = a.clone();
    let mut i: usize = 0;
    while i < b.len()
        invariant
            i <= b.len(),
            r@ == a@ + b@.take(i as int),
        decreases b.len() - i,
    {
        r.push(b[i]);
        i = i + 1;
        assert(r@ =~= a@ + b@.take(i as int));
    }
    assert(b@.take(b.len() as int) =~= b@);
    r
}

/// The characters of `s` from `lo` up to `hi`.
pub fn vec_slice(s: &Vec<char>, lo: usize, hi: usize) -> (r: Vec<char>)
    requires
        lo <= hi <= s.len(),
    ensures
        r@ == s@.subrange(lo as int, hi as int),
{
    let mut r: Vec<char> = Vec::new();
    let mut i = lo;
    while i < hi
        invariant
            lo <= i <= hi <= s.len(),
            r@ == s@.subrange(lo as int, i as int),
        decreases hi - i,
    {
        r.push(s[i]);
        i = i + 1;
        assert(r@ =~= s@.subrange(lo as int, i as int));
    }
    r
}

proof fn lemma_replace_all_step(s: Seq<char>, from: Seq<char>, to: Seq<char>, i: int)
    requires
        0 <= i < s.len(),
        from.len() > 0,
    ensures
        matches_at(s, from, i) ==> replace_all(s.skip(i), from, to) == to + replace_all(
            s.skip(i + from.len()),
            from,
            to,
        ),
        !matches_at(s, from, i) ==> replace_all(s.skip(i), from, to) == seq![s[i]]
            + replace_all(s.skip(i + 1), from, to),
{
    let t = s.skip(i);
    if matches_at(s, from, i) {
        assert(t.subrange(0, from.len() as int) =~= s.subrange(i, i + from.len()));
        assert(t.skip(from.len() as int) =~= s.skip(i + from.len()));
    } else {
        if is_prefix(from, t) {
            assert(t.subrange(0, from.len() as int) =~= s.subrange(i, i + from.len()));
        }
        assert(t.skip(1) =~= s.skip(i + 1));
    }
}

/// Every occurrence of `from` replaced by `to`, left to right.
pub fn vec_replace_all(s: &Vec<char>, from: &Vec<char>, to: &Vec<char>) -> (r: Vec<char>)
    requires
        from.len() > 0,
    ensures
        r@ == replace_all(s@, from@, to@),
{
    let mut out: Vec<char> = Vec::new();
    let mut i: usize = 0;
    assert(s@.skip(0) =~= s@);
    while i < s.len()
        invariant
            i <= s.len(),
            from.len() > 0,
            out@ + replace_all(s@.skip(i as int), from@, to@) == replace_all(s@, from@, to@),
        decreases s.len() - i,
    {
        proof {
            lemma_replace_all_step(s@, from@, to@, i as int);
        }
        if vec_matches_at(s, from, i) {
            out = vec_concat(&out, to);
            i = i + from.len();
        } else {
            out.push(s[i]);
            i = i + 1;
        }
    }
    assert(s@.skip(i as int).len() == 0);
    assert(out@ + s@.skip(i as int) =~= out@);
    out
}

/// The first occurrence of `from` replaced by `to`.
pub fn vec_replace_first(s: &Vec<char>, from: &Vec<char>, to: &Vec<char>) -> (r: Vec<char>)
    ensures
        r@ == replace_first(s@, from@, to@),
{
    proof {
        lemma_find_from(s@, from@, 0);
    }
    match vec_find_from(s, from, 0) {
        None => s.clone(),
        Some(i) => {
            let head = vec_slice(s, 0, i);
            let tail = vec_slice(s, i + from.len(), s.len());
            let h2 = vec_concat(&head, to);
            let r = vec_concat(&h2, &tail);
            assert(head@ =~= s@.take(i as int));
            assert(tail@ =~= s@.skip(i + from@.len()));
            r
        },
    }
}

// ----- conveniences on `&str` -----

/// String equality by characters.
pub fn str_eq(a: &str, b: &str) -> (r: bool)
    ensures
        r == (a@ == b@),
{
    let x = chars_of(a);
    let y = chars_of(b);
    if x.len() != y.len() {
        return false;
    }
    let r = vec_matches_at(&x, &y, 0);
    proof {
        if r {
            assert(x@ =~= x@.subrange(0, y@.len() as int));
        } else if x@ == y@ {
            assert(x@.subrange(0, y@.len() as int) =~= x@);
        }
    }
    r
}

/// `suf` is a suffix of `s`.
pub fn ends_with(s: &str, suf: &str) -> (r: bool)
    ensures
        r == is_suffix(suf@, s@),
{
    vec_ends_with(&chars_of(s), &chars_of(suf))
}

/// `pre` is a prefix of `s`.
pub fn starts_with(s: &str, pre: &str) -> (r: bool)
    ensures
        r == is_prefix(pre@, s@),
{
    vec_starts_with(&chars_of(s), &chars_of(pre))
}

/// `pat` occurs in `s`.
pub fn contains(s: &str, pat: &str) -> (r: bool)
    ensures
        r == has_sub(s@, pat@),
{
    vec_contains(&chars_of(s), &chars_of(pat))
}

/// `c` occurs in `s`.
pub fn contains_char(s: &str, c: char) -> (r: bool)
    ensures
        r == s@.contains(c),
{
    let v = chars_of(s);
    let mut i: usize = 0;
    while i < v.len()
        invariant
            i <= v.len(),
            v@ == s@,
            forall|j: int| 0 <= j < i ==> v@[j] != c,
        decreases v.len() - i,
    {
        if v[i] == c {
            return true;
        }
        i = i + 1;
    }
    false
}

/// `s` with every occurrence of `from` replaced by `to` (unchanged for an
/// empty `from`).
pub fn replace(s: &str, from: &str, to: &str) -> (r: String)
    ensures
        r@ == replace_all(s@, from@, to@),
{
    let f = chars_of(from);
    if f.len() == 0 {
        return owned(s);
    }
    let v = vec_replace_all(&chars_of(s), &f, &chars_of(to));
    string_of(&v)
}

/// `a` followed by `b`.
pub fn concat(a: &str, b: &str) -> (r: String)
    ensures
        r@ == a@ + b@,
{
    let v = vec_concat(&chars_of(a), &chars_of(b));
    string_of(&v)
}

/// `a`, `b` and `c` one after the other.
pub fn concat3(a: &str, b: &str, c: &str) -> (r: String)
    ensures
        r@ == a@ + b@ + c@,
{
    let ab = concat(a, b);
    concat(ab.as_str(), c)
}

/// Number of chars in `s`.
pub fn char_count(s: &str) -> (n: usize)
    ensures
        n == s@.len(),
{
    chars_of(s).len()
}

/// `s` with the char at index `i` replaced by `c`.
pub fn with_char_at(s: &str, i: usize, c: char) -> (r: String)
    requires
        i < s@.len(),
    ensures
        r@ == s@.update(i as int, c),
{
    let mut v = chars_of(s);
    v.set(i, c);
    string_of(&v)
}

/// The first `n` chars of `s`.
pub fn take_chars(s: &str, n: usize) -> (r: String)
    requires
        n <= s@.len(),
    ensures
        r@ == s@.take(n as int),
{
    let v = chars_of(s);
    let t = vec_slice(&v, 0, n);
    string_of(&t)
}

/// The chars of `s` from index `n` on.
pub fn skip_chars(s: &str, n: usize) -> (r: String)
    requires
        n <= s@.len(),
    ensures
        r@ == s@.skip(n as int),
{
    let v = chars_of(s);
    let t = vec_slice(&v, n, v.len());
    string_of(&t)
}

/// `s` without its last `n` chars, followed by `new_tail`.
pub fn replace_tail(s: &str, n: usize, new_tail: &str) -> (r: String)
    requires
        n <= s@.len(),
    ensures
        r@ == s@.take(s@.len() - n) + new_tail@,
{
    let len = char_count(s);
    let head = take_chars(s, len - n);
    concat(head.as_str(), new_tail)
}

/// The last char of `s`, if any.
pub fn last_char(s: &str) -> (r: Option<char>)
    ensures
        match r {
            Some(c) => s@.len() > 0 && c == s@.last(),
            None => s@.len() == 0,
        },
{
    let v = chars_of(s);
    if v.len() == 0 {
        None
    } else {
        Some(v[v.len() - 1])
    }
}

/// The char of `s` at index `i`.
pub fn char_at(s: &str, i: usize) -> (c: char)
    requires
        i < s@.len(),
    ensures
        c == s@[i as int],
{
    let v = chars_of(s);
    v[i]
}

/// Index of the last occurrence of `pat` in `s`.
pub fn rfind_str(s: &str, pat: &str) -> (r: Option<usize>)
    ensures
        match r {
            Some(i) => i as int == rfind(s@, pat@),
            None => rfind(s@, pat@) == -1,
        },
{
    vec_rfind(&chars_of(s), &chars_of(pat))
}

/// `s` with the first occurrence of `from` replaced by `to`.
pub fn replacen1(s: &str, from: &str, to: &str) -> (r: String)
    ensures
        r@ == replace_first(s@, from@, to@),
{
    let v = vec_replace_first(&chars_of(s), &chars_of(from), &chars_of(to));
    string_of(&v)
}

/// The byte offset of char `k` of `text`.
pub fn byte_offset(text: &str, v: &Vec<char>, k: usize) -> (r: usize)
    requires
        v@ == text@,
        k <= v.len(),
    ensures
        r == byte_len(text@.take(k as int)),
{
    let total = str_byte_len(text);
    let mut i: usize = 0;
    let mut pos: usize = 0;
    assert(text@.take(0) =~= Seq::<char>::empty());
    while i < k
        invariant
            v@ == text@,
            i <= k <= v.len(),
            total == byte_len(text@),
            pos == byte_len(text@.take(i as int)),
        decreases k - i,
    {
        proof {
            lemma_byte_len_take_mono(text@, i + 1, text@.len() as int);
            assert(text@.take(i + 1).drop_last() =~= text@.take(i as int));
            assert(text@.take(text@.len() as int) =~= text@);
        }
        pos = pos + utf8_width(v[i]);
        i = i + 1;
    }
    pos
}

} // verus!
