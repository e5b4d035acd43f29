//! Splitting text into Devanagari word tokens with byte offsets.
use vstd::prelude::*;

use crate::text::{byte_len, char_width, chars_of, lemma_byte_len_concat, str_byte_len, string_of, utf8_width, vec_slice};

verus! {

broadcast use vstd::string::group_string_axioms;

/// A char with the Unicode `White_Space` property (`char::is_whitespace`).
pub open spec fn is_white_space(c: char) -> bool {
    let u = c as u32;
    (0x9 <= u <= 0xD) || u == 0x20 || u == 0x85 || u == 0xA0 || u == 0x1680 || (0x2000 <= u
        <= 0x200A) || u == 0x2028 || u == 0x2029 || u == 0x202F || u == 0x205F || u == 0x3000
}

/// Whether `c` has the Unicode `White_Space` property.
pub fn white_space(c: char) -> (r: bool)
    ensures
        r == is_white_space(c),
{
    let u = c as u32;
    (0x9 <= u && u <= 0xD) || u == 0x20 || u == 0x85 || u == 0xA0 || u == 0x1680 || (0x2000 <= u
        && u <= 0x200A) || u == 0x2028 || u == 0x2029 || u == 0x202F || u == 0x205F || u == 0x3000
}

/// A punctuation char that ends a word.
pub open spec fn is_punctuation_char(c: char) -> bool {
    c == '.' || c == ',' || c == '!' || c == '?' || c == ';' || c == ':' || c == '-' || c == '('
        || c == ')' || c == '[' || c == ']' || c == '{' || c == '}' || c == '"' || c == '\''
        || c == '/' || c == '–' || c == '—' || c == '।' || c == '…' || c == '“' || c == '”'
        || c == '‘' || c == '’'
}

/// Check if a character is punctuation (for tokenization purposes).
pub fn is_punctuation(c: char) -> (r: bool)
    ensures
        r == is_punctuation_char(c),
{
    c == '.' || c == ',' || c == '!' || c == '?' || c == ';' || c == ':' || c == '-' || c == '('
        || c == ')' || c == '[' || c == ']' || c == '{' || c == '}' || c == '"' || c == '\''
        || c == '/' || c == '–' || c == '—' || c == '।' || c == '…' || c == '“' || c == '”'
        || c == '‘' || c == '’'
}

/// A char that separates words: white space or punctuation.
pub open spec fn is_separator(c: char) -> bool {
    is_white_space(c) || is_punctuation_char(c)
}

/// A char of the Devanagari block (U+0900–U+097F).
pub open spec fn is_devanagari_char(c: char) -> bool {
    0x900 <= (c as u32) <= 0x97F
}

/// `s` contains a Devanagari char.
pub open spec fn has_devanagari_char(s: Seq<char>) -> bool {
    exists|i: int| 0 <= i < s.len() && #[trigger] is_devanagari_char(s[i])
}

/// Check if a string contains any Devanagari character.
pub fn has_devanagari(s: &str) -> (r: bool)
    ensures
        r == has_devanagari_char(s@),
{
    let v = chars_of(s);
    let mut i: usize = 0;
    while i < v.len()
        invariant
            v@ == s@,
            i <= v.len(),
            forall|j: int| 0 <= j < i ==> !#[trigger] is_devanagari_char(s@[j]),
        decreases v.len() - i,
    {
        let u = v[i] as u32;
        if 0x900 <= u && u <= 0x97F {
            assert(is_devanagari_char(s@[i as int]));
            return true;
        }
        i = i + 1;
    }
    false
}

/// The maximal runs of non-separator chars of `s`, as `[start, end)` char ranges, in order.
pub open spec fn word_spans(s: Seq<char>) -> Seq<(int, int)>
    decreases s.len(),
{
    if s.len() == 0 {
        seq![]
    } else if is_separator(s.last()) {
        word_spans(s.drop_last())
    } else {
        let w = word_spans(s.drop_last());
        if w.len() > 0 && w.last().1 == s.len() - 1 {
            w.update(w.len() - 1, (w.last().0, s.len() as int))
        } else {
            w.push((s.len() - 1, s.len() as int))
        }
    }
}

/// The content of a [`Token`].
pub ghost struct TokenView {
    pub text: Seq<char>,
    pub start: int,
    pub end: int,
}

/// A token extracted from text.
#[derive(Debug, Clone)]
pub struct Token {
    /// The word text (without surrounding punctuation).
    pub text: String,
    /// Byte offset of the start of this token in the checked text.
    pub start: usize,
    /// Byte offset of the end of this token in the checked text.
    pub end: usize,
}

impl View for Token {
    type V = TokenView;

    open spec fn view(&self) -> TokenView {
        TokenView { text: self.text@, start: self.start as int, end: self.end as int }
    }
}

/// Tokens by content.
pub open spec fn tokens_view(v: Seq<Token>) -> Seq<TokenView> {
    v.map_values(|t: Token| t@)
}

/// The token for the char range `sp` of `s`, with byte offsets.
pub open spec fn span_token(s: Seq<char>, sp: (int, int)) -> TokenView {
    TokenView {
        text: s.subrange(sp.0, sp.1),
        start: byte_len(s.take(sp.0)) as int,
        end: byte_len(s.take(sp.1)) as int,
    }
}

/// The tokens of the ranges `spans` of `s` that contain a Devanagari char.
pub open spec fn devanagari_tokens(s: Seq<char>, spans: Seq<(int, int)>) -> Seq<TokenView>
    decreases spans.len(),
{
    if spans.len() == 0 {
        seq![]
    } else {
        let rest = devanagari_tokens(s, spans.drop_last());
        let sp = spans.last();
        if has_devanagari_char(s.subrange(sp.0, sp.1)) {
            rest.push(span_token(s, sp))
        } else {
            rest
        }
    }
}

/// The word tokens of `s`: the maximal runs between white space and
/// punctuation that hold a Devanagari char.
pub open spec fn tokens_of(s: Seq<char>) -> Seq<TokenView> {
    devanagari_tokens(s, word_spans(s))
}

proof fn lemma_word_spans_bounds(s: Seq<char>)
    ensures
        forall|k: int| 0 <= k < word_spans(s).len() ==> 0 <= (#[trigger] word_spans(s)[k]).0 < word_spans(s)[k].1 <= s.len(),
    decreases s.len(),
{
    if s.len() > 0 {
        let w = word_spans(s.drop_last());
        lemma_word_spans_bounds(s.drop_last());
        if !is_separator(s.last()) {
            let n = word_spans(s);
            assert forall|k: int| 0 <= k < n.len() implies 0 <= (#[trigger] n[k]).0 < n[k].1 <= s.len() by {
                if k < w.len() && !(w.len() > 0 && w.last().1 == s.len() - 1 && k == w.len() - 1) {
                    assert(n[k] == w[k]);
                }
            }
        }
    }
}

proof fn lemma_word_spans_clean(s: Seq<char>)
    ensures
        forall|k: int, j: int|
            0 <= k < word_spans(s).len() && (#[trigger] word_spans(s)[k]).0 <= j < word_spans(s)[k].1
                ==> !is_separator(#[trigger] s[j]),
    decreases s.len(),
{
    if s.len() > 0 {
        let d = s.drop_last();
        let w = word_spans(d);
        lemma_word_spans_clean(d);
        lemma_word_spans_bounds(d);
        let n = word_spans(s);
        assert forall|k: int, j: int|
            0 <= k < n.len() && (#[trigger] n[k]).0 <= j < n[k].1 implies !is_separator(#[trigger] s[j]) by {
            if j < s.len() - 1 {
                assert(s[j] == d[j]);
                if is_separator(s.last()) {
                    assert(n[k] == w[k]);
                } else if w.len() > 0 && w.last().1 == s.len() - 1 && k == w.len() - 1 {
                    assert(w[k].0 <= j < w[k].1);
                } else if k < w.len() {
                    assert(n[k] == w[k]);
                } else {
                    assert(n[k] == (s.len() - 1, s.len() as int));
                }
            } else {
                if is_separator(s.last()) {
                    assert(n[k] == w[k]);
                    assert(w[k].1 <= d.len());
                }
            }
        }
    }
}

proof fn lemma_devanagari_tokens_from_spans(s: Seq<char>, spans: Seq<(int, int)>)
    ensures
        forall|i: int|
            0 <= i < devanagari_tokens(s, spans).len() ==> exists|k: int|
                0 <= k < spans.len() && #[trigger] devanagari_tokens(s, spans)[i] == span_token(
                    s,
                    #[trigger] spans[k],
                ),
    decreases spans.len(),
{
    if spans.len() > 0 {
        let p = spans.drop_last();
        lemma_devanagari_tokens_from_spans(s, p);
        let rest = devanagari_tokens(s, p);
        let all = devanagari_tokens(s, spans);
        assert forall|i: int| 0 <= i < all.len() implies exists|k: int|
            0 <= k < spans.len() && #[trigger] all[i] == span_token(s, #[trigger] spans[k]) by {
            if i < rest.len() {
                assert(all[i] == rest[i]);
                let k = choose|k: int| 0 <= k < p.len() && #[trigger] rest[i] == span_token(s, #[trigger] p[k]);
                assert(spans[k] == p[k]);
            } else {
                assert(all[i] == span_token(s, spans[spans.len() - 1]));
            }
        }
    }
}

/// No token holds white space or any of the punctuation marks that end a
/// word: . , ! ? ; : - ( ) [ ] { } " ' / – — । … “ ” ‘ ’.
pub proof fn lemma_tokens_hold_no_separators(s: Seq<char>)
    ensures
        forall|i: int, j: int|
            0 <= i < tokens_of(s).len() && 0 <= j < tokens_of(s)[i].text.len() ==> {
                let c = #[trigger] tokens_of(s)[i].text[j];
                &&& c != ' ' && c != '\t' && c != '\n' && c != '\r'
                &&& c != '.' && c != ',' && c != '!' && c != '?' && c != ';' && c != ':' && c != '-'
                &&& c != '(' && c != ')' && c != '[' && c != ']' && c != '{' && c != '}'
                &&& c != '"' && c != '\'' && c != '/' && c != '–' && c != '—' && c != '।'
                &&& c != '…' && c != '“' && c != '”' && c != '‘' && c != '’'
            },
{
    let ws = word_spans(s);
    lemma_word_spans_clean(s);
    lemma_word_spans_bounds(s);
    lemma_devanagari_tokens_from_spans(s, ws);
    assert forall|i: int, j: int| 0 <= i < tokens_of(s).len() && 0 <= j < tokens_of(s)[i].text.len() implies {
        let c = #[trigger] tokens_of(s)[i].text[j];
        &&& c != ' ' && c != '\t' && c != '\n' && c != '\r'
        &&& c != '.' && c != ',' && c != '!' && c != '?' && c != ';' && c != ':' && c != '-'
        &&& c != '(' && c != ')' && c != '[' && c != ']' && c != '{' && c != '}'
        &&& c != '"' && c != '\'' && c != '/' && c != '–' && c != '—' && c != '।'
        &&& c != '…' && c != '“' && c != '”' && c != '‘' && c != '’'
    } by {
        let k = choose|k: int| 0 <= k < ws.len() && #[trigger] tokens_of(s)[i] == span_token(s, #[trigger] ws[k]);
        let sp = ws[k];
        assert(tokens_of(s)[i].text == s.subrange(sp.0, sp.1));
        assert(tokens_of(s)[i].text[j] == s[sp.0 + j]);
        assert(!is_separator(s[sp.0 + j]));
    }
}

proof fn lemma_devanagari_tokens_have_devanagari(s: Seq<char>, spans: Seq<(int, int)>)
    ensures
        forall|i: int|
            0 <= i < devanagari_tokens(s, spans).len() ==> has_devanagari_char(
                #[trigger] devanagari_tokens(s, spans)[i].text,
            ),
    decreases spans.len(),
{
    if spans.len() > 0 {
        let p = spans.drop_last();
        lemma_devanagari_tokens_have_devanagari(s, p);
        let rest = devanagari_tokens(s, p);
        let all = devanagari_tokens(s, spans);
        assert forall|i: int| 0 <= i < all.len() implies has_devanagari_char(#[trigger] all[i].text) by {
            if i < rest.len() {
                assert(all[i] == rest[i]);
            }
        }
    }
}

/// A char lies in the Devanagari block (U+0900–U+097F).
pub open spec fn in_devanagari_block(c: char) -> bool {
    0x900 <= (c as u32) && (c as u32) <= 0x97F
}

/// Every token holds a char of the Devanagari block (U+0900–U+097F).
pub proof fn lemma_token_holds_devanagari(s: Seq<char>, i: int)
    requires
        0 <= i < tokens_of(s).len(),
    ensures
        exists|j: int| 0 <= j < tokens_of(s)[i].text.len() && #[trigger] in_devanagari_block(tokens_of(s)[i].text[j]),
{
    lemma_devanagari_tokens_have_devanagari(s, word_spans(s));
    let t = tokens_of(s)[i].text;
    assert(has_devanagari_char(t));
    let j = choose|j: int| 0 <= j < t.len() && #[trigger] is_devanagari_char(t[j]);
    assert(in_devanagari_block(t[j]));
}

/// The byte length of a prefix is at most that of the whole.
proof fn lemma_byte_len_prefix(s: Seq<char>, i: int)
    requires
        0 <= i <= s.len(),
    ensures
        byte_len(s.take(i)) <= byte_len(s),
{
    lemma_byte_len_concat(s.take(i), s.skip(i));
    assert(s.take(i) + s.skip(i) =~= s);
}

/// The token for chars `[a, b)` of `text`, if they hold a Devanagari char.
fn push_token(
    tokens: &mut Vec<Token>,
    text: &str,
    chars: &Vec<char>,
    a: usize,
    b: usize,
    start: usize,
    end: usize,
)
    requires
        chars@ == text@,
        a <= b <= chars.len(),
        start == byte_len(text@.take(a as int)),
        end == byte_len(text@.take(b as int)),
    ensures
        tokens_view(final(tokens)@) == if has_devanagari_char(text@.subrange(a as int, b as int)) {
            tokens_view(old(tokens)@).push(span_token(text@, (a as int, b as int)))
        } else {
            tokens_view(old(tokens)@)
        },
{
    let w = vec_slice(chars, a, b);
    let word = string_of(&w);
    if has_devanagari(word.as_str()) {
        let ghost before = tokens@;
        tokens.push(Token { text: word, start, end });
        assert(tokens_view(tokens@) =~= tokens_view(before).push(span_token(text@, (a as int, b as int))));
    }
}

/// Tokenize text into word tokens with byte offsets.
///
/// Splits on whitespace and punctuation boundaries.
/// Only returns tokens that contain at least one Devanagari character.
pub fn tokenize(text: &str) -> (r: Vec<Token>)
    ensures
        tokens_view(r@) == tokens_of(text@),
{
    let chars = chars_of(text);
    let total = str_byte_len(text);
    let mut tokens: Vec<Token> = Vec::new();
    let mut open: Option<(usize, usize)> = None;
    let mut pos: usize = 0;
    let mut i: usize = 0;
    assert(text@.take(0) =~= Seq::<char>::empty());
    assert(tokens_view(tokens@) =~= Seq::<TokenView>::empty());
    while i < chars.len()
        invariant
            chars@ == text@,
            i <= chars.len(),
            total == byte_len(text@),
            pos == byte_len(text@.take(i as int)),
            match open {
                None => {
                    &&& tokens_view(tokens@) == devanagari_tokens(text@, word_spans(text@.take(i as int)))
                    &&& (word_spans(text@.take(i as int)).len() == 0 || word_spans(text@.take(i as int)).last().1 < i)
                },
                Some((a, b)) => {
                    &&& word_spans(text@.take(i as int)).len() > 0
                    &&& word_spans(text@.take(i as int)).last() == (a as int, i as int)
                    &&& b == byte_len(text@.take(a as int))
                    &&& tokens_view(tokens@) == devanagari_tokens(text@, word_spans(text@.take(i as int)).drop_last())
                },
            },
        decreases chars.len() - i,
    {
        let c = chars[i];
        let ghost pre = text@.take(i as int);
        let ghost post = text@.take(i + 1);
        proof {
            assert(post.drop_last() =~= pre);
            assert(post.last() == c);
            lemma_word_spans_bounds(pre);
            lemma_byte_len_prefix(text@, i + 1);
        }
        let sep = white_space(c) || is_punctuation(c);
        if sep {
            assert(word_spans(post) == word_spans(pre));
            if let Some((a, b)) = open {
                let ghost sp = word_spans(pre);
                push_token(&mut tokens, text, &chars, a, i, b, pos);
                proof {
                    assert(sp.len() > 0);
                    assert(sp.last() == (a as int, i as int));
                    assert(devanagari_tokens(text@, sp) == if has_devanagari_char(text@.subrange(a as int, i as int)) {
                        devanagari_tokens(text@, sp.drop_last()).push(span_token(text@, (a as int, i as int)))
                    } else {
                        devanagari_tokens(text@, sp.drop_last())
                    });
                }
                open = None;
            }
        } else {
            let ghost w = word_spans(pre);
            if open.is_none() {
                assert(word_spans(post) == w.push((i as int, i + 1)));
                assert(w.push((i as int, i + 1)).drop_last() =~= w);
                open = Some((i, pos));
            } else {
                assert(word_spans(post) == w.update(w.len() - 1, (w.last().0, i + 1)));
                assert(word_spans(post).drop_last() =~= w.drop_last());
            }
        }
        proof {
            assert(byte_len(post) == byte_len(pre) + char_width(c));
        }
        pos = pos + utf8_width(c);
        i = i + 1;
    }
    assert(text@.take(i as int) =~= text@);
    proof {
        lemma_word_spans_bounds(text@);
    }
    if let Some((a, b)) = open {
        push_token(&mut tokens, text, &chars, a, chars.len(), b, total);
        proof {
            let sp = word_spans(text@);
            assert(sp.drop_last().push(sp.last()) =~= sp);
        }
    }
    tokens
}

/// Every token lies inside the text, and starts no later than it ends.
pub proof fn lemma_tokens_well_formed(s: Seq<char>)
    ensures
        forall|i: int|
            0 <= i < tokens_of(s).len() ==> 0 <= (#[trigger] tokens_of(s)[i]).start <= tokens_of(s)[i].end
                <= byte_len(s),
{
    lemma_word_spans_bounds(s);
    lemma_devanagari_tokens_well_formed(s, word_spans(s));
}

proof fn lemma_devanagari_tokens_well_formed(s: Seq<char>, spans: Seq<(int, int)>)
    requires
        forall|k: int| 0 <= k < spans.len() ==> 0 <= (#[trigger] spans[k]).0 < spans[k].1 <= s.len(),
    ensures
        forall|i: int|
            0 <= i < devanagari_tokens(s, spans).len() ==> 0 <= (#[trigger] devanagari_tokens(s, spans)[i]).start
                <= devanagari_tokens(s, spans)[i].end <= byte_len(s),
    decreases spans.len(),
{
    if spans.len() > 0 {
        let rest = spans.drop_last();
        assert forall|k: int| 0 <= k < rest.len() implies 0 <= (#[trigger] rest[k]).0 < rest[k].1 <= s.len() by {
            assert(rest[k] == spans[k]);
        }
        lemma_devanagari_tokens_well_formed(s, rest);
        let sp = spans.last();
        assert(spans[spans.len() - 1] == sp);
        crate::text::lemma_byte_len_take_mono(s, sp.0, sp.1);
        crate::text::lemma_byte_len_take_mono(s, sp.1, s.len() as int);
        assert(s.take(s.len() as int) =~= s);
        let r = devanagari_tokens(s, rest);
        let t = devanagari_tokens(s, spans);
        assert forall|i: int| 0 <= i < t.len() implies 0 <= (#[trigger] t[i]).start <= t[i].end <= byte_len(s) by {
            if i < r.len() {
                assert(t[i] == r[i]);
            } else {
                assert(t[i] == span_token(s, sp));
            }
        }
    }
}


proof fn lemma_word_spans_sorted(s: Seq<char>)
    ensures
        forall|k: int| 0 <= k < word_spans(s).len() - 1 ==> (#[trigger] word_spans(s)[k]).1 < word_spans(s)[k + 1].0,
    decreases s.len(),
{
    lemma_word_spans_bounds(s);
    if s.len() > 0 {
        let w = word_spans(s.drop_last());
        lemma_word_spans_sorted(s.drop_last());
        lemma_word_spans_bounds(s.drop_last());
        if !is_separator(s.last()) {
            let n = word_spans(s);
            if w.len() > 0 && w.last().1 == s.len() - 1 {
                assert forall|k: int| 0 <= k < n.len() - 1 implies (#[trigger] n[k]).1 < n[k + 1].0 by {
                    assert(n[k] == w[k]);
                    if k + 1 < w.len() - 1 {
                        assert(n[k + 1] == w[k + 1]);
                    }
                }
            } else {
                assert forall|k: int| 0 <= k < n.len() - 1 implies (#[trigger] n[k]).1 < n[k + 1].0 by {
                    assert(n[k] == w[k]);
                    if k + 1 < w.len() {
                        assert(n[k + 1] == w[k + 1]);
                    }
                }
            }
        }
    }
}

proof fn lemma_devanagari_tokens_sorted(s: Seq<char>, spans: Seq<(int, int)>)
    requires
        forall|k: int| 0 <= k < spans.len() ==> 0 <= (#[trigger] spans[k]).0 < spans[k].1 <= s.len(),
        forall|k: int| 0 <= k < spans.len() - 1 ==> (#[trigger] spans[k]).1 < spans[k + 1].0,
    ensures
        forall|i: int, j: int|
            0 <= i < j < devanagari_tokens(s, spans).len() ==> (#[trigger] devanagari_tokens(s, spans)[i]).end
                <= (#[trigger] devanagari_tokens(s, spans)[j]).start,
        spans.len() > 0 ==> forall|k: int|
            0 <= k < devanagari_tokens(s, spans).len() ==> (#[trigger] devanagari_tokens(s, spans)[k]).end
                <= byte_len(s.take(spans.last().1)),
    decreases spans.len(),
{
    if spans.len() > 0 {
        let rest = spans.drop_last();
        assert forall|k: int| 0 <= k < rest.len() implies 0 <= (#[trigger] rest[k]).0 < rest[k].1 <= s.len() by {
            assert(rest[k] == spans[k]);
        }
        assert forall|k: int| 0 <= k < rest.len() - 1 implies (#[trigger] rest[k]).1 < rest[k + 1].0 by {
            assert(rest[k] == spans[k]);
            assert(rest[k + 1] == spans[k + 1]);
        }
        lemma_devanagari_tokens_sorted(s, rest);
        let prev = devanagari_tokens(s, rest);
        let toks = devanagari_tokens(s, spans);
        let sp = spans.last();
        assert(spans[spans.len() - 1] == sp);
        crate::text::lemma_byte_len_take_mono(s, sp.0, sp.1);
        if rest.len() > 0 {
            assert(rest.last() == spans[spans.len() - 2]);
            crate::text::lemma_byte_len_take_mono(s, rest.last().1, sp.0);
        }
        if has_devanagari_char(s.subrange(sp.0, sp.1)) {
            assert(toks == prev.push(span_token(s, sp)));
            assert forall|i: int, j: int| 0 <= i < j < toks.len() implies (#[trigger] toks[i]).end <= (#[trigger] toks[j]).start by {
                if j < prev.len() {
                    assert(toks[i] == prev[i]);
                    assert(toks[j] == prev[j]);
                } else {
                    assert(toks[i] == prev[i]);
                }
            }
            assert forall|k: int| 0 <= k < toks.len() implies (#[trigger] toks[k]).end <= byte_len(s.take(spans.last().1)) by {
                if k < prev.len() {
                    assert(toks[k] == prev[k]);
                }
            }
        } else {
            assert forall|k: int| 0 <= k < toks.len() implies (#[trigger] toks[k]).end <= byte_len(s.take(spans.last().1)) by {
                crate::text::lemma_byte_len_take_mono(s, rest.last().1, sp.1);
            }
        }
    }
}

/// Tokens come in text order: each ends no later than the next one starts.
pub proof fn lemma_tokens_sorted(s: Seq<char>)
    ensures
        forall|i: int, j: int|
            0 <= i < j < tokens_of(s).len() ==> (#[trigger] tokens_of(s)[i]).end <= (#[trigger] tokens_of(s)[j]).start,
{
    lemma_word_spans_bounds(s);
    lemma_word_spans_sorted(s);
    lemma_devanagari_tokens_sorted(s, word_spans(s));
}

} // verus!
