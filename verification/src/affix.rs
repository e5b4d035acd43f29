//! Detaching outer affixes (particles, case markers, plural markers) from a
//! word form, and the suffix-aware token stream built on it.
use vstd::prelude::*;

use crate::correction_table::{contains as table_contains, table_row};
use crate::lexicon::Lexicon;
use crate::text::{
    byte_len, char_count, concat, ends_with, is_prefix, is_suffix, skip_chars, starts_with,
    str_byte_len, strip_suffix, take_chars,
};
use crate::tokenizer::{Token, TokenView, tokenize, tokens_of, tokens_view};

verus! {

broadcast use vstd::string::group_string_axioms;

/// Strings by content.
pub open spec fn strings_view(v: Seq<String>) -> Seq<Seq<char>> {
    v.map_values(|s: String| s@)
}

/// A stem the rules can vouch for: attested, a headword, listed in the
/// correction table, or accepted by the morphological analyser.
pub open spec fn supported_stem(stem: Seq<char>, lex: Lexicon) -> bool {
    stem.len() > 0 && (lex.supports(stem) || table_row(stem) is Some || lex.analyzable(stem))
}

/// Whether `stem` is a stem the rules can vouch for.
pub fn is_supported_stem(stem: &str, lex: &Lexicon) -> (r: bool)
    ensures
        r == supported_stem(stem@, *lex),
{
    if char_count(stem) == 0 {
        return false;
    }
    lex.is_supported(stem) || table_contains(stem) || lex.has_analysis(stem)
}

/// Number of affix groups, peeled from the outside in.
pub open spec fn group_count() -> int {
    3
}

/// The affixes of group `g`: particles, then case markers, then plural markers.
pub open spec fn group_items(lex: Lexicon, g: int) -> Seq<Seq<char>> {
    if g == 0 {
        strings_view(lex.particles@)
    } else if g == 1 {
        strings_view(lex.case_markers@)
    } else if g == 2 {
        strings_view(lex.plural_markers@)
    } else {
        seq![]
    }
}

/// Case markers may stack; the other groups occur once.
pub open spec fn group_repeatable(g: int) -> bool {
    g == 1
}

/// The detached affixes, outermost first, written back in text order.
pub open spec fn joined_suffix(det: Seq<Seq<char>>) -> Seq<char>
    decreases det.len(),
{
    if det.len() == 0 {
        seq![]
    } else {
        det.last() + joined_suffix(det.drop_last())
    }
}

/// A (stem, suffix) split by content.
pub open spec fn split_view(b: Option<(String, String)>) -> Option<(Seq<char>, Seq<char>)> {
    match b {
        Some(p) => Some((p.0@, p.1@)),
        None => None,
    }
}

/// `best` updated with the split of `cur` after detaching `det`, when that
/// split is admissible and its suffix is longer (in bytes) than the best so far.
pub open spec fn consider_split(
    cur: Seq<char>,
    det: Seq<Seq<char>>,
    best: Option<(Seq<char>, Seq<char>)>,
    lex: Lexicon,
    require_supported: bool,
) -> Option<(Seq<char>, Seq<char>)> {
    if det.len() > 0 && (!require_supported || supported_stem(cur, lex)) {
        match best {
            None => Some((cur, joined_suffix(det))),
            Some(b) => if byte_len(joined_suffix(det)) > byte_len(b.1) {
                Some((cur, joined_suffix(det)))
            } else {
                best
            },
        }
    } else {
        best
    }
}

/// `sfx` can be detached from `cur`, leaving a non-empty rest.
pub open spec fn detachable(cur: Seq<char>, sfx: Seq<char>) -> bool {
    sfx.len() > 0 && is_suffix(sfx, cur) && cur.len() > sfx.len()
}

/// The search over ways to peel affix groups `g..` off `cur`, given the
/// affixes `det` already detached: every admissible split is considered, in
/// order, and the one with the longest suffix (the first among equals) wins.
pub open spec fn search_from(
    cur: Seq<char>,
    det: Seq<Seq<char>>,
    g: int,
    best: Option<(Seq<char>, Seq<char>)>,
    lex: Lexicon,
    require_supported: bool,
) -> Option<(Seq<char>, Seq<char>)>
    decreases cur.len(), group_count() - g, group_items(lex, g).len() + 1,
{
    let b1 = consider_split(cur, det, best, lex, require_supported);
    if g < 0 || g >= group_count() {
        b1
    } else {
        let b2 = scan_group(cur, det, g, 0, b1, lex, require_supported);
        search_from(cur, det, g + 1, b2, lex, require_supported)
    }
}

/// The search through the affixes of group `g` from position `k` on.
pub open spec fn scan_group(
    cur: Seq<char>,
    det: Seq<Seq<char>>,
    g: int,
    k: int,
    best: Option<(Seq<char>, Seq<char>)>,
    lex: Lexicon,
    require_supported: bool,
) -> Option<(Seq<char>, Seq<char>)>
    decreases cur.len(), group_count() - g, group_items(lex, g).len() - k,
{
    if g < 0 || g >= group_count() || k < 0 || k >= group_items(lex, g).len() {
        best
    } else {
        let sfx = group_items(lex, g)[k];
        if detachable(cur, sfx) {
            let rest = strip_suffix(cur, sfx);
            let det2 = det.push(sfx);
            let next = if group_repeatable(g) {
                g
            } else {
                g + 1
            };
            let b1 = search_from(rest, det2, next, best, lex, require_supported);
            let b2 = search_from(rest, det2, g + 1, b1, lex, require_supported);
            scan_group(cur, det, g, k + 1, b2, lex, require_supported)
        } else {
            scan_group(cur, det, g, k + 1, best, lex, require_supported)
        }
    }
}

/// The best split of `word`: stem and the outer affixes detached from it.
pub open spec fn best_split(word: Seq<char>, lex: Lexicon, require_supported: bool) -> Option<
    (Seq<char>, Seq<char>),
> {
    search_from(word, seq![], 0, None, lex, require_supported)
}

fn joined(det: &Vec<String>) -> (r: String)
    ensures
        r@ == joined_suffix(strings_view(det@)),
{
    let mut out = String::new();
    let mut i: usize = det.len();
    proof {
        assert(strings_view(det@).take(det@.len() as int) =~= strings_view(det@));
    }
    while i > 0
        invariant
            i <= det.len(),
            out@ + joined_suffix(strings_view(det@).take(i as int)) == joined_suffix(strings_view(det@)),
        decreases i,
    {
        let ghost t = strings_view(det@).take(i as int);
        assert(t.drop_last() =~= strings_view(det@).take(i - 1));
        assert(t.last() == det@[i - 1]@);
        let next = concat(out.as_str(), det[i - 1].as_str());
        assert(next@ + joined_suffix(t.drop_last()) =~= out@ + joined_suffix(t));
        out = next;
        i = i - 1;
    }
    assert(strings_view(det@).take(0) =~= Seq::<Seq<char>>::empty());
    assert(out@ + Seq::<char>::empty() =~= out@);
    out
}

fn consider(
    cur: &str,
    det: &Vec<String>,
    best: &mut Option<(String, String)>,
    lex: &Lexicon,
    require_supported: bool,
)
    ensures
        split_view(*final(best)) == consider_split(
            cur@,
            strings_view(det@),
            split_view(*old(best)),
            *lex,
            require_supported,
        ),
{
    if det.len() == 0 {
        return;
    }
    if require_supported && !is_supported_stem(cur, lex) {
        return;
    }
    let suffix = joined(det);
    let replace = match best {
        None => true,
        Some(b) => str_byte_len(suffix.as_str()) > str_byte_len(b.1.as_str()),
    };
    if replace {
        *best = Some((crate::text::owned(cur), suffix));
    }
}

fn group<'a>(lex: &'a Lexicon, g: usize) -> (r: &'a Vec<String>)
    requires
        g < 3,
    ensures
        strings_view(r@) == group_items(*lex, g as int),
{
    if g == 0 {
        &lex.particles
    } else if g == 1 {
        &lex.case_markers
    } else {
        &lex.plural_markers
    }
}

fn search(
    cur: &str,
    det: &mut Vec<String>,
    g: usize,
    best: &mut Option<(String, String)>,
    lex: &Lexicon,
    require_supported: bool,
)
    requires
        g <= 3,
    ensures
        final(det)@ == old(det)@,
        split_view(*final(best)) == search_from(
            cur@,
            strings_view(old(det)@),
            g as int,
            split_view(*old(best)),
            *lex,
            require_supported,
        ),
    decreases cur@.len(), group_count() - g, group_items(*lex, g as int).len() + 1,
{
    consider(cur, det, best, lex, require_supported);
    if g >= 3 {
        return;
    }
    scan(cur, det, g, 0, best, lex, require_supported);
    search(cur, det, g + 1, best, lex, require_supported);
}

fn scan(
    cur: &str,
    det: &mut Vec<String>,
    g: usize,
    k: usize,
    best: &mut Option<(String, String)>,
    lex: &Lexicon,
    require_supported: bool,
)
    requires
        g < 3,
        k <= group_items(*lex, g as int).len(),
    ensures
        final(det)@ == old(det)@,
        split_view(*final(best)) == scan_group(
            cur@,
            strings_view(old(det)@),
            g as int,
            k as int,
            split_view(*old(best)),
            *lex,
            require_supported,
        ),
    decreases cur@.len(), group_count() - g, group_items(*lex, g as int).len() - k,
{
    let items = group(lex, g);
    if k >= items.len() {
        return;
    }
    assert(items@[k as int]@ == group_items(*lex, g as int)[k as int]);
    let sfx_len = char_count(items[k].as_str());
    let cur_len = char_count(cur);
    if sfx_len > 0 && ends_with(cur, items[k].as_str()) && cur_len > sfx_len {
        let rest = take_chars(cur, cur_len - sfx_len);
        let ghost det0 = det@;
        det.push(items[k].clone());
        proof {
            assert(strings_view(det@) =~= strings_view(det0).push(group_items(*lex, g as int)[k as int]));
        }
        let next = if g == 1 {
            g
        } else {
            g + 1
        };
        search(rest.as_str(), det, next, best, lex, require_supported);
        search(rest.as_str(), det, g + 1, best, lex, require_supported);
        det.pop();
        assert(det@ =~= det0);
    }
    scan(cur, det, g, k + 1, best, lex, require_supported);
}

fn best_split_of(word: &str, lex: &Lexicon, require_supported: bool) -> (r: Option<(String, String)>)
    ensures
        split_view(r) == best_split(word@, *lex, require_supported),
{
    let mut best: Option<(String, String)> = None;
    let mut det: Vec<String> = Vec::new();
    assert(strings_view(det@) =~= Seq::<Seq<char>>::empty());
    search(word, &mut det, 0, &mut best, lex, require_supported);
    best
}

/// The split of `word` with the longest detachable suffix whose stem is supported.
pub fn best_supported_detachment(word: &str, lex: &Lexicon) -> (r: Option<(String, String)>)
    ensures
        split_view(r) == best_split(word@, *lex, true),
{
    best_split_of(word, lex, true)
}

/// The split of `word` with the longest detachable suffix, whatever its stem.
pub fn best_detachment_candidate(word: &str, lex: &Lexicon) -> (r: Option<(String, String)>)
    ensures
        split_view(r) == best_split(word@, *lex, false),
{
    best_split_of(word, lex, false)
}

/// The content of an [`AnalyzedToken`].
pub ghost struct AnalyzedTokenView {
    pub stem: Seq<char>,
    pub suffix: Option<Seq<char>>,
    pub start: int,
    pub end: int,
}

/// A token with suffix analysis — the stem and optional detached suffix.
#[derive(Debug, Clone)]
pub struct AnalyzedToken {
    /// The stem (after suffix detachment, or the full word if no suffix matched).
    pub stem: String,
    /// The detached suffix, if any.
    pub suffix: Option<String>,
    /// Byte offset of the start of the full token (stem+suffix) in the checked text.
    pub start: usize,
    /// Byte offset of the end of the full token (stem+suffix) in the checked text.
    pub end: usize,
}

impl View for AnalyzedToken {
    type V = AnalyzedTokenView;

    open spec fn view(&self) -> AnalyzedTokenView {
        AnalyzedTokenView {
            stem: self.stem@,
            suffix: match self.suffix {
                Some(s) => Some(s@),
                None => None,
            },
            start: self.start as int,
            end: self.end as int,
        }
    }
}

/// Analyzed tokens by content.
pub open spec fn analyzed_view(v: Seq<AnalyzedToken>) -> Seq<AnalyzedTokenView> {
    v.map_values(|t: AnalyzedToken| t@)
}

/// The split of `w` that its best morphological analysis gives: the stem,
/// when it is a proper prefix of `w`, and the rest of `w`.
pub open spec fn analysis_split(w: Seq<char>, lex: Lexicon) -> Option<(Seq<char>, Seq<char>)> {
    match lex.analysis_of(w) {
        Some(st) => if is_prefix(st, w) && st.len() < w.len() {
            Some((st, w.skip(st.len() as int)))
        } else {
            None
        },
        None => None,
    }
}

/// The split of `word` by its best morphological analysis.
pub fn split_by_analysis(word: &str, lex: &Lexicon) -> (r: Option<(String, String)>)
    ensures
        split_view(r) == analysis_split(word@, *lex),
{
    match lex.best_analysis(word) {
        Some(st) => {
            let n = char_count(st.as_str());
            if n < char_count(word) && starts_with(word, st.as_str()) {
                let rest = skip_chars(word, n);
                Some((st, rest))
            } else {
                None
            }
        },
        None => None,
    }
}

/// The analysis of one token: a form whose best morphological analysis
/// detaches a suffix is split there; otherwise an unattested word form that
/// is not in the correction table is split at its best supported outer-affix
/// boundary.
pub open spec fn analyze_token(t: TokenView, lex: Lexicon) -> AnalyzedTokenView {
    if analysis_split(t.text, lex) is Some {
        let p = analysis_split(t.text, lex)->Some_0;
        AnalyzedTokenView { stem: p.0, suffix: Some(p.1), start: t.start, end: t.end }
    } else if !lex.supports(t.text) && table_row(t.text) is None && best_split(t.text, lex, true) is Some {
        let p = best_split(t.text, lex, true)->Some_0;
        AnalyzedTokenView { stem: p.0, suffix: Some(p.1), start: t.start, end: t.end }
    } else {
        AnalyzedTokenView { stem: t.text, suffix: None, start: t.start, end: t.end }
    }
}

/// The analyzed tokens of `s`.
pub open spec fn analyzed_tokens_of(s: Seq<char>, lex: Lexicon) -> Seq<AnalyzedTokenView> {
    tokens_of(s).map_values(|t: TokenView| analyze_token(t, lex))
}

fn analyze_one(tok: &Token, lex: &Lexicon) -> (r: AnalyzedToken)
    ensures
        r@ == analyze_token(tok@, *lex),
{
    let word = tok.text.as_str();
    if let Some((stem, rest)) = split_by_analysis(word, lex) {
        return AnalyzedToken { stem, suffix: Some(rest), start: tok.start, end: tok.end };
    }
    if !lex.is_supported(word) && !table_contains(word) {
        if let Some((stem, detached)) = best_supported_detachment(word, lex) {
            return AnalyzedToken { stem, suffix: Some(detached), start: tok.start, end: tok.end };
        }
    }
    AnalyzedToken { stem: crate::text::owned(word), suffix: None, start: tok.start, end: tok.end }
}

/// Tokenize text into analyzed tokens with outer affix detachment.
///
/// An unattested token is split into its stem and the longest stack of
/// outer affixes whose stem is supported; otherwise the full word is the stem.
pub fn tokenize_analyzed(text: &str, lex: &Lexicon) -> (r: Vec<AnalyzedToken>)
    ensures
        analyzed_view(r@) == analyzed_tokens_of(text@, *lex),
{
    let tokens = tokenize(text);
    let mut out: Vec<AnalyzedToken> = Vec::new();
    let mut i: usize = 0;
    while i < tokens.len()
        invariant
            i <= tokens.len(),
            tokens_view(tokens@) == tokens_of(text@),
            analyzed_view(out@) == tokens_of(text@).take(i as int).map_values(
                |t: TokenView| analyze_token(t, *lex),
            ),
        decreases tokens.len() - i,
    {
        let a = analyze_one(&tokens[i], lex);
        let ghost before = out@;
        out.push(a);
        proof {
            assert(tokens_view(tokens@)[i as int] == tokens@[i as int]@);
            assert(tokens_of(text@)[i as int] == tokens@[i as int]@);
            assert(analyzed_view(out@) =~= analyzed_view(before).push(a@));
            assert(tokens_of(text@).take(i + 1) =~= tokens_of(text@).take(i as int).push(tokens_of(text@)[i as int]));
            assert(analyzed_view(out@) =~= tokens_of(text@).take(i + 1).map_values(
                |t: TokenView| analyze_token(t, *lex),
            ));
        }
        i = i + 1;
    }
    assert(tokens_of(text@).take(i as int) =~= tokens_of(text@));
    out
}

/// The full word form of an analyzed token: its stem followed by its suffix.
pub open spec fn surface(t: AnalyzedTokenView) -> Seq<char> {
    match t.suffix {
        Some(s) => t.stem + s,
        None => t.stem,
    }
}

impl AnalyzedToken {
    /// The full word form: stem followed by the detached suffix.
    pub fn surface(&self) -> (r: String)
        ensures
            r@ == surface(self@),
    {
        match &self.suffix {
            Some(s) => concat(self.stem.as_str(), s.as_str()),
            None => crate::text::owned(self.stem.as_str()),
        }
    }
}

/// Analyzed tokens lie inside the text, and start no later than they end.
pub proof fn lemma_analyzed_well_formed(s: Seq<char>, lex: Lexicon)
    ensures
        forall|i: int|
            0 <= i < analyzed_tokens_of(s, lex).len() ==> 0 <= (#[trigger] analyzed_tokens_of(s, lex)[i]).start
                <= analyzed_tokens_of(s, lex)[i].end <= byte_len(s),
{
    crate::tokenizer::lemma_tokens_well_formed(s);
    assert forall|i: int| 0 <= i < analyzed_tokens_of(s, lex).len() implies 0 <= (
    #[trigger] analyzed_tokens_of(s, lex)[i]).start <= analyzed_tokens_of(s, lex)[i].end <= byte_len(s) by {
        assert(analyzed_tokens_of(s, lex)[i] == analyze_token(tokens_of(s)[i], lex));
    }
}


/// Analyzed tokens come in text order: each ends no later than the next one starts.
pub proof fn lemma_analyzed_sorted(s: Seq<char>, lex: Lexicon)
    ensures
        forall|i: int, j: int|
            0 <= i < j < analyzed_tokens_of(s, lex).len() ==> (#[trigger] analyzed_tokens_of(s, lex)[i]).end
                <= (#[trigger] analyzed_tokens_of(s, lex)[j]).start,
{
    crate::tokenizer::lemma_tokens_sorted(s);
    assert forall|i: int, j: int| 0 <= i < j < analyzed_tokens_of(s, lex).len() implies (
    #[trigger] analyzed_tokens_of(s, lex)[i]).end <= (#[trigger] analyzed_tokens_of(s, lex)[j]).start by {
        assert(analyzed_tokens_of(s, lex)[i] == analyze_token(tokens_of(s)[i], lex));
        assert(analyzed_tokens_of(s, lex)[j] == analyze_token(tokens_of(s)[j], lex));
    }
}

/// A split of `word` that puts it back together: stem then a non-empty suffix.
pub open spec fn rejoins(word: Seq<char>, b: Option<(Seq<char>, Seq<char>)>) -> bool {
    match b {
        None => true,
        Some(p) => p.0 + p.1 == word && p.1.len() > 0,
    }
}

proof fn lemma_joined_push(det: Seq<Seq<char>>, sfx: Seq<char>)
    ensures
        joined_suffix(det.push(sfx)) == sfx + joined_suffix(det),
{
    assert(det.push(sfx).drop_last() =~= det);
}

proof fn lemma_search_rejoins(
    cur: Seq<char>,
    det: Seq<Seq<char>>,
    g: int,
    best: Option<(Seq<char>, Seq<char>)>,
    lex: Lexicon,
    require_supported: bool,
    word: Seq<char>,
)
    requires
        cur + joined_suffix(det) == word,
        forall|i: int| 0 <= i < det.len() ==> (#[trigger] det[i]).len() > 0,
        rejoins(word, best),
    ensures
        rejoins(word, search_from(cur, det, g, best, lex, require_supported)),
    decreases cur.len(), group_count() - g, group_items(lex, g).len() + 1,
{
    let b1 = consider_split(cur, det, best, lex, require_supported);
    if det.len() > 0 {
        assert(det.last().len() > 0);
    }
    assert(rejoins(word, b1));
    if !(g < 0 || g >= group_count()) {
        lemma_scan_rejoins(cur, det, g, 0, b1, lex, require_supported, word);
        let b2 = scan_group(cur, det, g, 0, b1, lex, require_supported);
        lemma_search_rejoins(cur, det, g + 1, b2, lex, require_supported, word);
    }
}

proof fn lemma_scan_rejoins(
    cur: Seq<char>,
    det: Seq<Seq<char>>,
    g: int,
    k: int,
    best: Option<(Seq<char>, Seq<char>)>,
    lex: Lexicon,
    require_supported: bool,
    word: Seq<char>,
)
    requires
        cur + joined_suffix(det) == word,
        forall|i: int| 0 <= i < det.len() ==> (#[trigger] det[i]).len() > 0,
        rejoins(word, best),
    ensures
        rejoins(word, scan_group(cur, det, g, k, best, lex, require_supported)),
    decreases cur.len(), group_count() - g, group_items(lex, g).len() - k,
{
    if !(g < 0 || g >= group_count() || k < 0 || k >= group_items(lex, g).len()) {
        let sfx = group_items(lex, g)[k];
        if detachable(cur, sfx) {
            let rest = strip_suffix(cur, sfx);
            let det2 = det.push(sfx);
            let next = if group_repeatable(g) {
                g
            } else {
                g + 1
            };
            lemma_joined_push(det, sfx);
            assert(rest + sfx =~= cur);
            assert(rest + joined_suffix(det2) =~= word);
            assert forall|i: int| 0 <= i < det2.len() implies (#[trigger] det2[i]).len() > 0 by {
                if i < det.len() {
                    assert(det2[i] == det[i]);
                }
            }
            lemma_search_rejoins(rest, det2, next, best, lex, require_supported, word);
            let b1 = search_from(rest, det2, next, best, lex, require_supported);
            lemma_search_rejoins(rest, det2, g + 1, b1, lex, require_supported, word);
            let b2 = search_from(rest, det2, g + 1, b1, lex, require_supported);
            lemma_scan_rejoins(cur, det, g, k + 1, b2, lex, require_supported, word);
        } else {
            lemma_scan_rejoins(cur, det, g, k + 1, best, lex, require_supported, word);
        }
    }
}

/// The best split of a word puts the word back together, and its suffix is
/// never empty.
pub proof fn lemma_best_split_rejoins(word: Seq<char>, lex: Lexicon, require_supported: bool)
    ensures
        rejoins(word, best_split(word, lex, require_supported)),
{
    assert(word + joined_suffix(seq![]) =~= word);
    lemma_search_rejoins(word, seq![], 0, None, lex, require_supported, word);
}

/// Each analyzed token covers the same span as its plain token, its stem and
/// detached suffix put the token back together, and a detached suffix is
/// never empty.
pub proof fn lemma_analyzed_tokens_rejoin(s: Seq<char>, lex: Lexicon)
    ensures
        analyzed_tokens_of(s, lex).len() == tokens_of(s).len(),
        forall|i: int|
            0 <= i < tokens_of(s).len() ==> {
                let a = #[trigger] analyzed_tokens_of(s, lex)[i];
                &&& a.start == tokens_of(s)[i].start
                &&& a.end == tokens_of(s)[i].end
                &&& surface(a) == tokens_of(s)[i].text
                &&& (a.suffix matches Some(x) ==> x.len() > 0)
            },
{
    assert forall|i: int| 0 <= i < tokens_of(s).len() implies {
        let a = #[trigger] analyzed_tokens_of(s, lex)[i];
        &&& a.start == tokens_of(s)[i].start
        &&& a.end == tokens_of(s)[i].end
        &&& surface(a) == tokens_of(s)[i].text
        &&& (a.suffix matches Some(x) ==> x.len() > 0)
    } by {
        lemma_best_split_rejoins(tokens_of(s)[i].text, lex, true);
    }
}

} // verus!
