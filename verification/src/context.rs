//! Findings that only the sentence around a word decides: the optative
//! होस् at the end of a sentence.
use vstd::prelude::*;

use crate::affix::{
    AnalyzedToken, AnalyzedTokenView, analyzed_tokens_of, analyzed_view,
    lemma_analyzed_well_formed, surface,
};
use crate::common::{diags_view, overlaps_existing_span, overlaps_span, span_listed, spans_view};
use crate::diagnostic::{Diagnostic, DiagnosticCategory, DiagnosticView, reasons_view};
use crate::lexicon::Lexicon;
use crate::rule::{DiagnosticKind, ExplanationView, Rule, RuleView};
use crate::text::{
    byte_len, byte_slice, chars_of, concat, ends_with, is_suffix, owned, slice_bytes,
    str_byte_len, str_eq,
};
use crate::tiryak::{PassState, state_of};

verus! {

broadcast use vstd::string::group_string_axioms;

// ----- sentences -----

/// A char that ends a sentence.
pub open spec fn sentence_terminal(c: char) -> bool {
    c == '।' || c == '.' || c == '!' || c == '?' || c == '؟'
}

/// `s` holds a char that ends a sentence.
pub open spec fn has_terminal(s: Seq<char>) -> bool {
    exists|i: int| 0 <= i < s.len() && #[trigger] sentence_terminal(s[i])
}

fn holds_terminal(s: &str) -> (r: bool)
    ensures
        r == has_terminal(s@),
{
    let v = chars_of(s);
    let mut i: usize = 0;
    while i < v.len()
        invariant
            i <= v.len(),
            v@ == s@,
            forall|j: int| 0 <= j < i ==> !#[trigger] sentence_terminal(s@[j]),
        decreases v.len() - i,
    {
        let c = v[i];
        if c == '।' || c == '.' || c == '!' || c == '?' || c == '؟' {
            assert(sentence_terminal(s@[i as int]));
            return true;
        }
        i = i + 1;
    }
    false
}

/// The gap after token `idx` (up to the next token, or to the end of the
/// text) holds a char that ends a sentence.
pub open spec fn ends_sentence(text: Seq<char>, toks: Seq<AnalyzedTokenView>, idx: int) -> bool {
    let a = toks[idx].end;
    let b = if idx + 1 < toks.len() { toks[idx + 1].start } else { byte_len(text) as int };
    a <= b && has_terminal(byte_slice(text, a, b))
}

/// The sentences closed among the first `n` tokens, as token ranges, and the
/// first token of the sentence still open.
pub open spec fn closed_sentences(text: Seq<char>, toks: Seq<AnalyzedTokenView>, n: int) -> (Seq<(int, int)>, int)
    decreases n,
{
    if n <= 0 {
        (seq![], 0)
    } else {
        let (done, open) = closed_sentences(text, toks, n - 1);
        if ends_sentence(text, toks, n - 1) {
            (done.push((open, n)), n)
        } else {
            (done, open)
        }
    }
}

/// The sentences of `text` as `[first, end)` ranges of its tokens: each ends
/// with a token followed by a sentence-ending char, and the tokens after the
/// last such one form a sentence of their own.
pub open spec fn sentences_of(text: Seq<char>, toks: Seq<AnalyzedTokenView>) -> Seq<(int, int)> {
    let (done, open) = closed_sentences(text, toks, toks.len() as int);
    if open < toks.len() {
        done.push((open, toks.len() as int))
    } else {
        done
    }
}

/// Token ranges by value.
pub open spec fn ranges_view(v: Seq<(usize, usize)>) -> Seq<(int, int)> {
    v.map_values(|p: (usize, usize)| (p.0 as int, p.1 as int))
}

proof fn lemma_closed_sentences_bounds(text: Seq<char>, toks: Seq<AnalyzedTokenView>, n: int)
    requires
        0 <= n,
    ensures
        0 <= closed_sentences(text, toks, n).1 <= n,
        forall|k: int|
            0 <= k < closed_sentences(text, toks, n).0.len() ==> 0 <= (#[trigger] closed_sentences(text, toks, n).0[k]).0
                < closed_sentences(text, toks, n).0[k].1 <= closed_sentences(text, toks, n).1,
    decreases n,
{
    if n > 0 {
        lemma_closed_sentences_bounds(text, toks, n - 1);
    }
}

/// Split the tokens of `text` into sentences.
pub fn sentence_spans(text: &str, tokens: &Vec<AnalyzedToken>) -> (r: Vec<(usize, usize)>)
    ensures
        ranges_view(r@) == sentences_of(text@, analyzed_view(tokens@)),
{
    let ghost toks = analyzed_view(tokens@);
    let total = str_byte_len(text);
    let mut out: Vec<(usize, usize)> = Vec::new();
    let mut open: usize = 0;
    let mut idx: usize = 0;
    assert(ranges_view(out@) =~= Seq::<(int, int)>::empty());
    while idx < tokens.len()
        invariant
            idx <= tokens.len(),
            toks == analyzed_view(tokens@),
            total == byte_len(text@),
            open <= idx,
            closed_sentences(text@, toks, idx as int) == (ranges_view(out@), open as int),
        decreases tokens.len() - idx,
    {
        let a = tokens[idx].end;
        let b = if idx + 1 < tokens.len() { tokens[idx + 1].start } else { total };
        assert(toks[idx as int].end == a);
        assert(idx + 1 < tokens.len() ==> toks[idx + 1].start == b);
        let closes = a <= b && holds_terminal(slice_bytes(text, a, b).as_str());
        proof {
            lemma_closed_sentences_bounds(text@, toks, idx as int);
        }
        if closes {
            let ghost before = out@;
            out.push((open, idx + 1));
            assert(ranges_view(out@) =~= ranges_view(before).push((open as int, idx + 1)));
            open = idx + 1;
        }
        idx = idx + 1;
    }
    if open < tokens.len() {
        let ghost before = out@;
        out.push((open, tokens.len()));
        assert(ranges_view(out@) =~= ranges_view(before).push((open as int, tokens.len() as int)));
    }
    out
}

// ----- the optative होस् -----

/// A word form that ends in a case or possessive marker, or is a possessive pronoun.
pub open spec fn possessive_or_case_marked(s: Seq<char>) -> bool {
    ||| is_suffix("को"@, s) || is_suffix("का"@, s) || is_suffix("की"@, s)
    ||| s == "मेरो"@ || s == "तेरो"@ || s == "उसको"@ || s == "उनको"@ || s == "हाम्रो"@ || s == "तिम्रो"@
    ||| s == "तपाईंको"@ || s == "आफ्नो"@ || s == "यिनको"@ || s == "तिनको"@
}

/// A word form that ends like a finite verb.
pub open spec fn finite_verb(s: Seq<char>) -> bool {
    ||| is_suffix("छ"@, s) || is_suffix("छन्"@, s) || is_suffix("छु"@, s) || is_suffix("छौ"@, s)
    ||| is_suffix("थियो"@, s) || is_suffix("गयो"@, s) || is_suffix("आयो"@, s) || is_suffix("भयो"@, s)
    ||| is_suffix("गर्यो"@, s) || is_suffix("गर्छ"@, s)
}

/// A word after which a sentence-final होस is the optative: neither a case
/// or possessive form nor a finite verb.
pub open spec fn final_predicate_context(p: Seq<char>) -> bool {
    !possessive_or_case_marked(p) && !finite_verb(p)
}

fn looks_like_case_marked_or_possessive(s: &str) -> (r: bool)
    ensures
        r == possessive_or_case_marked(s@),
{
    ends_with(s, "को") || ends_with(s, "का") || ends_with(s, "की") || str_eq(s, "मेरो") || str_eq(s, "तेरो")
        || str_eq(s, "उसको") || str_eq(s, "उनको") || str_eq(s, "हाम्रो") || str_eq(s, "तिम्रो") || str_eq(
        s,
        "तपाईंको",
    ) || str_eq(s, "आफ्नो") || str_eq(s, "यिनको") || str_eq(s, "तिनको")
}

fn looks_like_finite_verb(s: &str) -> (r: bool)
    ensures
        r == finite_verb(s@),
{
    ends_with(s, "छ") || ends_with(s, "छन्") || ends_with(s, "छु") || ends_with(s, "छौ") || ends_with(s, "थियो")
        || ends_with(s, "गयो") || ends_with(s, "आयो") || ends_with(s, "भयो") || ends_with(s, "गर्यो") || ends_with(
        s,
        "गर्छ",
    )
}

/// Whether a sentence-final होस after the word `p` is the optative.
pub fn looks_like_final_predicate_context(p: &str) -> (r: bool)
    ensures
        r == final_predicate_context(p@),
{
    !looks_like_case_marked_or_possessive(p) && !looks_like_finite_verb(p)
}

/// The explanation when the phrase with होस् is attested.
pub open spec fn phrase_hos_explanation() -> Seq<char> {
    "वाक्यको अन्त्यमा कामना/आशीर्वादसूचक प्रयोगमा 'होस्' लेखिन्छ"@
}

/// The explanation when the word before होस is a predicate.
pub open spec fn structural_hos_explanation() -> Seq<char> {
    "वाक्यको अन्त्यमा कामना/काम्य अर्थ दिने क्रियापदमा 'होस्' लेखिन्छ"@
}

/// The finding that writes होस on the bytes `span` of `text` as होस्.
pub open spec fn hos_finding(text: Seq<char>, span: (int, int), explanation: Seq<char>, confidence: int) -> DiagnosticView {
    DiagnosticView {
        span,
        incorrect: byte_slice(text, span.0, span.1),
        correction: "होस्"@,
        rule: RuleView::VarnaVinyasNiyam("3(ङ)-context-होस्"@),
        explanation,
        category: DiagnosticCategory::Halanta,
        kind: DiagnosticKind::Error,
        confidence_permille: confidence,
        alternate_reasons: seq![],
    }
}

/// The finding for the sentence `s` (a range of tokens of at least two):
/// its last word is होस, and the phrase of the word before with होस् is
/// attested, or the word before is a predicate.
pub open spec fn sentence_finding(
    text: Seq<char>,
    toks: Seq<AnalyzedTokenView>,
    s: (int, int),
    lex: Lexicon,
) -> Option<DiagnosticView> {
    if s.1 - s.0 < 2 || surface(toks[s.1 - 1]) != "होस"@ {
        None
    } else {
        let t = toks[s.1 - 1];
        let p = surface(toks[s.1 - 2]);
        if lex.supports(p + " होस्"@) {
            Some(hos_finding(text, (t.start, t.end), phrase_hos_explanation(), 970))
        } else if final_predicate_context(p) {
            Some(hos_finding(text, (t.start, t.end), structural_hos_explanation(), 890))
        } else {
            None
        }
    }
}

/// The state after the finding for sentence `s`, if any: reported unless
/// its span is blocked or overlaps a finding.
pub open spec fn sentence_step(
    text: Seq<char>,
    toks: Seq<AnalyzedTokenView>,
    lex: Lexicon,
    st: PassState,
    s: (int, int),
) -> PassState {
    match sentence_finding(text, toks, s, lex) {
        Some(d) => if st.blocked.contains(d.span) || overlaps_span(st.diags, d.span) {
            st
        } else {
            PassState { diags: st.diags.push(d), blocked: st.blocked.push(d.span) }
        },
        None => st,
    }
}

/// The sentences `ss`, looked at in order.
pub open spec fn context_pass_over(
    text: Seq<char>,
    toks: Seq<AnalyzedTokenView>,
    lex: Lexicon,
    st: PassState,
    ss: Seq<(int, int)>,
) -> PassState
    decreases ss.len(),
{
    if ss.len() == 0 {
        st
    } else {
        sentence_step(text, toks, lex, context_pass_over(text, toks, lex, st, ss.drop_last()), ss.last())
    }
}

/// The sentence-context pass over `text`.
pub open spec fn context_pass(text: Seq<char>, lex: Lexicon, st: PassState) -> PassState {
    let toks = analyzed_tokens_of(text, lex);
    context_pass_over(text, toks, lex, st, sentences_of(text, toks))
}

proof fn lemma_sentences_bounds(text: Seq<char>, toks: Seq<AnalyzedTokenView>)
    ensures
        forall|k: int|
            0 <= k < sentences_of(text, toks).len() ==> 0 <= (#[trigger] sentences_of(text, toks)[k]).0
                < sentences_of(text, toks)[k].1 <= toks.len(),
{
    lemma_closed_sentences_bounds(text, toks, toks.len() as int);
    let (done, open) = closed_sentences(text, toks, toks.len() as int);
    if open < toks.len() {
        assert forall|k: int| 0 <= k < sentences_of(text, toks).len() implies 0 <= (
        #[trigger] sentences_of(text, toks)[k]).0 < sentences_of(text, toks)[k].1 <= toks.len() by {
            if k < done.len() {
                assert(sentences_of(text, toks)[k] == done[k]);
            }
        }
    }
}

fn sentence_candidate(
    text: &str,
    tokens: &Vec<AnalyzedToken>,
    s: (usize, usize),
    lex: &Lexicon,
) -> (r: Option<Diagnostic>)
    requires
        s.0 < s.1 <= tokens.len(),
        forall|i: int| 0 <= i < tokens.len() ==> (#[trigger] tokens@[i]).start <= tokens@[i].end,
    ensures
        match r {
            Some(d) => sentence_finding(text@, analyzed_view(tokens@), (s.0 as int, s.1 as int), *lex) == Some(d@),
            None => sentence_finding(text@, analyzed_view(tokens@), (s.0 as int, s.1 as int), *lex) is None,
        },
{
    let ghost toks = analyzed_view(tokens@);
    if s.1 - s.0 < 2 {
        return None;
    }
    let last = &tokens[s.1 - 1];
    assert(toks[s.1 - 1] == last@);
    if !str_eq(last.surface().as_str(), "होस") {
        return None;
    }
    let prev = tokens[s.1 - 2].surface();
    assert(toks[s.1 - 2] == tokens@[s.1 - 2]@);
    let phrase = concat(prev.as_str(), " होस्");
    let (explanation, confidence) = if lex.is_supported(phrase.as_str()) {
        ("वाक्यको अन्त्यमा कामना/आशीर्वादसूचक प्रयोगमा 'होस्' लेखिन्छ", 970u16)
    } else if looks_like_final_predicate_context(prev.as_str()) {
        ("वाक्यको अन्त्यमा कामना/काम्य अर्थ दिने क्रियापदमा 'होस्' लेखिन्छ", 890u16)
    } else {
        return None;
    };
    let span = (last.start, last.end);
    let d = Diagnostic {
        span,
        incorrect: slice_bytes(text, span.0, span.1),
        correction: owned("होस्"),
        rule: Rule::VarnaVinyasNiyam("3(ङ)-context-होस्"),
        explanation: owned(explanation),
        category: DiagnosticCategory::Halanta,
        kind: DiagnosticKind::Error,
        confidence_permille: confidence,
        alternate_reasons: Vec::new(),
    };
    assert(reasons_view(d.alternate_reasons@) =~= Seq::<ExplanationView>::empty());
    Some(d)
}

/// Report the sentence-context findings of `text`: a sentence-final होस that
/// is an optative is written होस्, unless its span is taken.
pub fn add_context_diagnostics(
    text: &str,
    tokens: &Vec<AnalyzedToken>,
    lex: &Lexicon,
    blocked: &mut Vec<(usize, usize)>,
    diagnostics: &mut Vec<Diagnostic>,
)
    requires
        analyzed_view(tokens@) == analyzed_tokens_of(text@, *lex),
    ensures
        state_of(final(diagnostics)@, final(blocked)@) == context_pass(text@, *lex, state_of(old(diagnostics)@, old(blocked)@)),
{
    let ghost toks = analyzed_view(tokens@);
    let ghost st0 = state_of(diagnostics@, blocked@);
    proof {
        lemma_analyzed_well_formed(text@, *lex);
        assert forall|i: int| 0 <= i < tokens.len() implies (#[trigger] tokens@[i]).start <= tokens@[i].end by {
            assert(toks[i] == tokens@[i]@);
        }
        lemma_sentences_bounds(text@, toks);
    }
    let sentences = sentence_spans(text, tokens);
    let ghost ss = ranges_view(sentences@);
    let mut k: usize = 0;
    assert(ss.take(0) =~= Seq::<(int, int)>::empty());
    while k < sentences.len()
        invariant
            k <= sentences.len(),
            toks == analyzed_view(tokens@),
            ss == ranges_view(sentences@),
            ss == sentences_of(text@, toks),
            forall|i: int| 0 <= i < tokens.len() ==> (#[trigger] tokens@[i]).start <= tokens@[i].end,
            forall|j: int| 0 <= j < ss.len() ==> 0 <= (#[trigger] ss[j]).0 < ss[j].1 <= toks.len(),
            state_of(diagnostics@, blocked@) == context_pass_over(text@, toks, *lex, st0, ss.take(k as int)),
        decreases sentences.len() - k,
    {
        let s = sentences[k];
        proof {
            assert(ss[k as int] == (s.0 as int, s.1 as int));
            assert(ss.take(k + 1).drop_last() =~= ss.take(k as int));
            assert(ss.take(k + 1).last() == ss[k as int]);
        }
        if let Some(d) = sentence_candidate(text, tokens, s, lex) {
            let span = d.span;
            if !span_listed(blocked, span) && !overlaps_existing_span(diagnostics, span) {
                let ghost d0 = diagnostics@;
                let ghost b0 = blocked@;
                let ghost dv = d@;
                diagnostics.push(d);
                blocked.push(span);
                assert(diags_view(diagnostics@) =~= diags_view(d0).push(dv));
                assert(spans_view(blocked@) =~= spans_view(b0).push((span.0 as int, span.1 as int)));
            }
        }
        k = k + 1;
    }
    assert(ss.take(k as int) =~= ss);
}


// ----- what the context pass promises -----

/// `st2` extends `st` by optative findings only: the findings and blocked
/// spans of `st` stay in place, and each finding added writes होस् under the
/// sentence-context rule, with its span blocked.
pub open spec fn hos_extension(st: PassState, st2: PassState) -> bool {
    &&& st.diags.len() <= st2.diags.len()
    &&& st2.diags.take(st.diags.len() as int) == st.diags
    &&& st.blocked.len() <= st2.blocked.len()
    &&& st2.blocked.take(st.blocked.len() as int) == st.blocked
    &&& forall|i: int|
        st.diags.len() <= i < st2.diags.len() ==> {
            &&& (#[trigger] st2.diags[i]).correction == "होस्"@
            &&& st2.diags[i].rule == RuleView::VarnaVinyasNiyam("3(ङ)-context-होस्"@)
            &&& st2.diags[i].kind == DiagnosticKind::Error
            &&& st2.blocked.contains(st2.diags[i].span)
        }
}

proof fn lemma_hos_extension_trans(a: PassState, b: PassState, c: PassState)
    requires
        hos_extension(a, b),
        hos_extension(b, c),
    ensures
        hos_extension(a, c),
{
    assert(c.diags.take(a.diags.len() as int) =~= c.diags.take(b.diags.len() as int).take(a.diags.len() as int));
    assert(c.blocked.take(a.blocked.len() as int) =~= c.blocked.take(b.blocked.len() as int).take(a.blocked.len() as int));
    assert forall|i: int| a.diags.len() <= i < c.diags.len() implies {
        &&& (#[trigger] c.diags[i]).correction == "होस्"@
        &&& c.diags[i].rule == RuleView::VarnaVinyasNiyam("3(ङ)-context-होस्"@)
        &&& c.diags[i].kind == DiagnosticKind::Error
        &&& c.blocked.contains(c.diags[i].span)
    } by {
        if i < b.diags.len() {
            assert(c.diags.take(b.diags.len() as int)[i] == c.diags[i]);
            let j = choose|j: int| 0 <= j < b.blocked.len() && b.blocked[j] == b.diags[i].span;
            assert(c.blocked.take(b.blocked.len() as int)[j] == c.blocked[j]);
        }
    }
}

proof fn lemma_sentence_step_writes_hos(text: Seq<char>, toks: Seq<AnalyzedTokenView>, lex: Lexicon, st: PassState, s: (int, int))
    ensures
        hos_extension(st, sentence_step(text, toks, lex, st, s)),
{
    assert(st.diags.take(st.diags.len() as int) =~= st.diags);
    assert(st.blocked.take(st.blocked.len() as int) =~= st.blocked);
    if let Some(d) = sentence_finding(text, toks, s, lex) {
        let st2 = PassState { diags: st.diags.push(d), blocked: st.blocked.push(d.span) };
        assert(st2.diags.take(st.diags.len() as int) =~= st.diags);
        assert(st2.blocked.take(st.blocked.len() as int) =~= st.blocked);
        assert(st2.blocked[st.blocked.len() as int] == d.span);
    }
}

proof fn lemma_context_over_writes_hos(text: Seq<char>, toks: Seq<AnalyzedTokenView>, lex: Lexicon, st: PassState, ss: Seq<(int, int)>)
    ensures
        hos_extension(st, context_pass_over(text, toks, lex, st, ss)),
    decreases ss.len(),
{
    assert(st.diags.take(st.diags.len() as int) =~= st.diags);
    assert(st.blocked.take(st.blocked.len() as int) =~= st.blocked);
    if ss.len() > 0 {
        let prev = context_pass_over(text, toks, lex, st, ss.drop_last());
        lemma_context_over_writes_hos(text, toks, lex, st, ss.drop_last());
        lemma_sentence_step_writes_hos(text, toks, lex, prev, ss.last());
        lemma_hos_extension_trans(st, prev, context_pass_over(text, toks, lex, st, ss));
    }
}

/// The sentence-context pass only adds: every finding and blocked span from
/// before stays in place, and each finding it adds is a firm correction to
/// होस् under the sentence-context rule, with its span blocked.
pub proof fn lemma_context_pass_only_writes_hos(text: Seq<char>, lex: Lexicon, st: PassState)
    ensures
        hos_extension(st, context_pass(text, lex, st)),
{
    let toks = analyzed_tokens_of(text, lex);
    lemma_context_over_writes_hos(text, toks, lex, st, sentences_of(text, toks));
}

} // verus!
