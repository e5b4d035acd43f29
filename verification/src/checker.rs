//! Checking words and whole texts.
use vstd::prelude::*;

use crate::affix::{
    AnalyzedTokenView, analyzed_tokens_of, analyzed_view, best_detachment_candidate,
    best_split, best_supported_detachment, tokenize_analyzed,
};
use crate::arbitration::{
    arbitrated, drop_noop_heuristics, lemma_sort_by_start_sorted, resolve_diagnostic_overlaps,
    sort_by_span_start, sort_by_start, sorted_by_start, without_noops,
};
use crate::common::{diags_view, spans_view};
use crate::context::{add_context_diagnostics, context_pass};
use crate::style_variants::{add_style_variant_diagnostics, style_pass};
use crate::diagnostic::{Diagnostic, DiagnosticCategory, DiagnosticView, reasons_view};
use crate::engine::{derivation, rule_hits};
use crate::lexicon::Lexicon;
use crate::structural::{panchham_rewrite, write_panchham};
use crate::generalized::{add_generalized_padayog_padabiyog_diagnostics, general_pass};
use crate::padayog::{add_padayog_padabiyog_diagnostics, rules_pass};
use crate::padayog_rules::padayog_table;
use crate::rule::{DiagnosticKind, ExplanationView, Rule, RuleView};
use crate::text::{
    byte_len, char_count, concat, is_prefix, owned, skip_chars, starts_with, str_byte_len, str_eq,
};
use crate::tiryak::{PassState, add_tiryak_diagnostics, check_word_tiryak, state_of, tiryak_pass, word_tiryak};
use crate::word_level::{
    adjust_context_sensitive_nga_halanta_rule, ambiguous_halanta_stem, check_word_impl,
    context_halanta_message, diag_view, is_numeric_word, word_diagnostic,
};

verus! {

broadcast use vstd::string::group_string_axioms;

/// How Section 5 punctuation diagnostics should be classified.
#[derive(Debug, Clone, Copy, PartialEq, Eq, Structural)]
pub enum PunctuationMode {
    /// Punctuation deviations are errors.
    Strict,
    /// Punctuation deviations are editorial variants.
    NormalizedEditorial,
}

impl Default for PunctuationMode {
    fn default() -> (m: PunctuationMode)
        ensures
            m == PunctuationMode::Strict,
    {
        PunctuationMode::Strict
    }
}

/// How orthographic findings on reviewed common forms are classified.
#[derive(Debug, Clone, Copy, PartialEq, Eq, Structural)]
pub enum OrthographyMode {
    /// Academy-strict orthography: every deviation is an error.
    AcademyStrict,
    /// Common editorial practice: reviewed common forms are editorial
    /// variants rather than errors.
    CommonEditorial,
}

impl Default for OrthographyMode {
    fn default() -> (m: OrthographyMode)
        ensures
            m == OrthographyMode::AcademyStrict,
    {
        OrthographyMode::AcademyStrict
    }
}

/// Runtime options for `check_text_with_options`.
#[derive(Debug, Clone, Copy)]
pub struct CheckOptions {
    /// Enable optional grammar-aware heuristics: the Section 4 style
    /// suggestions.
    pub grammar: bool,
    /// How Section 5 punctuation diagnostics should be classified.
    pub punctuation_mode: PunctuationMode,
    /// Academy-strict or common-editorial orthography.
    pub orthography_mode: OrthographyMode,
    /// Debug-only: include heuristic diagnostics that do not change text.
    pub include_noop_heuristics: bool,
}

/// The default options: no style suggestions, strict punctuation,
/// Academy-strict orthography, no no-op heuristics.
pub open spec fn default_options() -> CheckOptions {
    CheckOptions {
        grammar: false,
        punctuation_mode: PunctuationMode::Strict,
        orthography_mode: OrthographyMode::AcademyStrict,
        include_noop_heuristics: false,
    }
}

impl Default for CheckOptions {
    fn default() -> (o: CheckOptions)
        ensures
            o == default_options(),
    {
        CheckOptions {
            grammar: false,
            punctuation_mode: PunctuationMode::Strict,
            orthography_mode: OrthographyMode::AcademyStrict,
            include_noop_heuristics: false,
        }
    }
}

/// A punctuation deviation found in a text (Section 5): where, what stands
/// there, what should, and the rule it breaks.
#[derive(Debug)]
pub struct PunctuationFinding {
    /// Byte offset span (start, end) in the text.
    pub span: (usize, usize),
    /// The punctuation found.
    pub found: String,
    /// The punctuation expected.
    pub expected: String,
    /// The punctuation rule, as text.
    pub rule: String,
}

impl Clone for PunctuationFinding {
    fn clone(&self) -> (f: PunctuationFinding) {
        PunctuationFinding {
            span: (self.span.0, self.span.1),
            found: self.found.clone(),
            expected: self.expected.clone(),
            rule: self.rule.clone(),
        }
    }
}

/// The content of a [`PunctuationFinding`].
pub ghost struct FindingView {
    pub span: (int, int),
    pub found: Seq<char>,
    pub expected: Seq<char>,
    pub rule: Seq<char>,
}

impl View for PunctuationFinding {
    type V = FindingView;

    open spec fn view(&self) -> FindingView {
        FindingView {
            span: (self.span.0 as int, self.span.1 as int),
            found: self.found@,
            expected: self.expected@,
            rule: self.rule@,
        }
    }
}

/// Findings by content.
pub open spec fn findings_view(v: Seq<PunctuationFinding>) -> Seq<FindingView> {
    v.map_values(|f: PunctuationFinding| f@)
}

/// The severity of punctuation findings under a mode.
pub open spec fn punctuation_kind(mode: PunctuationMode) -> DiagnosticKind {
    match mode {
        PunctuationMode::Strict => DiagnosticKind::Error,
        PunctuationMode::NormalizedEditorial => DiagnosticKind::Variant,
    }
}

/// The confidence (in thousandths) of punctuation findings under a mode.
pub open spec fn punctuation_confidence(mode: PunctuationMode) -> int {
    match mode {
        PunctuationMode::Strict => 1000,
        PunctuationMode::NormalizedEditorial => 720,
    }
}

/// The diagnostic for a punctuation finding.
pub open spec fn finding_diagnostic(f: FindingView, kind: DiagnosticKind, confidence: int) -> DiagnosticView {
    DiagnosticView {
        span: f.span,
        incorrect: f.found,
        correction: f.expected,
        rule: RuleView::ChihnaNiyam("Section 5"@),
        explanation: f.rule,
        category: DiagnosticCategory::Punctuation,
        kind,
        confidence_permille: confidence,
        alternate_reasons: seq![],
    }
}

/// The diagnostics for punctuation findings, in order.
pub open spec fn punctuation_view(fs: Seq<FindingView>, kind: DiagnosticKind, confidence: int) -> Seq<DiagnosticView> {
    fs.map_values(|f: FindingView| finding_diagnostic(f, kind, confidence))
}

/// The diagnostics for the punctuation findings of a text.
pub fn punctuation_diagnostics(findings: &Vec<PunctuationFinding>, kind: DiagnosticKind, confidence_permille: u16) -> (r:
    Vec<Diagnostic>)
    ensures
        diags_view(r@) == punctuation_view(findings_view(findings@), kind, confidence_permille as int),
{
    let mut out: Vec<Diagnostic> = Vec::new();
    let mut i: usize = 0;
    while i < findings.len()
        invariant
            i <= findings.len(),
            diags_view(out@) == punctuation_view(findings_view(findings@).take(i as int), kind, confidence_permille as int),
        decreases findings.len() - i,
    {
        let f = &findings[i];
        let d = Diagnostic {
            span: f.span,
            incorrect: owned(f.found.as_str()),
            correction: owned(f.expected.as_str()),
            rule: Rule::ChihnaNiyam("Section 5"),
            explanation: owned(f.rule.as_str()),
            category: DiagnosticCategory::Punctuation,
            kind,
            confidence_permille,
            alternate_reasons: Vec::new(),
        };
        assert(reasons_view(d.alternate_reasons@) =~= Seq::<ExplanationView>::empty());
        let ghost o0 = out@;
        out.push(d);
        proof {
            assert(findings_view(findings@)[i as int] == f@);
            assert(findings_view(findings@).take(i + 1) =~= findings_view(findings@).take(i as int).push(f@));
            assert(diags_view(out@) =~= diags_view(o0).push(d@));
            assert(diags_view(out@) =~= punctuation_view(findings_view(findings@).take(i + 1), kind, confidence_permille as int));
        }
        i = i + 1;
    }
    assert(findings_view(findings@).take(i as int) =~= findings_view(findings@));
    out
}

// ----- orthography mode -----

/// A reviewed common form and its strict form: forms in wide editorial use
/// whose strict spelling the table or the dictionary gives.
pub open spec fn reviewed_pair(common: Seq<char>, strict: Seq<char>) -> bool {
    ||| (common == "संघीय"@ && strict == "सङ्घीय"@)
    ||| (common == "कांग्रेस"@ && strict == "काङ्ग्रेस"@)
    ||| (common == "संसद"@ && strict == "संसद्"@)
}

/// A correction that common editorial practice leaves optional: a reviewed
/// common form, or an anusvara written where the strict form has the
/// panchham varna of the following stop.
pub open spec fn editorial_variant(incorrect: Seq<char>, correction: Seq<char>) -> bool {
    reviewed_pair(incorrect, correction) || (correction != incorrect && correction
        == panchham_rewrite(incorrect))
}

/// `d` as classified under `mode`: in common-editorial mode an error that
/// is an editorial variant becomes a variant.
pub open spec fn under_mode(d: DiagnosticView, mode: OrthographyMode) -> DiagnosticView {
    if mode == OrthographyMode::CommonEditorial && d.kind == DiagnosticKind::Error
        && editorial_variant(d.incorrect, d.correction) {
        DiagnosticView { kind: DiagnosticKind::Variant, ..d }
    } else {
        d
    }
}

/// The orthographic findings `ds` as classified under `mode`.
pub open spec fn orthography_view(ds: Seq<DiagnosticView>, mode: OrthographyMode) -> Seq<
    DiagnosticView,
> {
    ds.map_values(|d: DiagnosticView| under_mode(d, mode))
}

/// In common-editorial mode an error that writes संघीय as सङ्घीय, कांग्रेस
/// as काङ्ग्रेस or संसद as संसद्, or that only writes an anusvara before a
/// stop as that stop's panchham varna, becomes a variant; any other finding,
/// and every finding in Academy-strict mode, keeps its severity.
pub proof fn lemma_editorial_mode_relaxes_reviewed_forms(d: DiagnosticView, mode: OrthographyMode)
    ensures
        (mode == OrthographyMode::CommonEditorial && d.kind == DiagnosticKind::Error && (
        (d.incorrect == "संघीय"@ && d.correction == "सङ्घीय"@) || (d.incorrect == "कांग्रेस"@
            && d.correction == "काङ्ग्रेस"@) || (d.incorrect == "संसद"@ && d.correction == "संसद्"@)
            || (d.correction != d.incorrect && d.correction == panchham_rewrite(d.incorrect))))
            ==> under_mode(d, mode).kind == DiagnosticKind::Variant,
        !(d.incorrect == "संघीय"@ || d.incorrect == "कांग्रेस"@ || d.incorrect == "संसद"@)
            && d.correction != panchham_rewrite(d.incorrect) ==> under_mode(d, mode) == d,
        mode == OrthographyMode::AcademyStrict ==> under_mode(d, mode) == d,
{
}

/// The orthography mode keeps every finding where it is and changes at most
/// its severity, from error to variant; Academy-strict mode changes nothing.
pub proof fn lemma_orthography_mode_only_relaxes(ds: Seq<DiagnosticView>, mode: OrthographyMode)
    ensures
        orthography_view(ds, mode).len() == ds.len(),
        forall|i: int|
            0 <= i < ds.len() ==> #[trigger] orthography_view(ds, mode)[i] == ds[i] || (ds[i].kind
                == DiagnosticKind::Error && orthography_view(ds, mode)[i] == DiagnosticView {
                kind: DiagnosticKind::Variant,
                ..ds[i]
            }),
        mode == OrthographyMode::AcademyStrict ==> orthography_view(ds, mode) == ds,
{
    if mode == OrthographyMode::AcademyStrict {
        assert(orthography_view(ds, mode) =~= ds);
    }
}

/// Whether common editorial practice leaves the correction of `incorrect`
/// to `correction` optional.
pub fn is_editorial_variant(incorrect: &str, correction: &str) -> (r: bool)
    ensures
        r == editorial_variant(incorrect@, correction@),
{
    proof {
        reveal_strlit("संघीय");
        reveal_strlit("सङ्घीय");
        reveal_strlit("कांग्रेस");
        reveal_strlit("काङ्ग्रेस");
        reveal_strlit("संसद");
        reveal_strlit("संसद्");
    }
    if (str_eq(incorrect, "संघीय") && str_eq(correction, "सङ्घीय")) || (str_eq(incorrect, "कांग्रेस")
        && str_eq(correction, "काङ्ग्रेस")) || (str_eq(incorrect, "संसद") && str_eq(
        correction,
        "संसद्",
    )) {
        return true;
    }
    if str_eq(incorrect, correction) {
        return false;
    }
    let written = write_panchham(incorrect);
    str_eq(written.as_str(), correction)
}

/// Classify the orthographic findings under `mode`.
pub fn apply_orthography_mode(diagnostics: &mut Vec<Diagnostic>, mode: OrthographyMode)
    ensures
        diags_view(final(diagnostics)@) == orthography_view(diags_view(old(diagnostics)@), mode),
{
    let ghost orig = diags_view(diagnostics@);
    let mut rest: Vec<Diagnostic> = Vec::new();
    std::mem::swap(&mut rest, diagnostics);
    let n = rest.len();
    let mut i: usize = 0;
    assert(diags_view(diagnostics@) =~= orthography_view(orig.take(0), mode));
    assert(diags_view(rest@) =~= orig.skip(0));
    while i < n
        invariant
            n == orig.len(),
            i <= n,
            rest.len() == n - i,
            diags_view(rest@) == orig.skip(i as int),
            diags_view(diagnostics@) == orthography_view(orig.take(i as int), mode),
        decreases n - i,
    {
        let ghost r0 = rest@;
        let mut d = rest.remove(0);
        proof {
            assert(diags_view(r0)[0] == d@);
            assert forall|k: int| 0 <= k < rest@.len() implies #[trigger] diags_view(rest@)[k]
                == orig.skip(i + 1)[k] by {
                assert(rest@[k] == r0[k + 1]);
                assert(diags_view(r0)[k + 1] == orig.skip(i as int)[k + 1]);
            }
            assert(diags_view(rest@) =~= orig.skip(i + 1));
            assert(orig.take(i + 1) =~= orig.take(i as int).push(d@));
        }
        let ghost dv = d@;
        if mode == OrthographyMode::CommonEditorial && d.kind == DiagnosticKind::Error
            && is_editorial_variant(d.incorrect.as_str(), d.correction.as_str()) {
            d.kind = DiagnosticKind::Variant;
        }
        assert(d@ == under_mode(dv, mode));
        let ghost dv2 = d@;
        let ghost d0 = diagnostics@;
        diagnostics.push(d);
        assert(diags_view(diagnostics@) =~= diags_view(d0).push(dv2));
        assert(diags_view(diagnostics@) =~= orthography_view(orig.take(i + 1), mode));
        i = i + 1;
    }
    assert(orig.take(n as int) =~= orig);
}

// ----- one word -----

/// `d` re-anchored on the whole word `w`, with correction `correction`.
pub open spec fn on_whole_word(d: DiagnosticView, w: Seq<char>, correction: Seq<char>) -> DiagnosticView {
    DiagnosticView {
        span: (0, byte_len(w) as int),
        incorrect: w,
        correction,
        rule: d.rule,
        explanation: d.explanation,
        category: d.category,
        kind: d.kind,
        confidence_permille: d.confidence_permille,
        alternate_reasons: d.alternate_reasons,
    }
}

/// What follows the analysed stem `st` in `w`: the rest of `w` when `st` is
/// a prefix of it, and nothing otherwise.
pub open spec fn analysis_rest(w: Seq<char>, st: Seq<char>) -> Seq<char> {
    if is_prefix(st, w) {
        w.skip(st.len() as int)
    } else {
        seq![]
    }
}

/// What checking the word `w` reports: the oblique-form finding first; an
/// attested word is checked as it stands; a word whose best morphological
/// analysis detaches suffixes is reported by its analysed stem, the finding
/// carried over to the whole word; otherwise a finding on a stem with
/// outer affixes detached carries over to the whole word (for a stem that is
/// only a candidate, when the corrected whole word is attested); failing
/// that, the word is checked as it stands.
pub open spec fn word_check(w: Seq<char>, lex: Lexicon) -> Option<DiagnosticView> {
    if w == "भाको"@ || w == "नभाको"@ {
        None
    } else if word_tiryak(w, lex) is Some {
        word_tiryak(w, lex)
    } else if lex.supports(w) {
        word_diagnostic(w, lex)
    } else if lex.analysis_of(w) matches Some(st) && st != w {
        let st = lex.analysis_of(w)->Some_0;
        match word_diagnostic(st, lex) {
            Some(d) => Some(on_whole_word(d, w, d.correction + analysis_rest(w, st))),
            None => None,
        }
    } else if best_split(w, lex, true) is Some && word_diagnostic(best_split(w, lex, true)->Some_0.0, lex) is Some {
        let sp = best_split(w, lex, true)->Some_0;
        let d = word_diagnostic(sp.0, lex)->Some_0;
        Some(on_whole_word(d, w, d.correction + sp.1))
    } else if best_split(w, lex, false) is Some && word_diagnostic(best_split(w, lex, false)->Some_0.0, lex) is Some
        && lex.accepts(word_diagnostic(best_split(w, lex, false)->Some_0.0, lex)->Some_0.correction + best_split(w, lex, false)->Some_0.1) {
        let sp = best_split(w, lex, false)->Some_0;
        let d = word_diagnostic(sp.0, lex)->Some_0;
        Some(on_whole_word(d, w, d.correction + sp.1))
    } else {
        word_diagnostic(w, lex)
    }
}

fn rebase(d: &mut Diagnostic, word: &str, correction: String)
    ensures
        final(d)@ == on_whole_word(old(d)@, word@, correction@),
{
    d.span = (0, str_byte_len(word));
    d.incorrect = owned(word);
    d.correction = correction;
}

/// Check a single word and return a diagnostic if it is incorrect.
///
/// Academy rules come before the lexicon: a word form that the lexicon
/// attests is still corrected when a rule says so.
pub fn check_word(word: &str, lex: &Lexicon) -> (r: Option<Diagnostic>)
    ensures
        diag_view(r) == word_check(word@, *lex),
{
    if str_eq(word, "भाको") || str_eq(word, "नभाको") {
        return None;
    }
    let t = check_word_tiryak(word, lex);
    if t.is_some() {
        return t;
    }
    if lex.is_supported(word) {
        return check_word_impl(word, lex);
    }
    if let Some(st) = lex.best_analysis(word) {
        if !str_eq(st.as_str(), word) {
            let rest = if starts_with(word, st.as_str()) {
                skip_chars(word, char_count(st.as_str()))
            } else {
                String::new()
            };
            match check_word_impl(st.as_str(), lex) {
                Some(mut d) => {
                    let c = concat(d.correction.as_str(), rest.as_str());
                    rebase(&mut d, word, c);
                    return Some(d);
                },
                None => {
                    return None;
                },
            }
        }
    }
    if let Some((stem, detached)) = best_supported_detachment(word, lex) {
        if let Some(mut d) = check_word_impl(stem.as_str(), lex) {
            let c = concat(d.correction.as_str(), detached.as_str());
            rebase(&mut d, word, c);
            return Some(d);
        }
    }
    if let Some((stem, detached)) = best_detachment_candidate(word, lex) {
        if let Some(mut d) = check_word_impl(stem.as_str(), lex) {
            let candidate = concat(d.correction.as_str(), detached.as_str());
            if lex.is_accepted(candidate.as_str()) {
                rebase(&mut d, word, candidate);
                return Some(d);
            }
        }
    }
    check_word_impl(word, lex)
}

// ----- whole texts -----

/// `d` adjusted for a bare halanta verb stem at position `idx` of `n` tokens.
pub open spec fn nga_adjusted(d: DiagnosticView, idx: int, n: int, stem: Seq<char>) -> DiagnosticView {
    if d.rule == RuleView::VarnaVinyasNiyam("3(ङ)-1"@) && ambiguous_halanta_stem(stem) && n > 1 && idx < n {
        DiagnosticView {
            kind: DiagnosticKind::Ambiguous,
            confidence_permille: 550,
            explanation: context_halanta_message(),
            ..d
        }
    } else {
        d
    }
}

/// The finding for token `t` (position `idx` of `n`), placed on the token's
/// span with its suffix reattached.
pub open spec fn token_diagnostic(d: DiagnosticView, t: AnalyzedTokenView, idx: int, n: int) -> DiagnosticView {
    let a = nga_adjusted(d, idx, n, t.stem);
    match t.suffix {
        Some(sfx) => DiagnosticView {
            span: (t.start, t.end),
            incorrect: a.incorrect + sfx,
            correction: a.correction + sfx,
            ..a
        },
        None => DiagnosticView { span: (t.start, t.end), ..a },
    }
}

/// The state after the word check of token `k` of `toks`: an inflected form
/// that is attested as a whole is skipped; a finding on the stem is reported
/// on the whole token, and blocks its span unless it is ambiguous.
pub open spec fn token_step(st: PassState, toks: Seq<AnalyzedTokenView>, k: int, lex: Lexicon) -> PassState {
    let t = toks[k];
    if t.suffix is Some && lex.has_word(t.stem + t.suffix->Some_0) {
        st
    } else {
        match word_check(t.stem, lex) {
            None => st,
            Some(d0) => {
                let d = token_diagnostic(d0, t, k, toks.len() as int);
                PassState {
                    diags: st.diags.push(d),
                    blocked: if d.kind != DiagnosticKind::Ambiguous {
                        st.blocked.push(d.span)
                    } else {
                        st.blocked
                    },
                }
            },
        }
    }
}

/// The word checks of the first `m` tokens.
pub open spec fn words_pass(toks: Seq<AnalyzedTokenView>, lex: Lexicon, m: int) -> PassState
    decreases m,
{
    if m <= 0 {
        PassState { diags: seq![], blocked: seq![] }
    } else {
        token_step(words_pass(toks, lex, m - 1), toks, m - 1, lex)
    }
}

/// Everything the checker reports for `text`, in order of span start.
pub open spec fn text_diagnostics(
    text: Seq<char>,
    lex: Lexicon,
    options: CheckOptions,
    findings: Seq<FindingView>,
) -> Seq<DiagnosticView> {
    let toks = analyzed_tokens_of(text, lex);
    let words = words_pass(toks, lex, toks.len() as int);
    let oblique = tiryak_pass(text, toks, lex, words);
    let phrases = rules_pass(text, padayog_table(), oblique);
    let general = general_pass(text, lex, phrases);
    let settled = PassState { diags: arbitrated(general.diags), blocked: general.blocked };
    let in_context = context_pass(text, lex, settled);
    let styled = if options.grammar { style_pass(text, lex, in_context) } else { in_context };
    let all = orthography_view(styled.diags, options.orthography_mode) + punctuation_view(
        findings,
        punctuation_kind(options.punctuation_mode),
        punctuation_confidence(options.punctuation_mode),
    );
    sort_by_start(if options.include_noop_heuristics { all } else { without_noops(all) })
}

/// Check a full text with runtime options: word checks on each token (stem
/// checked, full token reported), oblique forms, the (घ) phrase table, the
/// general (घ) joins and splits, arbitration against (घ) findings, the
/// sentence-context findings, the Section 4 style suggestions when grammar
/// suggestions are asked for, then the punctuation findings given for the
/// text; all ordered by span start.
#[verifier::rlimit(40)]
pub fn check_text_with_options(
    text: &str,
    lex: &Lexicon,
    options: CheckOptions,
    punctuation: &Vec<PunctuationFinding>,
) -> (r: Vec<Diagnostic>)
    ensures
        diags_view(r@) == text_diagnostics(text@, *lex, options, findings_view(punctuation@)),
        sorted_by_start(diags_view(r@)),
{
    let mut diagnostics: Vec<Diagnostic> = Vec::new();
    let mut blocked: Vec<(usize, usize)> = Vec::new();
    let tokens = tokenize_analyzed(text, lex);
    let ghost toks = analyzed_view(tokens@);
    let mut idx: usize = 0;
    assert(diags_view(diagnostics@) =~= Seq::<DiagnosticView>::empty());
    assert(spans_view(blocked@) =~= Seq::<(int, int)>::empty());
    while idx < tokens.len()
        invariant
            idx <= tokens.len(),
            toks == analyzed_view(tokens@),
            state_of(diagnostics@, blocked@) == words_pass(toks, *lex, idx as int),
        decreases tokens.len() - idx,
    {
        let token = &tokens[idx];
        assert(toks[idx as int] == token@);
        let mut skip = false;
        if let Some(sfx) = &token.suffix {
            let full = concat(token.stem.as_str(), sfx.as_str());
            if lex.contains(full.as_str()) {
                skip = true;
            }
        }
        if !skip {
            if let Some(mut diag) = check_word(token.stem.as_str(), lex) {
                let ghost d0 = diag@;
                adjust_context_sensitive_nga_halanta_rule(idx, &tokens, token, &mut diag);
                assert(diag@ == nga_adjusted(d0, idx as int, tokens@.len() as int, token.stem@));
                diag.span = (token.start, token.end);
                if let Some(sfx) = &token.suffix {
                    diag.incorrect = concat(diag.incorrect.as_str(), sfx.as_str());
                    diag.correction = concat(diag.correction.as_str(), sfx.as_str());
                }
                assert(diag@ == token_diagnostic(d0, token@, idx as int, toks.len() as int));
                let ghost dg = diagnostics@;
                let ghost bl = blocked@;
                if !(diag.kind == DiagnosticKind::Ambiguous) {
                    blocked.push(diag.span);
                    assert(spans_view(blocked@) =~= spans_view(bl).push((diag@.span.0, diag@.span.1)));
                } else {
                    assert(spans_view(blocked@) =~= spans_view(bl));
                }
                let ghost dv = diag@;
                diagnostics.push(diag);
                assert(diags_view(diagnostics@) =~= diags_view(dg).push(dv));
            }
        }
        idx = idx + 1;
    }
    assert(toks == analyzed_tokens_of(text@, *lex));
    add_tiryak_diagnostics(text, &tokens, lex, &mut blocked, &mut diagnostics);
    add_padayog_padabiyog_diagnostics(text, &mut blocked, &mut diagnostics);
    add_generalized_padayog_padabiyog_diagnostics(text, lex, &mut blocked, &mut diagnostics);
    resolve_diagnostic_overlaps(&mut diagnostics);
    add_context_diagnostics(text, &tokens, lex, &mut blocked, &mut diagnostics);
    if options.grammar {
        add_style_variant_diagnostics(text, &tokens, lex, &mut blocked, &mut diagnostics);
    }
    apply_orthography_mode(&mut diagnostics, options.orthography_mode);
    let (kind, confidence) = match options.punctuation_mode {
        PunctuationMode::Strict => (DiagnosticKind::Error, 1000u16),
        PunctuationMode::NormalizedEditorial => (DiagnosticKind::Variant, 720u16),
    };
    let mut punct = punctuation_diagnostics(punctuation, kind, confidence);
    let ghost before = diags_view(diagnostics@);
    let ghost pv = diags_view(punct@);
    diagnostics.append(&mut punct);
    assert(diags_view(diagnostics@) =~= before + pv);
    if !options.include_noop_heuristics {
        drop_noop_heuristics(&mut diagnostics);
    }
    sort_by_span_start(&mut diagnostics);
    proof {
        lemma_sort_by_start_sorted(
            if options.include_noop_heuristics {
                before + pv
            } else {
                without_noops(before + pv)
            },
        );
    }
    diagnostics
}

/// Check a full text with the default options.
pub fn check_text(text: &str, lex: &Lexicon, punctuation: &Vec<PunctuationFinding>) -> (r: Vec<Diagnostic>)
    ensures
        diags_view(r@) == text_diagnostics(text@, *lex, default_options(), findings_view(punctuation@)),
        sorted_by_start(diags_view(r@)),
{
    check_text_with_options(text, lex, CheckOptions::default(), punctuation)
}

/// When a rule fires on a word, the word check reports exactly the word's
/// derivation: its correction is what `derive` gives.
pub proof fn lemma_word_check_follows_derivation(w: Seq<char>, lex: Lexicon)
    requires
        w.len() > 0,
        !is_numeric_word(w),
        rule_hits(w, lex).len() > 0,
    ensures
        word_diagnostic(w, lex) is Some,
        word_diagnostic(w, lex)->Some_0.correction == derivation(w, lex).output,
        word_diagnostic(w, lex)->Some_0.incorrect == w,
{
}

} // verus!
