//! The general (घ) rules: joins and splits that the Academy's guidance states
//! for whole classes of words, checked on the white-space segments of a text.
use vstd::prelude::*;

use crate::checker::{check_word, word_check};
use crate::common::{
    devanagari_word, diags_view, is_devanagari_word, is_numeric_segment, is_word_boundary,
    lemma_segments_sorted, numeric_segment, overlaps_existing_span, overlaps_span, segments_of,
    span_listed, spans_view, whitespace_segments, word_boundary,
};
use crate::diagnostic::{Diagnostic, DiagnosticCategory, DiagnosticView, reasons_view};
use crate::lexicon::Lexicon;
use crate::particles::{add_particle_split, lemma_particle_step_extends, particle_step};
use crate::rule::{DiagnosticKind, ExplanationView, Rule, RuleView};
use crate::text::{
    byte_slice, char_count, chars_of, concat, concat3, contains, contains_char, ends_with,
    find_from, has_sub, is_prefix, is_suffix, lemma_find_from, owned, skip_chars, slice_bytes,
    starts_with, str_eq, string_of, strip_prefix, strip_suffix, take_chars, vec_find_from,
    vec_slice,
};
use crate::tiryak::{PassState, state_of};
use crate::tokenizer::{Token, TokenView, tokens_view};
use crate::word_level::{has_infinitive, has_known_infinitive_candidate};

verus! {

broadcast use vstd::string::group_string_axioms;

// ----- findings and the state they are reported into -----

/// A (घ) finding on the bytes `span`.
pub open spec fn phrase_finding(
    span: (int, int),
    incorrect: Seq<char>,
    correction: Seq<char>,
    explanation: Seq<char>,
    confidence: int,
) -> DiagnosticView {
    DiagnosticView {
        span,
        incorrect,
        correction,
        rule: RuleView::VarnaVinyasNiyam("3(घ)"@),
        explanation,
        category: DiagnosticCategory::ShuddhaTable,
        kind: DiagnosticKind::Error,
        confidence_permille: confidence,
        alternate_reasons: seq![],
    }
}

/// `span` is not blocked, overlaps no finding, and stands as whole words in `text`.
pub open spec fn free_span(st: PassState, text: Seq<char>, span: (int, int)) -> bool {
    !st.blocked.contains(span) && !overlaps_span(st.diags, span) && word_boundary(text, span.0, span.1)
}

/// Some finding already rewrites `span` to `correction`.
pub open spec fn same_rewrite(diags: Seq<DiagnosticView>, span: (int, int), correction: Seq<char>) -> bool {
    exists|i: int| 0 <= i < diags.len() && (#[trigger] diags[i]).span == span && diags[i].correction == correction
}

/// `st` with `d` reported and its span blocked.
pub open spec fn report(st: PassState, d: DiagnosticView) -> PassState {
    PassState { diags: st.diags.push(d), blocked: st.blocked.push(d.span) }
}

fn span_free(text: &str, blocked: &Vec<(usize, usize)>, diagnostics: &Vec<Diagnostic>, span: (usize, usize)) -> (r: bool)
    ensures
        r == free_span(state_of(diagnostics@, blocked@), text@, (span.0 as int, span.1 as int)),
{
    !span_listed(blocked, span) && !overlaps_existing_span(diagnostics, span) && is_word_boundary(text, span.0, span.1)
}

/// Whether a diagnostic already rewrites `span` to `correction`.
pub fn has_same_rewrite(diagnostics: &Vec<Diagnostic>, span: (usize, usize), correction: &str) -> (r: bool)
    ensures
        r == same_rewrite(diags_view(diagnostics@), (span.0 as int, span.1 as int), correction@),
{
    let mut i: usize = 0;
    while i < diagnostics.len()
        invariant
            i <= diagnostics.len(),
            forall|j: int|
                0 <= j < i ==> !((#[trigger] diags_view(diagnostics@)[j]).span == (span.0 as int, span.1 as int)
                    && diags_view(diagnostics@)[j].correction == correction@),
        decreases diagnostics.len() - i,
    {
        let d = &diagnostics[i];
        assert(diags_view(diagnostics@)[i as int] == d@);
        if d.span.0 == span.0 && d.span.1 == span.1 && str_eq(d.correction.as_str(), correction) {
            return true;
        }
        i = i + 1;
    }
    false
}

pub(crate) fn report_finding(
    blocked: &mut Vec<(usize, usize)>,
    diagnostics: &mut Vec<Diagnostic>,
    span: (usize, usize),
    incorrect: String,
    correction: String,
    explanation: String,
    confidence: u16,
)
    ensures
        state_of(final(diagnostics)@, final(blocked)@) == report(
            state_of(old(diagnostics)@, old(blocked)@),
            phrase_finding((span.0 as int, span.1 as int), incorrect@, correction@, explanation@, confidence as int),
        ),
{
    let ghost d0 = diagnostics@;
    let ghost b0 = blocked@;
    let d = Diagnostic {
        span,
        incorrect,
        correction,
        rule: Rule::VarnaVinyasNiyam("3(घ)"),
        explanation,
        category: DiagnosticCategory::ShuddhaTable,
        kind: DiagnosticKind::Error,
        confidence_permille: confidence,
        alternate_reasons: Vec::new(),
    };
    assert(reasons_view(d.alternate_reasons@) =~= Seq::<ExplanationView>::empty());
    let ghost dv = d@;
    diagnostics.push(d);
    blocked.push(span);
    assert(diags_view(diagnostics@) =~= diags_view(d0).push(dv));
    assert(spans_view(blocked@) =~= spans_view(b0).push((span.0 as int, span.1 as int)));
}

/// The span of a segment.
pub open spec fn seg_span(t: TokenView) -> (int, int) {
    (t.start, t.end)
}

// ----- the word lists -----

/// The word lists that the general rules consult.
#[derive(Debug, Clone, Copy, PartialEq, Eq, Structural)]
pub enum WordList {
    /// The case markers that are written joined to their host.
    Vibhakti,
    /// The postpositions (नामयोगी) that are written joined to their host.
    Namayogi,
    /// The postpositions that stand apart after a case marker.
    SplitNamayogi,
    /// The comparison words that stand apart from what they compare.
    Comparison,
    /// The verbs of nominal verb phrases, which stand apart from the noun.
    NamikKriya,
    /// The heads of institutional terms, written apart even in a compound.
    Institutional,
    /// The heads of title names, written apart.
    TitleName,
    /// The second members of one-sense compounds, written joined.
    EkarthiRight,
    /// The last members of long compounds that are written word by word.
    MultiwordFinal,
    /// The verb of manner गरी, which stands apart from what precedes it.
    Gari,
}

/// The words of list `l`, in order.
pub open spec fn word_list(l: WordList) -> Seq<Seq<char>> {
    match l {
        WordList::Vibhakti => seq!["ले"@, "लाई"@, "को"@, "बाट"@, "देखि"@, "मा"@, "का"@, "की"@],
        WordList::Namayogi => seq!["सँग"@, "तिर"@, "भन्दा"@, "भित्र"@, "प्रति"@, "अनुसार"@, "बाहेक"@, "अन्तर्गत"@, "बमोजिम"@],
        WordList::SplitNamayogi => seq!["अगाडि"@, "पछाडि"@, "माथि"@, "समेत"@, "भन्दा"@, "लागि"@, "निम्ति"@],
        WordList::Comparison => seq!["जस्तो"@, "जस्तै"@, "जत्रो"@, "जसरी"@],
        WordList::NamikKriya => seq!["पाउनु"@, "गर्नु"@, "पर्नु"@, "फाल्नु"@],
        WordList::Institutional => seq!["मन्त्रालय"@, "सरकार"@, "विभाग"@, "अधिकार"@, "समारोह"@, "व्यवस्था"@, "सेवा"@, "भवन"@],
        WordList::TitleName => seq!["जिल्ला"@, "ताल"@, "नदी"@, "जाति"@, "समाज"@, "वर्ग"@, "धर्म"@, "महिना"@],
        WordList::EkarthiRight => seq!["मन्त्री"@, "कामना"@, "यात्रा"@, "पुर"@, "कोट"@, "विद्यालय"@],
        WordList::MultiwordFinal => seq!["आयोग"@, "प्राधिकरण"@, "महासङ्घ"@, "प्रतिष्ठान"@],
        WordList::Gari => seq!["गरी"@],
    }
}

fn list_len(l: WordList) -> (n: usize)
    ensures
        n == word_list(l).len(),
{
    match l {
        WordList::Vibhakti => 8,
        WordList::Namayogi => 9,
        WordList::SplitNamayogi => 7,
        WordList::Comparison => 4,
        WordList::NamikKriya => 4,
        WordList::Institutional => 8,
        WordList::TitleName => 8,
        WordList::EkarthiRight => 6,
        WordList::MultiwordFinal => 4,
        WordList::Gari => 1,
    }
}

fn list_word(l: WordList, k: usize) -> (r: &'static str)
    requires
        k < word_list(l).len(),
    ensures
        r@ == word_list(l)[k as int],
{
    match l {
        WordList::Vibhakti => {
            if k == 0 {
                "ले"
            } else if k == 1 {
                "लाई"
            } else if k == 2 {
                "को"
            } else if k == 3 {
                "बाट"
            } else if k == 4 {
                "देखि"
            } else if k == 5 {
                "मा"
            } else if k == 6 {
                "का"
            } else {
                "की"
            }
        },
        WordList::Namayogi => {
            if k == 0 {
                "सँग"
            } else if k == 1 {
                "तिर"
            } else if k == 2 {
                "भन्दा"
            } else if k == 3 {
                "भित्र"
            } else if k == 4 {
                "प्रति"
            } else if k == 5 {
                "अनुसार"
            } else if k == 6 {
                "बाहेक"
            } else if k == 7 {
                "अन्तर्गत"
            } else {
                "बमोजिम"
            }
        },
        WordList::SplitNamayogi => {
            if k == 0 {
                "अगाडि"
            } else if k == 1 {
                "पछाडि"
            } else if k == 2 {
                "माथि"
            } else if k == 3 {
                "समेत"
            } else if k == 4 {
                "भन्दा"
            } else if k == 5 {
                "लागि"
            } else {
                "निम्ति"
            }
        },
        WordList::Comparison => {
            if k == 0 {
                "जस्तो"
            } else if k == 1 {
                "जस्तै"
            } else if k == 2 {
                "जत्रो"
            } else {
                "जसरी"
            }
        },
        WordList::NamikKriya => {
            if k == 0 {
                "पाउनु"
            } else if k == 1 {
                "गर्नु"
            } else if k == 2 {
                "पर्नु"
            } else {
                "फाल्नु"
            }
        },
        WordList::Institutional => {
            if k == 0 {
                "मन्त्रालय"
            } else if k == 1 {
                "सरकार"
            } else if k == 2 {
                "विभाग"
            } else if k == 3 {
                "अधिकार"
            } else if k == 4 {
                "समारोह"
            } else if k == 5 {
                "व्यवस्था"
            } else if k == 6 {
                "सेवा"
            } else {
                "भवन"
            }
        },
        WordList::TitleName => {
            if k == 0 {
                "जिल्ला"
            } else if k == 1 {
                "ताल"
            } else if k == 2 {
                "नदी"
            } else if k == 3 {
                "जाति"
            } else if k == 4 {
                "समाज"
            } else if k == 5 {
                "वर्ग"
            } else if k == 6 {
                "धर्म"
            } else {
                "महिना"
            }
        },
        WordList::EkarthiRight => {
            if k == 0 {
                "मन्त्री"
            } else if k == 1 {
                "कामना"
            } else if k == 2 {
                "यात्रा"
            } else if k == 3 {
                "पुर"
            } else if k == 4 {
                "कोट"
            } else {
                "विद्यालय"
            }
        },
        WordList::MultiwordFinal => {
            if k == 0 {
                "आयोग"
            } else if k == 1 {
                "प्राधिकरण"
            } else if k == 2 {
                "महासङ्घ"
            } else {
                "प्रतिष्ठान"
            }
        },
        WordList::Gari => "गरी",
    }
}

/// Whether `w` is one of the words of list `l`.
fn listed(l: WordList, w: &str) -> (r: bool)
    ensures
        r == word_list(l).contains(w@),
{
    let n = list_len(l);
    let mut k: usize = 0;
    while k < n
        invariant
            k <= n,
            n == word_list(l).len(),
            forall|j: int| 0 <= j < k ==> word_list(l)[j] != w@,
        decreases n - k,
    {
        if str_eq(list_word(l, k), w) {
            return true;
        }
        k = k + 1;
    }
    false
}

// ----- what the word check and the lexicon say of a candidate -----

/// An optional string by content.
pub open spec fn str_opt(o: Option<String>) -> Option<Seq<char>> {
    match o {
        Some(s) => Some(s@),
        None => None,
    }
}

/// The accepted spelling of `w` with its leading postposition written सँग
/// where `w` spells it संग or सङ.
pub open spec fn namayogi_variant(w: Seq<char>, lex: Lexicon) -> Option<Seq<char>> {
    let a = "सँग"@ + strip_prefix(w, "संग"@);
    let b = "सँग"@ + strip_prefix(w, "सङ"@);
    if is_prefix("संग"@, w) && a != w && lex.accepts(a) {
        Some(a)
    } else if is_prefix("सङ"@, w) && b != w && lex.accepts(b) {
        Some(b)
    } else {
        None
    }
}

fn normalize_namayogi_variant(word: &str, lex: &Lexicon) -> (r: Option<String>)
    ensures
        str_opt(r) == namayogi_variant(word@, *lex),
{
    if starts_with(word, "संग") {
        let a = concat("सँग", skip_chars(word, char_count("संग")).as_str());
        if !str_eq(a.as_str(), word) && lex.is_accepted(a.as_str()) {
            return Some(a);
        }
    }
    if starts_with(word, "सङ") {
        let b = concat("सँग", skip_chars(word, char_count("सङ")).as_str());
        if !str_eq(b.as_str(), word) && lex.is_accepted(b.as_str()) {
            return Some(b);
        }
    }
    None
}

/// The normal written form of a joined candidate `w`: the correction that
/// checking it gives (unless the finding is ambiguous); else its spelling
/// with the postposition normalized; else `w` itself when the lexicon or the
/// analyser accepts it.
#[verifier::opaque]
pub open spec fn joined_normal(w: Seq<char>, lex: Lexicon) -> Option<Seq<char>> {
    if word_check(w, lex) is Some && word_check(w, lex)->Some_0.kind != DiagnosticKind::Ambiguous {
        Some(word_check(w, lex)->Some_0.correction)
    } else if namayogi_variant(w, lex) is Some {
        namayogi_variant(w, lex)
    } else if lex.accepts(w) {
        Some(w)
    } else {
        None
    }
}

/// The normal form of `w`, or `w` itself where it has none.
pub open spec fn normal_or_self(w: Seq<char>, lex: Lexicon) -> Seq<char> {
    match joined_normal(w, lex) {
        Some(c) => c,
        None => w,
    }
}

/// The normal written form of a joined candidate, if it has one.
pub fn normalize_joined_word(word: &str, lex: &Lexicon) -> (r: Option<String>)
    ensures
        str_opt(r) == joined_normal(word@, *lex),
{
    reveal(joined_normal);
    if let Some(d) = check_word(word, lex) {
        if !(d.kind == DiagnosticKind::Ambiguous) {
            return Some(d.correction);
        }
    }
    if let Some(c) = normalize_namayogi_variant(word, lex) {
        return Some(c);
    }
    if lex.is_accepted(word) {
        Some(owned(word))
    } else {
        None
    }
}

fn normal_or_self_exec(word: &str, lex: &Lexicon) -> (r: String)
    ensures
        r@ == normal_or_self(word@, *lex),
{
    match normalize_joined_word(word, lex) {
        Some(c) => c,
        None => owned(word),
    }
}

/// A part of speech that marks a noun or a name.
pub open spec fn name_pos(p: Seq<char>) -> bool {
    has_sub(p, "नाम"@) || has_sub(p, "ना."@)
}

/// `w` is a headword whose part of speech marks a noun or a name.
pub open spec fn name_like(w: Seq<char>, lex: Lexicon) -> bool {
    lex.pos_of(w) is Some && name_pos(lex.pos_of(w)->Some_0)
}

fn is_name_like(w: &str, lex: &Lexicon) -> (r: bool)
    ensures
        r == name_like(w@, *lex),
{
    match lex.lookup(w) {
        Some(p) => contains(p.as_str(), "नाम") || contains(p.as_str(), "ना."),
        None => false,
    }
}

/// A char of the Devanagari block or of Devanagari Extended.
pub open spec fn devanagari_ext(c: char) -> bool {
    (0x900 <= (c as u32) <= 0x97F) || (0xA8E0 <= (c as u32) <= 0xA8FF)
}

/// Every char of `s` is Devanagari.
pub open spec fn all_devanagari_ext(s: Seq<char>) -> bool {
    forall|i: int| 0 <= i < s.len() ==> #[trigger] devanagari_ext(s[i])
}

fn is_all_devanagari_ext(s: &str) -> (r: bool)
    ensures
        r == all_devanagari_ext(s@),
{
    let v = chars_of(s);
    let mut i: usize = 0;
    while i < v.len()
        invariant
            i <= v.len(),
            v@ == s@,
            forall|j: int| 0 <= j < i ==> #[trigger] devanagari_ext(s@[j]),
        decreases v.len() - i,
    {
        let u = v[i] as u32;
        if !((0x900 <= u && u <= 0x97F) || (0xA8E0 <= u && u <= 0xA8FF)) {
            assert(!devanagari_ext(s@[i as int]));
            return false;
        }
        i = i + 1;
    }
    true
}

/// Some case marker from index `k` on ends `w` after a Devanagari host of two chars or more.
pub open spec fn case_marked_from(w: Seq<char>, k: int) -> bool
    decreases 8 - k,
{
    if k < 0 || k >= 8 {
        false
    } else {
        let v = word_list(WordList::Vibhakti)[k];
        (is_suffix(v, w) && strip_suffix(w, v).len() >= 2 && all_devanagari_ext(strip_suffix(w, v)))
            || case_marked_from(w, k + 1)
    }
}

/// `w` may stand before a postposition that follows a case marker: it is
/// accepted, or it ends in a case marker after a Devanagari host.
pub open spec fn case_marked_host(w: Seq<char>, lex: Lexicon) -> bool {
    lex.accepts(w) || case_marked_from(w, 0)
}

fn is_case_marked_host(w: &str, lex: &Lexicon) -> (r: bool)
    ensures
        r == case_marked_host(w@, *lex),
{
    if lex.is_accepted(w) {
        return true;
    }
    let n = char_count(w);
    let mut k: usize = 0;
    while k < 8
        invariant
            k <= 8,
            n == w@.len(),
            case_marked_from(w@, 0) == case_marked_from(w@, k as int),
        decreases 8 - k,
    {
        let v = list_word(WordList::Vibhakti, k);
        if ends_with(w, v) {
            let base = take_chars(w, n - char_count(v));
            if char_count(base.as_str()) >= 2 && is_all_devanagari_ext(base.as_str()) {
                return true;
            }
        }
        k = k + 1;
    }
    false
}

/// `w` is noun-like: a name, a host of a case marker, or a headword marked
/// as a noun, name or pronoun.
pub open spec fn nominalish(w: Seq<char>, lex: Lexicon) -> bool {
    ||| name_like(w, lex)
    ||| case_marked_host(w, lex)
    ||| (lex.pos_of(w) is Some && (name_pos(lex.pos_of(w)->Some_0) || has_sub(lex.pos_of(w)->Some_0, "सर्व"@)))
}

fn is_nominalish(w: &str, lex: &Lexicon) -> (r: bool)
    ensures
        r == nominalish(w@, *lex),
{
    if is_name_like(w, lex) || is_case_marked_host(w, lex) {
        return true;
    }
    match lex.lookup(w) {
        Some(p) => contains(p.as_str(), "नाम") || contains(p.as_str(), "ना.") || contains(p.as_str(), "सर्व"),
        None => false,
    }
}

/// A word that can be doubled meaningfully: `c` or its normal form `nc` is
/// accepted, or `c` is a past form in -यो of a verb with an attested infinitive.
pub open spec fn dwitva_base(c: Seq<char>, nc: Seq<char>, lex: Lexicon) -> bool {
    lex.accepts(c) || lex.accepts(nc) || (is_suffix("यो"@, c) && has_infinitive(strip_suffix(c, "यो"@), lex))
}

fn is_dwitva_base(c: &str, nc: &str, lex: &Lexicon) -> (r: bool)
    ensures
        r == dwitva_base(c@, nc@, *lex),
{
    if lex.is_accepted(c) || lex.is_accepted(nc) {
        return true;
    }
    if ends_with(c, "यो") {
        let stem = take_chars(c, char_count(c) - char_count("यो"));
        return has_known_infinitive_candidate(stem.as_str(), lex);
    }
    false
}

/// `form` begins with one of the joined postpositions.
pub open spec fn namayogi_initial(form: Seq<char>) -> bool {
    exists|k: int| 0 <= k < 9 && #[trigger] is_prefix(word_list(WordList::Namayogi)[k], form)
}

fn starts_with_namayogi(form: &str) -> (r: bool)
    ensures
        r == namayogi_initial(form@),
{
    let mut k: usize = 0;
    while k < 9
        invariant
            k <= 9,
            forall|j: int| 0 <= j < k ==> !#[trigger] is_prefix(word_list(WordList::Namayogi)[j], form@),
        decreases 9 - k,
    {
        if starts_with(form, list_word(WordList::Namayogi, k)) {
            return true;
        }
        k = k + 1;
    }
    false
}

// ----- verb complexes (पदवियोग ६, ७, ९) -----

/// The auxiliaries that follow an aspect or future participle.
pub open spec fn aux_suffixes() -> Seq<Seq<char>> {
    seq!["छन्"@, "छौ"@, "छु"@, "छ"@, "थिए"@, "थियो"@, "थिई"@, "थिइन्"@, "थिइ"@, "थें"@]
}

/// The auxiliaries split from a participle are exactly छन्, छौ, छु, छ, थिए,
/// थियो, थिई, थिइन्, थिइ and थें.
pub proof fn lemma_auxiliaries_are_the_ten(c: Seq<char>)
    ensures
        aux_suffixes().contains(c) <==> (c == "छन्"@ || c == "छौ"@ || c == "छु"@ || c == "छ"@ || c == "थिए"@ || c == "थियो"@ || c == "थिई"@ || c == "थिइन्"@ || c == "थिइ"@ || c == "थें"@),
{
    let t = aux_suffixes();
    if c == "छन्"@ {
        assert(t[0] == c);
    }
    if c == "छौ"@ {
        assert(t[1] == c);
    }
    if c == "छु"@ {
        assert(t[2] == c);
    }
    if c == "छ"@ {
        assert(t[3] == c);
    }
    if c == "थिए"@ {
        assert(t[4] == c);
    }
    if c == "थियो"@ {
        assert(t[5] == c);
    }
    if c == "थिई"@ {
        assert(t[6] == c);
    }
    if c == "थिइन्"@ {
        assert(t[7] == c);
    }
    if c == "थिइ"@ {
        assert(t[8] == c);
    }
    if c == "थें"@ {
        assert(t[9] == c);
    }
    if t.contains(c) {
        let i = choose|i: int| 0 <= i < t.len() && t[i] == c;
        assert(0 <= i < 10);
    }
}

fn aux_suffix(k: usize) -> (r: &'static str)
    requires
        k < 10,
    ensures
        r@ == aux_suffixes()[k as int],
{
    if k == 0 {
        "छन्"
    } else if k == 1 {
        "छौ"
    } else if k == 2 {
        "छु"
    } else if k == 3 {
        "छ"
    } else if k == 4 {
        "थिए"
    } else if k == 5 {
        "थियो"
    } else if k == 6 {
        "थिई"
    } else if k == 7 {
        "थिइन्"
    } else if k == 8 {
        "थिइ"
    } else {
        "थें"
    }
}

/// The modal verbs that follow an infinitive.
pub open spec fn modal_suffixes() -> Seq<Seq<char>> {
    seq!["सक्छन्"@, "सक्छु"@, "सक्छौ"@, "सक्छ"@, "सक्दैन"@]
}

/// The modal verbs split from an infinitive are exactly सक्छन्, सक्छु,
/// सक्छौ, सक्छ and सक्दैन.
pub proof fn lemma_modals_are_the_five(c: Seq<char>)
    ensures
        modal_suffixes().contains(c) <==> (c == "सक्छन्"@ || c == "सक्छु"@ || c == "सक्छौ"@ || c == "सक्छ"@ || c == "सक्दैन"@),
{
    let t = modal_suffixes();
    if c == "सक्छन्"@ {
        assert(t[0] == c);
    }
    if c == "सक्छु"@ {
        assert(t[1] == c);
    }
    if c == "सक्छौ"@ {
        assert(t[2] == c);
    }
    if c == "सक्छ"@ {
        assert(t[3] == c);
    }
    if c == "सक्दैन"@ {
        assert(t[4] == c);
    }
    if t.contains(c) {
        let i = choose|i: int| 0 <= i < t.len() && t[i] == c;
        assert(0 <= i < 5);
    }
}

fn modal_suffix(k: usize) -> (r: &'static str)
    requires
        k < 5,
    ensures
        r@ == modal_suffixes()[k as int],
{
    if k == 0 {
        "सक्छन्"
    } else if k == 1 {
        "सक्छु"
    } else if k == 2 {
        "सक्छौ"
    } else if k == 3 {
        "सक्छ"
    } else {
        "सक्दैन"
    }
}

/// `p` ends in a participle that marks aspect.
pub open spec fn aspect_host(p: Seq<char>) -> bool {
    is_suffix("दै"@, p) || is_suffix("दो"@, p) || is_suffix("को"@, p) || is_suffix("का"@, p) || is_suffix("की"@, p)
}

/// `p` ends in the future participle.
pub open spec fn future_host(p: Seq<char>) -> bool {
    is_suffix("ने"@, p)
}

/// `p` ends in an infinitive.
pub open spec fn infinitive_host(p: Seq<char>) -> bool {
    is_suffix("नु"@, p) || is_suffix("न"@, p)
}

/// The sub-rule cited for an aspect split.
pub open spec fn aspect_subrule() -> Seq<char> {
    "3(घ)-पदवियोग-६ | पक्षसूचक क्रियापद छुट्याएर"@
}

/// The sub-rule cited for a future split.
pub open spec fn future_subrule() -> Seq<char> {
    "3(घ)-पदवियोग-७ | 'ने छ' छुट्याएर"@
}

/// The sub-rule cited for a modal split.
pub open spec fn modal_subrule() -> Seq<char> {
    "3(घ)-पदवियोग-९ | 'नु'/'न' पछि क्रियापद छुट्याएर"@
}

/// The split of `seg` at the first auxiliary from index `k` on whose host
/// (at least two chars) is an aspect participle (when `aspect`) or a future
/// participle (when `future`): the split form and the sub-rule.
pub open spec fn aux_split_from(seg: Seq<char>, aspect: bool, future: bool, k: int) -> Option<(Seq<char>, Seq<char>)>
    decreases 10 - k,
{
    if k < 0 || k >= 10 {
        None
    } else {
        let aux = aux_suffixes()[k];
        let p = strip_suffix(seg, aux);
        if is_suffix(aux, seg) && p.len() >= 2 && aspect && aspect_host(p) {
            Some((p + " "@ + aux, aspect_subrule()))
        } else if is_suffix(aux, seg) && p.len() >= 2 && future && future_host(p) {
            Some((p + " "@ + aux, future_subrule()))
        } else {
            aux_split_from(seg, aspect, future, k + 1)
        }
    }
}

/// The split of `seg` at the first modal from index `k` on that follows an infinitive.
pub open spec fn modal_split_from(seg: Seq<char>, k: int) -> Option<(Seq<char>, Seq<char>)>
    decreases 5 - k,
{
    if k < 0 || k >= 5 {
        None
    } else {
        let m = modal_suffixes()[k];
        let p = strip_suffix(seg, m);
        if is_suffix(m, seg) && infinitive_host(p) {
            Some((p + " "@ + m, modal_subrule()))
        } else {
            modal_split_from(seg, k + 1)
        }
    }
}

/// The verb-complex split of `seg` that the enabled sub-rules give.
pub open spec fn verb_split(seg: Seq<char>, aspect: bool, future: bool, modal: bool) -> Option<(Seq<char>, Seq<char>)> {
    match aux_split_from(seg, aspect, future, 0) {
        Some(c) => Some(c),
        None => if modal {
            modal_split_from(seg, 0)
        } else {
            None
        },
    }
}

/// The explanation of a verb-complex split under `subrule`.
pub open spec fn verb_explanation(subrule: Seq<char>) -> Seq<char> {
    "पदयोग/पदवियोग ["@ + subrule + "]: क्रियापद पद छुट्याएर लेख्नुपर्छ"@
}

fn verb_split_exec(seg: &str, aspect: bool, future: bool, modal: bool) -> (r: Option<(String, &'static str)>)
    ensures
        match r {
            Some((c, s)) => verb_split(seg@, aspect, future, modal) == Some((c@, s@)),
            None => verb_split(seg@, aspect, future, modal) is None,
        },
{
    let n = char_count(seg);
    let mut k: usize = 0;
    while k < 10
        invariant
            k <= 10,
            n == seg@.len(),
            aux_split_from(seg@, aspect, future, 0) == aux_split_from(seg@, aspect, future, k as int),
        decreases 10 - k,
    {
        let aux = aux_suffix(k);
        if ends_with(seg, aux) {
            let p = take_chars(seg, n - char_count(aux));
            if char_count(p.as_str()) >= 2 {
                let is_aspect = ends_with(p.as_str(), "दै") || ends_with(p.as_str(), "दो") || ends_with(p.as_str(), "को")
                    || ends_with(p.as_str(), "का") || ends_with(p.as_str(), "की");
                if aspect && is_aspect {
                    return Some((concat3(p.as_str(), " ", aux), "3(घ)-पदवियोग-६ | पक्षसूचक क्रियापद छुट्याएर"));
                }
                if future && ends_with(p.as_str(), "ने") {
                    return Some((concat3(p.as_str(), " ", aux), "3(घ)-पदवियोग-७ | 'ने छ' छुट्याएर"));
                }
            }
        }
        k = k + 1;
    }
    if !modal {
        return None;
    }
    let mut k: usize = 0;
    while k < 5
        invariant
            k <= 5,
            n == seg@.len(),
            modal,
            aux_split_from(seg@, aspect, future, 0) is None,
            modal_split_from(seg@, 0) == modal_split_from(seg@, k as int),
        decreases 5 - k,
    {
        let m = modal_suffix(k);
        if ends_with(seg, m) {
            let p = take_chars(seg, n - char_count(m));
            if ends_with(p.as_str(), "नु") || ends_with(p.as_str(), "न") {
                return Some((concat3(p.as_str(), " ", m), "3(घ)-पदवियोग-९ | 'नु'/'न' पछि क्रियापद छुट्याएर"));
            }
        }
        k = k + 1;
    }
    None
}

// ----- लागि / निम्ति / दोहोरो विभक्ति (पदवियोग ३) -----

/// The split of a segment that ends in लागि or निम्ति after a host of two
/// chars or more, or in का मा after anything.
pub open spec fn lagi_split(seg: Seq<char>) -> Option<Seq<char>> {
    if is_suffix("लागि"@, seg) {
        let p = strip_suffix(seg, "लागि"@);
        if p.len() >= 2 { Some(p + " लागि"@) } else { None }
    } else if is_suffix("निम्ति"@, seg) {
        let p = strip_suffix(seg, "निम्ति"@);
        if p.len() >= 2 { Some(p + " निम्ति"@) } else { None }
    } else if is_suffix("कामा"@, seg) {
        let p = strip_suffix(seg, "कामा"@);
        if p.len() >= 1 { Some(p + "का मा"@) } else { None }
    } else {
        None
    }
}

/// The explanation of a लागि / निम्ति split.
pub open spec fn lagi_explanation() -> Seq<char> {
    "पदयोग/पदवियोग [3(घ)-पदवियोग-३ | लागि/निम्ति/दोहोरो विभक्ति छुट्याएर]: जोडिएर आएको पद छुट्याएर लेख्नुपर्छ"@
}

fn lagi_split_exec(seg: &str) -> (r: Option<String>)
    ensures
        match r {
            Some(c) => lagi_split(seg@) == Some(c@),
            None => lagi_split(seg@) is None,
        },
{
    let n = char_count(seg);
    if ends_with(seg, "लागि") {
        let p = take_chars(seg, n - char_count("लागि"));
        if char_count(p.as_str()) >= 2 { Some(concat(p.as_str(), " लागि")) } else { None }
    } else if ends_with(seg, "निम्ति") {
        let p = take_chars(seg, n - char_count("निम्ति"));
        if char_count(p.as_str()) >= 2 { Some(concat(p.as_str(), " निम्ति")) } else { None }
    } else if ends_with(seg, "कामा") {
        let p = take_chars(seg, n - char_count("कामा"));
        if char_count(p.as_str()) >= 1 { Some(concat(p.as_str(), "का मा")) } else { None }
    } else {
        None
    }
}

// ----- splits of one segment -----

/// A Devanagari word that is not a number.
pub open spec fn plain_word(w: Seq<char>) -> bool {
    devanagari_word(w) && !numeric_segment(w)
}

fn is_plain_word(w: &str) -> (r: bool)
    ensures
        r == plain_word(w@),
{
    is_devanagari_word(w) && !is_numeric_segment(w)
}

/// The state after offering the rewrite of segment `seg` to `c`: reported
/// when its span is free, it changes the segment, and no finding already
/// makes the same rewrite.
pub open spec fn offer_rewrite(
    text: Seq<char>,
    st: PassState,
    seg: TokenView,
    c: Seq<char>,
    explanation: Seq<char>,
    confidence: int,
) -> PassState {
    let span = seg_span(seg);
    if free_span(st, text, span) && c != seg.text && !same_rewrite(st.diags, span, c) {
        report(st, phrase_finding(span, seg.text, c, explanation, confidence))
    } else {
        st
    }
}

/// The rewrite is offered: see [`offer_rewrite`].
fn offer_seg_rewrite(
    text: &str,
    seg: &Token,
    c: String,
    explanation: &str,
    confidence: u16,
    blocked: &mut Vec<(usize, usize)>,
    diagnostics: &mut Vec<Diagnostic>,
) -> (r: bool)
    ensures
        state_of(final(diagnostics)@, final(blocked)@) == offer_rewrite(
            text@,
            state_of(old(diagnostics)@, old(blocked)@),
            seg@,
            c@,
            explanation@,
            confidence as int,
        ),
        r == (state_of(final(diagnostics)@, final(blocked)@) != state_of(old(diagnostics)@, old(blocked)@)),
{
    let span = (seg.start, seg.end);
    if span_free(text, blocked, diagnostics, span) && !str_eq(c.as_str(), seg.text.as_str())
        && !has_same_rewrite(diagnostics, span, c.as_str()) {
        let ghost before = state_of(diagnostics@, blocked@);
        report_finding(blocked, diagnostics, span, seg.text.clone(), c, owned(explanation), confidence);
        assert(state_of(diagnostics@, blocked@).diags.len() == before.diags.len() + 1);
        true
    } else {
        false
    }
}

/// The explanation of a split of a postposition after a case marker.
pub open spec fn namayogi_split_explanation() -> Seq<char> {
    "शैक्षणिक व्याकरण पदवियोग (क): विभक्तिपछि आउने नामयोगी अलग डिकामा लेखिन्छन् ।"@
}

/// The split of `seg` at the first listed postposition from index `k` on
/// whose host, normalized, may stand before it.
pub open spec fn namayogi_split_from(seg: Seq<char>, lex: Lexicon, k: int) -> Option<Seq<char>>
    decreases 7 - k,
{
    if k < 0 || k >= 7 {
        None
    } else {
        let suf = word_list(WordList::SplitNamayogi)[k];
        let left = strip_suffix(seg, suf);
        let nl = normal_or_self(left, lex);
        if is_suffix(suf, seg) && left.len() > 0 && case_marked_host(nl, lex) {
            Some(nl + " "@ + suf)
        } else {
            namayogi_split_from(seg, lex, k + 1)
        }
    }
}

fn namayogi_split(seg: &str, lex: &Lexicon) -> (r: Option<String>)
    ensures
        str_opt(r) == namayogi_split_from(seg@, *lex, 0),
{
    let n = char_count(seg);
    let mut k: usize = 0;
    while k < 7
        invariant
            k <= 7,
            n == seg@.len(),
            namayogi_split_from(seg@, *lex, 0) == namayogi_split_from(seg@, *lex, k as int),
        decreases 7 - k,
    {
        let suf = list_word(WordList::SplitNamayogi, k);
        if ends_with(seg, suf) {
            let left = take_chars(seg, n - char_count(suf));
            if char_count(left.as_str()) > 0 {
                let nl = normal_or_self_exec(left.as_str(), lex);
                if is_case_marked_host(nl.as_str(), lex) {
                    return Some(concat3(nl.as_str(), " ", suf));
                }
            }
        }
        k = k + 1;
    }
    None
}

/// A particle of one syllable, split only with care.
pub open spec fn short_particle(p: Seq<char>) -> bool {
    p == "त"@ || p == "ल"@ || p == "नि"@
}

/// A firm finding on another span overlaps `span`.
pub open spec fn overlaps_other(diags: Seq<DiagnosticView>, span: (int, int)) -> bool {
    exists|i: int|
        0 <= i < diags.len() && (#[trigger] diags[i]).kind != DiagnosticKind::Ambiguous && diags[i].span != span
            && diags[i].span.0 < span.1 && span.0 < diags[i].span.1
}

pub(crate) fn overlaps_other_span(diagnostics: &Vec<Diagnostic>, span: (usize, usize)) -> (r: bool)
    ensures
        r == overlaps_other(diags_view(diagnostics@), (span.0 as int, span.1 as int)),
{
    let mut i: usize = 0;
    while i < diagnostics.len()
        invariant
            i <= diagnostics.len(),
            forall|j: int|
                0 <= j < i ==> !((#[trigger] diags_view(diagnostics@)[j]).kind != DiagnosticKind::Ambiguous
                    && diags_view(diagnostics@)[j].span != (span.0 as int, span.1 as int)
                    && diags_view(diagnostics@)[j].span.0 < span.1 && span.0 < diags_view(diagnostics@)[j].span.1),
        decreases diagnostics.len() - i,
    {
        let d = &diagnostics[i];
        assert(diags_view(diagnostics@)[i as int] == d@);
        if !(d.kind == DiagnosticKind::Ambiguous) && !(d.span.0 == span.0 && d.span.1 == span.1) && d.span.0 < span.1
            && span.0 < d.span.1 {
            return true;
        }
        i = i + 1;
    }
    false
}

/// The split of a doubled word into its halves.
pub open spec fn reduplication(seg: Seq<char>) -> Option<(Seq<char>, Seq<char>)> {
    if seg.len() < 2 || seg.len() % 2 != 0 {
        None
    } else {
        Some((seg.take((seg.len() / 2) as int), seg.skip((seg.len() / 2) as int)))
    }
}

/// The explanation of a split of a meaningful doubling.
pub open spec fn dwitva_explanation() -> Seq<char> {
    "शैक्षणिक व्याकरण पदवियोग (ग): सार्थक द्वित्व शब्द पदवियोग गरी लेखिन्छन् ।"@
}

/// The split of a doubled word whose half can be doubled meaningfully.
pub open spec fn dwitva_split(seg: Seq<char>, lex: Lexicon) -> Option<Seq<char>> {
    match reduplication(seg) {
        Some((l, r)) => if l == r && dwitva_base(l, normal_or_self(l, lex), lex) {
            Some(l + " "@ + r)
        } else {
            None
        },
        None => None,
    }
}

fn dwitva_split_exec(seg: &str, lex: &Lexicon) -> (r: Option<String>)
    ensures
        str_opt(r) == dwitva_split(seg@, *lex),
{
    let n = char_count(seg);
    if n < 2 || n % 2 != 0 {
        return None;
    }
    let l = take_chars(seg, n / 2);
    let r = skip_chars(seg, n / 2);
    if !str_eq(l.as_str(), r.as_str()) {
        return None;
    }
    let nl = normal_or_self_exec(l.as_str(), lex);
    if !is_dwitva_base(l.as_str(), nl.as_str(), lex) {
        return None;
    }
    Some(concat3(l.as_str(), " ", r.as_str()))
}

/// The host splits of `seg` before the words of list `l`, tried from index
/// `k` on: where `seg` ends in the word, its host has a normal form (which
/// must itself be accepted when `attested_host`), and the rewrite is offered;
/// the first one reported ends the search.
pub open spec fn listed_split_from(
    text: Seq<char>,
    lex: Lexicon,
    st: PassState,
    seg: TokenView,
    l: WordList,
    attested_host: bool,
    explanation: Seq<char>,
    confidence: int,
    k: int,
) -> PassState
    decreases word_list(l).len() - k,
{
    if k < 0 || k >= word_list(l).len() {
        st
    } else {
        let suf = word_list(l)[k];
        let left = strip_suffix(seg.text, suf);
        if is_suffix(suf, seg.text) && left.len() > 0 && joined_normal(left, lex) is Some && (!attested_host
            || lex.accepts(joined_normal(left, lex)->Some_0)) && offer_rewrite(
            text,
            st,
            seg,
            joined_normal(left, lex)->Some_0 + " "@ + suf,
            explanation,
            confidence,
        ) != st {
            offer_rewrite(text, st, seg, joined_normal(left, lex)->Some_0 + " "@ + suf, explanation, confidence)
        } else {
            listed_split_from(text, lex, st, seg, l, attested_host, explanation, confidence, k + 1)
        }
    }
}

/// The first occurrence of `suf` after the start of `seg` splits it into a
/// head and the rest.
pub open spec fn compound_split(seg: Seq<char>, suf: Seq<char>) -> Option<(Seq<char>, Seq<char>)> {
    let i = find_from(seg, suf, 0);
    if i <= 0 {
        None
    } else {
        Some((seg.take(i), seg.skip(i)))
    }
}

/// The splits of `seg` before the head words of list `l`, tried from index
/// `k` on: where the head occurs after the start, the part before it has an
/// accepted normal form, the rest is accepted, and the rewrite is offered;
/// the first one reported ends the search.
pub open spec fn compound_split_from(
    text: Seq<char>,
    lex: Lexicon,
    st: PassState,
    seg: TokenView,
    l: WordList,
    explanation: Seq<char>,
    confidence: int,
    k: int,
) -> PassState
    decreases word_list(l).len() - k,
{
    if k < 0 || k >= word_list(l).len() {
        st
    } else {
        match compound_split(seg.text, word_list(l)[k]) {
            Some((left, right)) => if joined_normal(left, lex) is Some && lex.accepts(joined_normal(left, lex)->Some_0)
                && lex.accepts(right) && offer_rewrite(
                text,
                st,
                seg,
                joined_normal(left, lex)->Some_0 + " "@ + right,
                explanation,
                confidence,
            ) != st {
                offer_rewrite(text, st, seg, joined_normal(left, lex)->Some_0 + " "@ + right, explanation, confidence)
            } else {
                compound_split_from(text, lex, st, seg, l, explanation, confidence, k + 1)
            },
            None => compound_split_from(text, lex, st, seg, l, explanation, confidence, k + 1),
        }
    }
}

/// The explanation of a split of जना.
pub open spec fn jana_explanation() -> Seq<char> {
    "शैक्षणिक व्याकरण पदवियोग (छ): जना शब्द अलग डिकामा लेखिन्छ ।"@
}

/// The split of a segment ending in जना whose host, normalized, is accepted.
pub open spec fn jana_split(seg: Seq<char>, lex: Lexicon) -> Option<Seq<char>> {
    let left = strip_suffix(seg, "जना"@);
    let nl = normal_or_self(left, lex);
    if is_suffix("जना"@, seg) && left.len() > 0 && lex.accepts(nl) {
        Some(nl + " जना"@)
    } else {
        None
    }
}

fn jana_split_exec(seg: &str, lex: &Lexicon) -> (r: Option<String>)
    ensures
        str_opt(r) == jana_split(seg@, *lex),
{
    if !ends_with(seg, "जना") {
        return None;
    }
    let left = take_chars(seg, char_count(seg) - char_count("जना"));
    if char_count(left.as_str()) == 0 {
        return None;
    }
    let nl = normal_or_self_exec(left.as_str(), lex);
    if !lex.is_accepted(nl.as_str()) {
        return None;
    }
    Some(concat(nl.as_str(), " जना"))
}

/// The explanation of a split of the dividing न.
pub open spec fn divisive_na_explanation() -> Seq<char> {
    "शैक्षणिक व्याकरण पदवियोग (ज): विभाजक 'न' पदवियोग गरेर लेखिन्छ ।"@
}

/// The split of the dividing न from an unaccepted segment whose rest (two
/// chars or more), normalized, is noun-like.
pub open spec fn divisive_na_split(seg: Seq<char>, lex: Lexicon) -> Option<Seq<char>> {
    let rest = strip_prefix(seg, "न"@);
    let nr = normal_or_self(rest, lex);
    if !lex.accepts(seg) && is_prefix("न"@, seg) && rest.len() >= 2 && nominalish(nr, lex) {
        Some("न "@ + nr)
    } else {
        None
    }
}

fn divisive_na_split_exec(seg: &str, lex: &Lexicon) -> (r: Option<String>)
    ensures
        str_opt(r) == divisive_na_split(seg@, *lex),
{
    if lex.is_accepted(seg) || !starts_with(seg, "न") {
        return None;
    }
    let rest = skip_chars(seg, char_count("न"));
    if char_count(rest.as_str()) < 2 {
        return None;
    }
    let nr = normal_or_self_exec(rest.as_str(), lex);
    if !is_nominalish(nr.as_str(), lex) {
        return None;
    }
    Some(concat("न ", nr.as_str()))
}

// ----- long compounds (विस्तृत समस्त शब्द) -----

/// A part of a long compound: accepted, or a name.
pub open spec fn compound_part(w: Seq<char>, lex: Lexicon) -> bool {
    lex.accepts(w) || name_like(w, lex)
}

fn is_compound_part(w: &str, lex: &Lexicon) -> (r: bool)
    ensures
        r == compound_part(w@, *lex),
{
    lex.is_accepted(w) || is_name_like(w, lex)
}

/// The parts of `w` from char `start` on, with `depth` parts already taken:
/// the longest usable part first, backtracking, and a listed last member to
/// close; at most four parts in all, and at least three.
pub open spec fn samasa_from(w: Seq<char>, lex: Lexicon, start: int, depth: int) -> Option<Seq<Seq<char>>>
    decreases w.len() - start, w.len() - start + 1,
{
    if depth >= 4 || start < 0 || start >= w.len() {
        None
    } else {
        samasa_try(w, lex, start, depth, w.len() - 1)
    }
}

/// The search of [`samasa_from`] with the next part ending at char `idx` or before.
pub open spec fn samasa_try(w: Seq<char>, lex: Lexicon, start: int, depth: int, idx: int) -> Option<Seq<Seq<char>>>
    decreases w.len() - start, idx - start,
{
    if start < 0 || start >= w.len() || idx <= start || idx >= w.len() {
        samasa_tail(w, lex, start, depth)
    } else {
        let part = w.subrange(start, idx);
        if part.len() >= 2 && compound_part(part, lex) && samasa_from(w, lex, idx, depth + 1) is Some {
            Some(seq![part] + samasa_from(w, lex, idx, depth + 1)->Some_0)
        } else {
            samasa_try(w, lex, start, depth, idx - 1)
        }
    }
}

/// The rest of `w` from char `start` as the last member, where it is a
/// listed last member and the compound then has three parts or more.
pub open spec fn samasa_tail(w: Seq<char>, lex: Lexicon, start: int, depth: int) -> Option<Seq<Seq<char>>> {
    let tail = w.skip(start);
    if tail.len() >= 2 && compound_part(tail, lex) && word_list(WordList::MultiwordFinal).contains(tail) && depth + 1 >= 3 {
        Some(seq![tail])
    } else {
        None
    }
}

/// Strings by content.
pub open spec fn strs_view(v: Seq<String>) -> Seq<Seq<char>> {
    v.map_values(|x: String| x@)
}

fn samasa_exec(w: &Vec<char>, lex: &Lexicon, start: usize, depth: usize) -> (r: Option<Vec<String>>)
    requires
        start <= w.len(),
    ensures
        match r {
            Some(ps) => samasa_from(w@, *lex, start as int, depth as int) == Some(strs_view(ps@)),
            None => samasa_from(w@, *lex, start as int, depth as int) is None,
        },
    decreases w.len() - start,
{
    if depth >= 4 || start >= w.len() {
        return None;
    }
    let mut idx = w.len() - 1;
    while idx > start
        invariant
            start < w.len(),
            start <= idx < w.len(),
            depth < 4,
            samasa_from(w@, *lex, start as int, depth as int) == samasa_try(w@, *lex, start as int, depth as int, idx as int),
        decreases idx,
    {
        let part = string_of(&vec_slice(w, start, idx));
        if char_count(part.as_str()) >= 2 && is_compound_part(part.as_str(), lex) {
            match samasa_exec(w, lex, idx, depth + 1) {
                Some(rest) => {
                    let ghost rv = strs_view(rest@);
                    let ghost pv = part@;
                    let mut out: Vec<String> = Vec::new();
                    out.push(part);
                    let mut j: usize = 0;
                    while j < rest.len()
                        invariant
                            j <= rest.len(),
                            rv == strs_view(rest@),
                            strs_view(out@) == seq![pv] + rv.take(j as int),
                        decreases rest.len() - j,
                    {
                        let ghost o = out@;
                        let x = rest[j].clone();
                        assert(x@ == rv[j as int]);
                        out.push(x);
                        proof {
                            assert(strs_view(out@) =~= strs_view(o).push(rv[j as int]));
                            assert(rv.take(j + 1) =~= rv.take(j as int).push(rv[j as int]));
                        }
                        assert(strs_view(out@) =~= seq![pv] + rv.take(j + 1));
                        j = j + 1;
                    }
                    assert(rv.take(j as int) =~= rv);
                    return Some(out);
                },
                None => {},
            }
        }
        idx = idx - 1;
    }
    let tail = string_of(&vec_slice(w, start, w.len()));
    assert(tail@ == w@.skip(start as int));
    if char_count(tail.as_str()) >= 2 && is_compound_part(tail.as_str(), lex) && listed(WordList::MultiwordFinal, tail.as_str())
        && depth + 1 >= 3 {
        let ghost tv = tail@;
        let mut out: Vec<String> = Vec::new();
        out.push(tail);
        assert(strs_view(out@) =~= seq![tv]);
        Some(out)
    } else {
        None
    }
}

/// The words `ps` with a space between each two.
pub open spec fn join_words(ps: Seq<Seq<char>>) -> Seq<char>
    decreases ps.len(),
{
    if ps.len() == 0 {
        seq![]
    } else if ps.len() == 1 {
        ps[0]
    } else {
        join_words(ps.drop_last()) + " "@ + ps.last()
    }
}

/// How the parts of a long compound are written: word by word, except that
/// प्रज्ञा प्रतिष्ठान at the end is written with a hyphen.
pub open spec fn render_samasa(ps: Seq<Seq<char>>) -> Seq<char> {
    if ps.len() >= 2 && ps[ps.len() - 2] == "प्रज्ञा"@ && ps.last() == "प्रतिष्ठान"@ {
        join_words(ps.take(ps.len() - 2).push("प्रज्ञा-प्रतिष्ठान"@))
    } else {
        join_words(ps)
    }
}

fn join_words_exec(ps: &Vec<String>) -> (r: String)
    ensures
        r@ == join_words(strs_view(ps@)),
{
    let ghost pv = strs_view(ps@);
    if ps.len() == 0 {
        return String::new();
    }
    let mut out = ps[0].clone();
    assert(pv.take(1) =~= seq![pv[0]]);
    let mut i: usize = 1;
    while i < ps.len()
        invariant
            1 <= i <= ps.len(),
            pv == strs_view(ps@),
            out@ == join_words(pv.take(i as int)),
        decreases ps.len() - i,
    {
        out = concat3(out.as_str(), " ", ps[i].as_str());
        assert(pv.take(i + 1).drop_last() =~= pv.take(i as int));
        i = i + 1;
    }
    assert(pv.take(i as int) =~= pv);
    out
}

fn render_samasa_exec(ps: &Vec<String>) -> (r: String)
    ensures
        r@ == render_samasa(strs_view(ps@)),
{
    let ghost pv = strs_view(ps@);
    let n = ps.len();
    if n >= 2 && str_eq(ps[n - 2].as_str(), "प्रज्ञा") && str_eq(ps[n - 1].as_str(), "प्रतिष्ठान") {
        let mut head: Vec<String> = Vec::new();
        let mut i: usize = 0;
        while i < n - 2
            invariant
                n == ps.len(),
                n >= 2,
                i <= n - 2,
                pv == strs_view(ps@),
                strs_view(head@) == pv.take(i as int),
            decreases n - 2 - i,
        {
            let ghost o = head@;
            let x = ps[i].clone();
            assert(x@ == pv[i as int]);
            head.push(x);
            assert(strs_view(head@) =~= strs_view(o).push(pv[i as int]));
            assert(strs_view(head@) =~= pv.take(i + 1));
            i = i + 1;
        }
        let ghost hv = strs_view(head@);
        head.push(owned("प्रज्ञा-प्रतिष्ठान"));
        assert(strs_view(head@) =~= hv.push("प्रज्ञा-प्रतिष्ठान"@));
        join_words_exec(&head)
    } else {
        join_words_exec(ps)
    }
}

/// The explanation of a split of a long compound.
pub open spec fn samasa_explanation() -> Seq<char> {
    "शैक्षणिक व्याकरण पदवियोग (ट): दुईभन्दा बढी शब्दबाट बनेका समस्त शब्द पदवियोग गरी लेखिन्छन् ।"@
}

/// The word-by-word writing of a long compound.
pub open spec fn samasa_split(w: Seq<char>, lex: Lexicon) -> Option<Seq<char>> {
    match samasa_from(w, lex, 0, 0) {
        Some(ps) => if ps.len() >= 3 {
            Some(render_samasa(ps))
        } else {
            None
        },
        None => None,
    }
}

fn samasa_split_exec(w: &str, lex: &Lexicon) -> (r: Option<String>)
    ensures
        str_opt(r) == samasa_split(w@, *lex),
{
    let v = chars_of(w);
    match samasa_exec(&v, lex, 0, 0) {
        Some(ps) => if ps.len() >= 3 {
            Some(render_samasa_exec(&ps))
        } else {
            None
        },
        None => None,
    }
}

// ----- the rules on one segment -----

/// The general (घ) rules that look at one segment at a time.
#[derive(Debug, Clone, Copy, PartialEq, Eq, Structural)]
pub enum SegmentRule {
    /// A postposition after a case marker is written apart.
    NamayogiSplit,
    /// लागि, निम्ति and doubled case markers are written apart.
    LagiNimtiSplit,
    /// Particles that lean on a word or on the sentence are written apart.
    NipatSplit,
    /// An auxiliary after an aspect participle is written apart.
    AspectSplit,
    /// An auxiliary after the future participle in -ने is written apart.
    FutureSplit,
    /// A modal after an infinitive is written apart.
    ModalSplit,
    /// A meaningful doubling is written as two words.
    DwitvaSplit,
    /// A comparison word stands apart from what it compares.
    ComparisonSplit,
    /// The verb of a nominal verb phrase stands apart from the noun.
    NamikKriyaSplit,
    /// The verb of manner गरी stands apart.
    GariSplit,
    /// The classifier जना stands apart.
    JanaSplit,
    /// The dividing न stands apart.
    DivisiveNaSplit,
    /// A compound of more than two words is written word by word.
    MultiwordSamasaSplit,
    /// Institutional terms are written apart even in a compound.
    InstitutionalSplit,
    /// The head of a title name is written apart.
    TitleNameSplit,
}

/// The state after rule `r` looks at segment `seg` of `text`.
pub open spec fn segment_step(r: SegmentRule, text: Seq<char>, lex: Lexicon, st: PassState, seg: TokenView) -> PassState {
    let w = seg.text;
    match r {
        SegmentRule::NamayogiSplit => if !plain_word(w) {
            st
        } else {
            match namayogi_split_from(w, lex, 0) {
                Some(c) => offer_rewrite(text, st, seg, c, namayogi_split_explanation(), 910),
                None => st,
            }
        },
        SegmentRule::LagiNimtiSplit => if !devanagari_word(w) {
            st
        } else {
            match lagi_split(w) {
                Some(c) => if !free_span(st, text, seg_span(seg)) || c == w {
                    st
                } else {
                    report(st, phrase_finding(seg_span(seg), w, c, lagi_explanation(), 900))
                },
                None => st,
            }
        },
        SegmentRule::NipatSplit => if !plain_word(w) {
            st
        } else {
            particle_step(text, lex, st, seg)
        },
        SegmentRule::DwitvaSplit => if !plain_word(w) {
            st
        } else {
            match dwitva_split(w, lex) {
                Some(c) => offer_rewrite(text, st, seg, c, dwitva_explanation(), 880),
                None => st,
            }
        },
        SegmentRule::ComparisonSplit => if !plain_word(w) {
            st
        } else {
            listed_split_from(text, lex, st, seg, WordList::Comparison, false, comparison_explanation(), 920, 0)
        },
        SegmentRule::NamikKriyaSplit => if !plain_word(w) {
            st
        } else {
            listed_split_from(text, lex, st, seg, WordList::NamikKriya, true, namik_kriya_explanation(), 910, 0)
        },
        SegmentRule::GariSplit => if !plain_word(w) {
            st
        } else {
            listed_split_from(text, lex, st, seg, WordList::Gari, true, gari_explanation(), 900, 0)
        },
        SegmentRule::JanaSplit => if !plain_word(w) {
            st
        } else {
            match jana_split(w, lex) {
                Some(c) => offer_rewrite(text, st, seg, c, jana_explanation(), 900),
                None => st,
            }
        },
        SegmentRule::DivisiveNaSplit => if !plain_word(w) {
            st
        } else {
            match divisive_na_split(w, lex) {
                Some(c) => offer_rewrite(text, st, seg, c, divisive_na_explanation(), 890),
                None => st,
            }
        },
        SegmentRule::MultiwordSamasaSplit => if !plain_word(w) {
            st
        } else {
            match samasa_split(w, lex) {
                Some(c) => offer_rewrite(text, st, seg, c, samasa_explanation(), 890),
                None => st,
            }
        },
        SegmentRule::InstitutionalSplit => if !plain_word(w) {
            st
        } else {
            compound_split_from(text, lex, st, seg, WordList::Institutional, institutional_explanation(), 890, 0)
        },
        SegmentRule::TitleNameSplit => if !plain_word(w) {
            st
        } else {
            compound_split_from(text, lex, st, seg, WordList::TitleName, title_name_explanation(), 880, 0)
        },
        _ => {
            let (aspect, future, modal) = match r {
                SegmentRule::AspectSplit => (true, false, false),
                SegmentRule::FutureSplit => (false, true, false),
                _ => (false, false, true),
            };
            if !devanagari_word(w) {
                st
            } else {
                match verb_split(w, aspect, future, modal) {
                    None => st,
                    Some((c, sub)) => if c == w || !free_span(st, text, seg_span(seg)) {
                        st
                    } else {
                        report(st, phrase_finding(seg_span(seg), w, c, verb_explanation(sub), 900))
                    },
                }
            }
        },
    }
}

/// The explanation of a comparison split.
pub open spec fn comparison_explanation() -> Seq<char> {
    "शैक्षणिक व्याकरण पदवियोग (झ): जस्तो/जस्तै/जत्रो/जसरी जस्ता तुलनाबोधक पदका अगाडि आउने नाम, सर्वनाम आदि अलग डिकामा लेखिन्छन्"@
}

/// The explanation of a nominal-verb split.
pub open spec fn namik_kriya_explanation() -> Seq<char> {
    "शैक्षणिक व्याकरण पदवियोग (घ): यस्तै नामिक क्रियासँग आउने नाम अलग डिकामा लेखिन्छन् ।"@
}

/// The explanation of a split of गरी.
pub open spec fn gari_explanation() -> Seq<char> {
    "शैक्षणिक व्याकरण पदवियोग (ङ): रीति जनाउने इकारान्त क्रियालाई अघिल्लो शब्दसँग पदवियोग गरी लेखिन्छ ।"@
}

/// The explanation of an institutional split.
pub open spec fn institutional_explanation() -> Seq<char> {
    "शैक्षणिक व्याकरण पदवियोग (ख): समास भए पनि यस्ता संस्थागत/विषयगत पदहरू अलग डिकामा लेखिन्छन् ।"@
}

/// The explanation of a title-name split.
pub open spec fn title_name_explanation() -> Seq<char> {
    "शैक्षणिक व्याकरण पदवियोग (ञ): व्यक्ति, जाति, स्थान आदिको शीर्ष नाम जनाउने पद अलग डिकामा लेखिन्छ ।"@
}

/// Rule `r` applied to the segments `segs`, in order.
pub open spec fn segment_pass(r: SegmentRule, text: Seq<char>, lex: Lexicon, segs: Seq<TokenView>, st: PassState) -> PassState
    decreases segs.len(),
{
    if segs.len() == 0 {
        st
    } else {
        segment_step(r, text, lex, segment_pass(r, text, lex, segs.drop_last(), st), segs.last())
    }
}

fn apply_listed_split(
    text: &str,
    lex: &Lexicon,
    seg: &Token,
    l: WordList,
    attested_host: bool,
    explanation: &str,
    confidence: u16,
    blocked: &mut Vec<(usize, usize)>,
    diagnostics: &mut Vec<Diagnostic>,
)
    ensures
        state_of(final(diagnostics)@, final(blocked)@) == listed_split_from(
            text@,
            *lex,
            state_of(old(diagnostics)@, old(blocked)@),
            seg@,
            l,
            attested_host,
            explanation@,
            confidence as int,
            0,
        ),
{
    let ghost st0 = state_of(diagnostics@, blocked@);
    let word = seg.text.as_str();
    let n = char_count(word);
    let len = list_len(l);
    let mut k: usize = 0;
    while k < len
        invariant
            k <= len,
            len == word_list(l).len(),
            n == seg@.text.len(),
            word@ == seg@.text,
            state_of(diagnostics@, blocked@) == st0,
            st0 == state_of(old(diagnostics)@, old(blocked)@),
            listed_split_from(text@, *lex, st0, seg@, l, attested_host, explanation@, confidence as int, 0)
                == listed_split_from(text@, *lex, st0, seg@, l, attested_host, explanation@, confidence as int, k as int),
        decreases len - k,
    {
        let suf = list_word(l, k);
        if ends_with(word, suf) {
            let left = take_chars(word, n - char_count(suf));
            if char_count(left.as_str()) > 0 {
                if let Some(nl) = normalize_joined_word(left.as_str(), lex) {
                    if !attested_host || lex.is_accepted(nl.as_str()) {
                        let c = concat3(nl.as_str(), " ", suf);
                        assert(joined_normal(left@, *lex) == Some(nl@));
                        assert(left@ == strip_suffix(seg@.text, suf@));
                        if offer_seg_rewrite(text, seg, c, explanation, confidence, blocked, diagnostics) {
                            assert(listed_split_from(text@, *lex, st0, seg@, l, attested_host, explanation@, confidence as int, k as int) == state_of(diagnostics@, blocked@));
                            return;
                        }
                    }
                }
            }
        }
        k = k + 1;
    }
}

fn compound_split_exec(seg: &str, suf: &str) -> (r: Option<(String, String)>)
    ensures
        match r {
            Some((a, b)) => compound_split(seg@, suf@) == Some((a@, b@)),
            None => compound_split(seg@, suf@) is None,
        },
{
    let v = chars_of(seg);
    let p = chars_of(suf);
    proof {
        lemma_find_from(seg@, suf@, 0);
    }
    match vec_find_from(&v, &p, 0) {
        Some(i) => if i == 0 {
            None
        } else {
            Some((take_chars(seg, i), skip_chars(seg, i)))
        },
        None => None,
    }
}

fn apply_compound_split(
    text: &str,
    lex: &Lexicon,
    seg: &Token,
    l: WordList,
    explanation: &str,
    confidence: u16,
    blocked: &mut Vec<(usize, usize)>,
    diagnostics: &mut Vec<Diagnostic>,
)
    ensures
        state_of(final(diagnostics)@, final(blocked)@) == compound_split_from(
            text@,
            *lex,
            state_of(old(diagnostics)@, old(blocked)@),
            seg@,
            l,
            explanation@,
            confidence as int,
            0,
        ),
{
    let ghost st0 = state_of(diagnostics@, blocked@);
    let word = seg.text.as_str();
    let len = list_len(l);
    let mut k: usize = 0;
    while k < len
        invariant
            k <= len,
            len == word_list(l).len(),
            word@ == seg@.text,
            state_of(diagnostics@, blocked@) == st0,
            st0 == state_of(old(diagnostics)@, old(blocked)@),
            compound_split_from(text@, *lex, st0, seg@, l, explanation@, confidence as int, 0)
                == compound_split_from(text@, *lex, st0, seg@, l, explanation@, confidence as int, k as int),
        decreases len - k,
    {
        if let Some((left, right)) = compound_split_exec(word, list_word(l, k)) {
            if let Some(nl) = normalize_joined_word(left.as_str(), lex) {
                if lex.is_accepted(nl.as_str()) && lex.is_accepted(right.as_str()) {
                    let c = concat3(nl.as_str(), " ", right.as_str());
                    assert(joined_normal(left@, *lex) == Some(nl@));
                    if offer_seg_rewrite(text, seg, c, explanation, confidence, blocked, diagnostics) {
                        assert(compound_split_from(text@, *lex, st0, seg@, l, explanation@, confidence as int, k as int) == state_of(diagnostics@, blocked@));
                        return;
                    }
                }
            }
        }
        k = k + 1;
    }
}

fn apply_segment_rule(
    r: SegmentRule,
    text: &str,
    lex: &Lexicon,
    seg: &Token,
    blocked: &mut Vec<(usize, usize)>,
    diagnostics: &mut Vec<Diagnostic>,
)
    ensures
        state_of(final(diagnostics)@, final(blocked)@) == segment_step(r, text@, *lex, state_of(old(diagnostics)@, old(blocked)@), seg@),
{
    let span = (seg.start, seg.end);
    let word = seg.text.as_str();
    match r {
        SegmentRule::NamayogiSplit => {
            if is_plain_word(word) {
                if let Some(c) = namayogi_split(word, lex) {
                    offer_seg_rewrite(text, seg, c, "शैक्षणिक व्याकरण पदवियोग (क): विभक्तिपछि आउने नामयोगी अलग डिकामा लेखिन्छन् ।", 910, blocked, diagnostics);
                }
            }
        },
        SegmentRule::LagiNimtiSplit => {
            if !is_devanagari_word(word) {
                return;
            }
            if let Some(c) = lagi_split_exec(word) {
                if !span_free(text, blocked, diagnostics, span) || str_eq(c.as_str(), word) {
                    return;
                }
                report_finding(blocked, diagnostics, span, owned(word), c, owned(
                    "पदयोग/पदवियोग [3(घ)-पदवियोग-३ | लागि/निम्ति/दोहोरो विभक्ति छुट्याएर]: जोडिएर आएको पद छुट्याएर लेख्नुपर्छ",
                ), 900);
            }
        },
        SegmentRule::NipatSplit => {
            if is_plain_word(word) {
                add_particle_split(text, lex, seg, blocked, diagnostics);
            }
        },
        SegmentRule::DwitvaSplit => {
            if is_plain_word(word) {
                if let Some(c) = dwitva_split_exec(word, lex) {
                    offer_seg_rewrite(text, seg, c, "शैक्षणिक व्याकरण पदवियोग (ग): सार्थक द्वित्व शब्द पदवियोग गरी लेखिन्छन् ।", 880, blocked, diagnostics);
                }
            }
        },
        SegmentRule::ComparisonSplit => {
            if is_plain_word(word) {
                apply_listed_split(text, lex, seg, WordList::Comparison, false,
                    "शैक्षणिक व्याकरण पदवियोग (झ): जस्तो/जस्तै/जत्रो/जसरी जस्ता तुलनाबोधक पदका अगाडि आउने नाम, सर्वनाम आदि अलग डिकामा लेखिन्छन्",
                    920, blocked, diagnostics);
            }
        },
        SegmentRule::NamikKriyaSplit => {
            if is_plain_word(word) {
                apply_listed_split(text, lex, seg, WordList::NamikKriya, true,
                    "शैक्षणिक व्याकरण पदवियोग (घ): यस्तै नामिक क्रियासँग आउने नाम अलग डिकामा लेखिन्छन् ।",
                    910, blocked, diagnostics);
            }
        },
        SegmentRule::GariSplit => {
            if is_plain_word(word) {
                apply_listed_split(text, lex, seg, WordList::Gari, true,
                    "शैक्षणिक व्याकरण पदवियोग (ङ): रीति जनाउने इकारान्त क्रियालाई अघिल्लो शब्दसँग पदवियोग गरी लेखिन्छ ।",
                    900, blocked, diagnostics);
            }
        },
        SegmentRule::JanaSplit => {
            if is_plain_word(word) {
                if let Some(c) = jana_split_exec(word, lex) {
                    offer_seg_rewrite(text, seg, c, "शैक्षणिक व्याकरण पदवियोग (छ): जना शब्द अलग डिकामा लेखिन्छ ।", 900, blocked, diagnostics);
                }
            }
        },
        SegmentRule::DivisiveNaSplit => {
            if is_plain_word(word) {
                if let Some(c) = divisive_na_split_exec(word, lex) {
                    offer_seg_rewrite(text, seg, c, "शैक्षणिक व्याकरण पदवियोग (ज): विभाजक 'न' पदवियोग गरेर लेखिन्छ ।", 890, blocked, diagnostics);
                }
            }
        },
        SegmentRule::MultiwordSamasaSplit => {
            if is_plain_word(word) {
                if let Some(c) = samasa_split_exec(word, lex) {
                    offer_seg_rewrite(text, seg, c, "शैक्षणिक व्याकरण पदवियोग (ट): दुईभन्दा बढी शब्दबाट बनेका समस्त शब्द पदवियोग गरी लेखिन्छन् ।", 890, blocked, diagnostics);
                }
            }
        },
        SegmentRule::InstitutionalSplit => {
            if is_plain_word(word) {
                apply_compound_split(text, lex, seg, WordList::Institutional,
                    "शैक्षणिक व्याकरण पदवियोग (ख): समास भए पनि यस्ता संस्थागत/विषयगत पदहरू अलग डिकामा लेखिन्छन् ।",
                    890, blocked, diagnostics);
            }
        },
        SegmentRule::TitleNameSplit => {
            if is_plain_word(word) {
                apply_compound_split(text, lex, seg, WordList::TitleName,
                    "शैक्षणिक व्याकरण पदवियोग (ञ): व्यक्ति, जाति, स्थान आदिको शीर्ष नाम जनाउने पद अलग डिकामा लेखिन्छ ।",
                    880, blocked, diagnostics);
            }
        },
        _ => {
            let (aspect, future, modal) = match r {
                SegmentRule::AspectSplit => (true, false, false),
                SegmentRule::FutureSplit => (false, true, false),
                _ => (false, false, true),
            };
            if !is_devanagari_word(word) {
                return;
            }
            if let Some((c, sub)) = verb_split_exec(word, aspect, future, modal) {
                if str_eq(c.as_str(), word) || !span_free(text, blocked, diagnostics, span) {
                    return;
                }
                let a = concat("पदयोग/पदवियोग [", sub);
                let explanation = concat(a.as_str(), "]: क्रियापद पद छुट्याएर लेख्नुपर्छ");
                report_finding(blocked, diagnostics, span, owned(word), c, explanation, 900);
            }
        },
    }
}

fn run_segment_rule(
    r: SegmentRule,
    text: &str,
    lex: &Lexicon,
    segs: &Vec<Token>,
    blocked: &mut Vec<(usize, usize)>,
    diagnostics: &mut Vec<Diagnostic>,
)
    ensures
        state_of(final(diagnostics)@, final(blocked)@) == segment_pass(
            r,
            text@,
            *lex,
            tokens_view(segs@),
            state_of(old(diagnostics)@, old(blocked)@),
        ),
{
    let ghost st0 = state_of(diagnostics@, blocked@);
    let ghost sv = tokens_view(segs@);
    let mut i: usize = 0;
    assert(sv.take(0) =~= Seq::<TokenView>::empty());
    while i < segs.len()
        invariant
            i <= segs.len(),
            sv == tokens_view(segs@),
            state_of(diagnostics@, blocked@) == segment_pass(r, text@, *lex, sv.take(i as int), st0),
        decreases segs.len() - i,
    {
        proof {
            assert(sv.take(i + 1).drop_last() =~= sv.take(i as int));
            assert(sv.take(i + 1).last() == segs@[i as int]@);
        }
        apply_segment_rule(r, text, lex, &segs[i], blocked, diagnostics);
        i = i + 1;
    }
    assert(sv.take(i as int) =~= sv);
}


// ----- the rules on two and three neighbouring segments -----

/// The bytes from the start of `a` to the end of `b`.
pub open spec fn pair_span(a: TokenView, b: TokenView) -> (int, int) {
    (a.start, b.end)
}

/// The state after offering to rewrite the bytes `span` of `text` to `c`:
/// reported when the span is free, the rewrite changes it, and no finding
/// already makes it.
pub open spec fn offer_span(
    text: Seq<char>,
    st: PassState,
    span: (int, int),
    c: Seq<char>,
    explanation: Seq<char>,
    confidence: int,
) -> PassState {
    let inc = byte_slice(text, span.0, span.1);
    if free_span(st, text, span) && c != inc && !same_rewrite(st.diags, span, c) {
        report(st, phrase_finding(span, inc, c, explanation, confidence))
    } else {
        st
    }
}

fn offer_span_rewrite(
    text: &str,
    span: (usize, usize),
    c: String,
    explanation: &str,
    confidence: u16,
    blocked: &mut Vec<(usize, usize)>,
    diagnostics: &mut Vec<Diagnostic>,
)
    requires
        span.0 <= span.1,
    ensures
        state_of(final(diagnostics)@, final(blocked)@) == offer_span(
            text@,
            state_of(old(diagnostics)@, old(blocked)@),
            (span.0 as int, span.1 as int),
            c@,
            explanation@,
            confidence as int,
        ),
{
    let inc = slice_bytes(text, span.0, span.1);
    if span_free(text, blocked, diagnostics, span) && !str_eq(c.as_str(), inc.as_str())
        && !has_same_rewrite(diagnostics, span, c.as_str()) {
        report_finding(blocked, diagnostics, span, inc, c, owned(explanation), confidence);
    }
}

/// The joined spelling of the conjunction written as the two words `l` and `r`.
pub open spec fn conjunction(l: Seq<char>, r: Seq<char>) -> Option<Seq<char>> {
    if l == "किन"@ && r == "भने"@ {
        Some("किनभने"@)
    } else if l == "ताप"@ && r == "नि"@ {
        Some("तापनि"@)
    } else if l == "यद्य"@ && r == "पि"@ {
        Some("यद्यपि"@)
    } else if l == "तथा"@ && r == "पि"@ {
        Some("तथापि"@)
    } else {
        None
    }
}

fn conjunction_exec(l: &str, r: &str) -> (o: Option<&'static str>)
    ensures
        match o {
            Some(j) => conjunction(l@, r@) == Some(j@),
            None => conjunction(l@, r@) is None,
        },
{
    if str_eq(l, "किन") && str_eq(r, "भने") {
        Some("किनभने")
    } else if str_eq(l, "ताप") && str_eq(r, "नि") {
        Some("तापनि")
    } else if str_eq(l, "यद्य") && str_eq(r, "पि") {
        Some("यद्यपि")
    } else if str_eq(l, "तथा") && str_eq(r, "पि") {
        Some("तथापि")
    } else {
        None
    }
}

/// The explanation of a join of ज्यू.
pub open spec fn pratyaya_explanation() -> Seq<char> {
    "पदयोग/पदवियोग [3(घ)-पदयोग-२ | प्रत्यय जोडेर लेख्नुपर्छ]: मान्य आधार शब्दसँग मानार्थक प्रत्यय जोडेर लेख्नुपर्छ"@
}

/// The explanation of a join of a case marker.
pub open spec fn vibhakti_explanation() -> Seq<char> {
    "पदयोग/पदवियोग [3(घ)-पदयोग-३ | विभक्ति जोडेर लेख्नुपर्छ]: सामान्य विभक्ति पद जोडेर लेख्नुपर्छ"@
}

/// The explanation of a join of a postposition.
pub open spec fn namayogi_explanation() -> Seq<char> {
    "पदयोग/पदवियोग [3(घ)-पदयोग-४ | नामयोगी जोडेर लेख्नुपर्छ]: सामान्य नामयोगी पद जोडेर लेख्नुपर्छ"@
}

/// The explanation of a layered join that ends in a postposition.
pub open spec fn layered_namayogi_explanation() -> Seq<char> {
    "पदयोग/पदवियोग [3(घ)-पदयोग-४ | नामयोगी जोडेर लेख्नुपर्छ]: भित्री जोडाइ मिलाएर नामयोगी पद क्रमशः जोडेर लेख्नुपर्छ"@
}

/// The explanation of a layered join of a case marker.
pub open spec fn layered_vibhakti_explanation() -> Seq<char> {
    "पदयोग/पदवियोग [3(घ)-पदयोग-३ | विभक्ति जोडेर लेख्नुपर्छ]: भित्री जोडाइ मिलाएर विभक्ति पद जोडेर लेख्नुपर्छ"@
}

/// The explanation of a join of a conjunction.
pub open spec fn conjunction_explanation() -> Seq<char> {
    "पदयोग/पदवियोग [3(घ)-पदयोग-९ | संयोजक जोडेर लेख्नुपर्छ]: संयोजक पद जोडेर लेख्नुपर्छ"@
}

/// The explanation of a join of स्वरूप.
pub open spec fn swarup_explanation() -> Seq<char> {
    "शैक्षणिक व्याकरण पदयोग (ङ): रूपमा/रूपले भन्ने अभिप्रायमा आउने स्वरूप शब्द अघिल्लो नामिक अंशसँग जोडेर लेखिन्छ ।"@
}

/// The explanation of a join of a one-sense compound.
pub open spec fn ekarthi_explanation() -> Seq<char> {
    "शैक्षणिक व्याकरण पदयोग (ट): एकार्थी स्थान नाम वा दुई शब्दबाट बनेका एकार्थी शब्द पदयोग गरेर लेखिन्छ ।"@
}

/// The explanation of a join of a middle name.
pub open spec fn middle_name_explanation() -> Seq<char> {
    "शैक्षणिक व्याकरण पदयोग (ञ): नाम र थरका बिचमा आउने मध्यवर्ती नामलाई एकै डिकामा जोडेर लेखिन्छ ।"@
}

/// The general (घ) rules that look at two neighbouring segments.
#[derive(Debug, Clone, Copy, PartialEq, Eq, Structural)]
pub enum PairRule {
    /// The honorific ज्यू is joined to an attested host.
    PratyayaJoin,
    /// A case marker is joined to its host.
    VibhaktiJoin,
    /// A case marker or a postposition (with what follows it) is joined to
    /// its host, whatever else was found on the span.
    LayeredJoin,
    /// A postposition is joined to its host.
    NamayogiJoin,
    /// A conjunction written as two words is joined.
    ConjunctionJoin,
    /// स्वरूप is joined to the noun before it.
    SwarupJoin,
    /// A one-sense compound is joined.
    EkarthiJoin,
}

/// The state after rule `r` looks at the neighbouring segments `a` and `b` of `text`.
pub open spec fn pair_step(r: PairRule, text: Seq<char>, lex: Lexicon, st: PassState, a: TokenView, b: TokenView) -> PassState {
    let span = pair_span(a, b);
    let hosts = devanagari_word(a.text) && devanagari_word(b.text) && !numeric_segment(a.text);
    match r {
        PairRule::PratyayaJoin => if hosts && b.text == "ज्यू"@ && lex.supports(a.text) {
            offer_span(text, st, span, a.text + b.text, pratyaya_explanation(), 910)
        } else {
            st
        },
        PairRule::VibhaktiJoin => if hosts && word_list(WordList::Vibhakti).contains(b.text) && joined_normal(
            a.text + b.text,
            lex,
        ) is Some {
            offer_span(text, st, span, joined_normal(a.text + b.text, lex)->Some_0, vibhakti_explanation(), 920)
        } else {
            st
        },
        PairRule::NamayogiJoin => if hosts && word_list(WordList::Namayogi).contains(b.text) && joined_normal(
            a.text + b.text,
            lex,
        ) is Some {
            offer_span(text, st, span, joined_normal(a.text + b.text, lex)->Some_0, namayogi_explanation(), 920)
        } else {
            st
        },
        PairRule::LayeredJoin => if hosts && (word_list(WordList::Vibhakti).contains(b.text) || namayogi_initial(b.text))
            && joined_normal(a.text + b.text, lex) is Some {
            let c = joined_normal(a.text + b.text, lex)->Some_0;
            let inc = byte_slice(text, span.0, span.1);
            if word_boundary(text, span.0, span.1) && c != inc && !same_rewrite(st.diags, span, c) {
                if namayogi_initial(b.text) {
                    report(st, phrase_finding(span, inc, c, layered_namayogi_explanation(), 940))
                } else {
                    report(st, phrase_finding(span, inc, c, layered_vibhakti_explanation(), 930))
                }
            } else {
                st
            }
        } else {
            st
        },
        PairRule::ConjunctionJoin => match conjunction(a.text, b.text) {
            Some(j) => if free_span(st, text, span) {
                report(st, phrase_finding(span, byte_slice(text, span.0, span.1), j, conjunction_explanation(), 940))
            } else {
                st
            },
            None => st,
        },
        PairRule::SwarupJoin => if hosts && b.text == "स्वरूप"@ && joined_normal(a.text, lex) is Some {
            let c = joined_normal(a.text, lex)->Some_0 + "स्वरूप"@;
            let inc = byte_slice(text, span.0, span.1);
            if free_span(st, text, span) && c != inc && lex.accepts(c) {
                report(st, phrase_finding(span, inc, c, swarup_explanation(), 930))
            } else {
                st
            }
        } else {
            st
        },
        PairRule::EkarthiJoin => if hosts && word_list(WordList::EkarthiRight).contains(b.text)
            && !byte_slice(text, span.0, span.1).contains('\n') && joined_normal(a.text, lex) is Some
            && lex.accepts(joined_normal(a.text, lex)->Some_0 + b.text) {
            offer_span(text, st, span, joined_normal(a.text, lex)->Some_0 + b.text, ekarthi_explanation(), 900)
        } else {
            st
        },
    }
}

fn apply_pair_rule(
    r: PairRule,
    text: &str,
    lex: &Lexicon,
    a: &Token,
    b: &Token,
    blocked: &mut Vec<(usize, usize)>,
    diagnostics: &mut Vec<Diagnostic>,
)
    requires
        a.start <= b.end,
    ensures
        state_of(final(diagnostics)@, final(blocked)@) == pair_step(r, text@, *lex, state_of(old(diagnostics)@, old(blocked)@), a@, b@),
{
    let span = (a.start, b.end);
    let l = a.text.as_str();
    let rt = b.text.as_str();
    let hosts = is_devanagari_word(l) && is_devanagari_word(rt) && !is_numeric_segment(l);
    match r {
        PairRule::PratyayaJoin => {
            if hosts && str_eq(rt, "ज्यू") && lex.is_supported(l) {
                offer_span_rewrite(text, span, concat(l, rt), "पदयोग/पदवियोग [3(घ)-पदयोग-२ | प्रत्यय जोडेर लेख्नुपर्छ]: मान्य आधार शब्दसँग मानार्थक प्रत्यय जोडेर लेख्नुपर्छ", 910, blocked, diagnostics);
            }
        },
        PairRule::VibhaktiJoin => {
            if hosts && listed(WordList::Vibhakti, rt) {
                if let Some(c) = normalize_joined_word(concat(l, rt).as_str(), lex) {
                    offer_span_rewrite(text, span, c, "पदयोग/पदवियोग [3(घ)-पदयोग-३ | विभक्ति जोडेर लेख्नुपर्छ]: सामान्य विभक्ति पद जोडेर लेख्नुपर्छ", 920, blocked, diagnostics);
                }
            }
        },
        PairRule::NamayogiJoin => {
            if hosts && listed(WordList::Namayogi, rt) {
                if let Some(c) = normalize_joined_word(concat(l, rt).as_str(), lex) {
                    offer_span_rewrite(text, span, c, "पदयोग/पदवियोग [3(घ)-पदयोग-४ | नामयोगी जोडेर लेख्नुपर्छ]: सामान्य नामयोगी पद जोडेर लेख्नुपर्छ", 920, blocked, diagnostics);
                }
            }
        },
        PairRule::LayeredJoin => {
            if hosts && (listed(WordList::Vibhakti, rt) || starts_with_namayogi(rt)) {
                if let Some(c) = normalize_joined_word(concat(l, rt).as_str(), lex) {
                    let inc = slice_bytes(text, span.0, span.1);
                    if is_word_boundary(text, span.0, span.1) && !str_eq(c.as_str(), inc.as_str())
                        && !has_same_rewrite(diagnostics, span, c.as_str()) {
                        if starts_with_namayogi(rt) {
                            report_finding(blocked, diagnostics, span, inc, c, owned("पदयोग/पदवियोग [3(घ)-पदयोग-४ | नामयोगी जोडेर लेख्नुपर्छ]: भित्री जोडाइ मिलाएर नामयोगी पद क्रमशः जोडेर लेख्नुपर्छ"), 940);
                        } else {
                            report_finding(blocked, diagnostics, span, inc, c, owned("पदयोग/पदवियोग [3(घ)-पदयोग-३ | विभक्ति जोडेर लेख्नुपर्छ]: भित्री जोडाइ मिलाएर विभक्ति पद जोडेर लेख्नुपर्छ"), 930);
                        }
                    }
                }
            }
        },
        PairRule::ConjunctionJoin => {
            if let Some(j) = conjunction_exec(l, rt) {
                if span_free(text, blocked, diagnostics, span) {
                    let inc = slice_bytes(text, span.0, span.1);
                    report_finding(blocked, diagnostics, span, inc, owned(j), owned("पदयोग/पदवियोग [3(घ)-पदयोग-९ | संयोजक जोडेर लेख्नुपर्छ]: संयोजक पद जोडेर लेख्नुपर्छ"), 940);
                }
            }
        },
        PairRule::SwarupJoin => {
            if hosts && str_eq(rt, "स्वरूप") {
                if let Some(nl) = normalize_joined_word(l, lex) {
                    let c = concat(nl.as_str(), "स्वरूप");
                    let inc = slice_bytes(text, span.0, span.1);
                    if span_free(text, blocked, diagnostics, span) && !str_eq(c.as_str(), inc.as_str()) && lex.is_accepted(c.as_str()) {
                        report_finding(blocked, diagnostics, span, inc, c, owned("शैक्षणिक व्याकरण पदयोग (ङ): रूपमा/रूपले भन्ने अभिप्रायमा आउने स्वरूप शब्द अघिल्लो नामिक अंशसँग जोडेर लेखिन्छ ।"), 930);
                    }
                }
            }
        },
        PairRule::EkarthiJoin => {
            if hosts && listed(WordList::EkarthiRight, rt) && !contains_char(slice_bytes(text, span.0, span.1).as_str(), '\n') {
                if let Some(nl) = normalize_joined_word(l, lex) {
                    let c = concat(nl.as_str(), rt);
                    if lex.is_accepted(c.as_str()) {
                        offer_span_rewrite(text, span, c, "शैक्षणिक व्याकरण पदयोग (ट): एकार्थी स्थान नाम वा दुई शब्दबाट बनेका एकार्थी शब्द पदयोग गरेर लेखिन्छ ।", 900, blocked, diagnostics);
                    }
                }
            }
        },
    }
}

/// Rule `r` applied to each pair of neighbouring segments of `segs`, in order.
pub open spec fn pair_pass(r: PairRule, text: Seq<char>, lex: Lexicon, segs: Seq<TokenView>, st: PassState) -> PassState
    decreases segs.len(),
{
    if segs.len() < 2 {
        st
    } else {
        pair_step(r, text, lex, pair_pass(r, text, lex, segs.drop_last(), st), segs[segs.len() - 2], segs.last())
    }
}

/// The general (घ) rules that look at three neighbouring segments.
#[derive(Debug, Clone, Copy, PartialEq, Eq, Structural)]
pub enum TripleRule {
    /// A postposition written with a case marker after it is joined, with
    /// the case marker, to its host.
    LayeredJoin,
    /// A middle name is joined to the first name before it.
    MiddleNameJoin,
}

/// The state after rule `r` looks at the neighbouring segments `a`, `m` and `b` of `text`.
pub open spec fn triple_step(
    r: TripleRule,
    text: Seq<char>,
    lex: Lexicon,
    st: PassState,
    a: TokenView,
    m: TokenView,
    b: TokenView,
) -> PassState {
    let span = pair_span(a, b);
    let inc = byte_slice(text, span.0, span.1);
    let words = devanagari_word(a.text) && devanagari_word(m.text) && devanagari_word(b.text);
    match r {
        TripleRule::LayeredJoin => if words && !numeric_segment(a.text) && !numeric_segment(m.text)
            && word_list(WordList::Vibhakti).contains(b.text) && joined_normal(m.text + b.text, lex) is Some
            && namayogi_initial(joined_normal(m.text + b.text, lex)->Some_0) && joined_normal(
            a.text + joined_normal(m.text + b.text, lex)->Some_0,
            lex,
        ) is Some {
            let c = joined_normal(a.text + joined_normal(m.text + b.text, lex)->Some_0, lex)->Some_0;
            if word_boundary(text, span.0, span.1) && c != inc && !same_rewrite(st.diags, span, c) {
                report(st, phrase_finding(span, inc, c, layered_namayogi_explanation(), 940))
            } else {
                st
            }
        } else {
            st
        },
        TripleRule::MiddleNameJoin => if words && !numeric_segment(a.text) && !numeric_segment(m.text) && !numeric_segment(
            b.text,
        ) && !inc.contains('\n') && name_like(a.text, lex) && name_like(m.text, lex) && name_like(a.text + m.text, lex)
            && name_like(b.text, lex) && !word_list(WordList::TitleName).contains(b.text) && !word_list(
            WordList::Institutional,
        ).contains(b.text) && !word_list(WordList::MultiwordFinal).contains(b.text) {
            offer_span(text, st, span, a.text + m.text + " "@ + b.text, middle_name_explanation(), 880)
        } else {
            st
        },
    }
}

fn apply_triple_rule(
    r: TripleRule,
    text: &str,
    lex: &Lexicon,
    a: &Token,
    m: &Token,
    b: &Token,
    blocked: &mut Vec<(usize, usize)>,
    diagnostics: &mut Vec<Diagnostic>,
)
    requires
        a.start <= b.end,
    ensures
        state_of(final(diagnostics)@, final(blocked)@) == triple_step(r, text@, *lex, state_of(old(diagnostics)@, old(blocked)@), a@, m@, b@),
{
    let span = (a.start, b.end);
    let l = a.text.as_str();
    let mid = m.text.as_str();
    let rt = b.text.as_str();
    let words = is_devanagari_word(l) && is_devanagari_word(mid) && is_devanagari_word(rt);
    match r {
        TripleRule::LayeredJoin => {
            if words && !is_numeric_segment(l) && !is_numeric_segment(mid) && listed(WordList::Vibhakti, rt) {
                if let Some(inner) = normalize_joined_word(concat(mid, rt).as_str(), lex) {
                    if starts_with_namayogi(inner.as_str()) {
                        if let Some(c) = normalize_joined_word(concat(l, inner.as_str()).as_str(), lex) {
                            let inc = slice_bytes(text, span.0, span.1);
                            if is_word_boundary(text, span.0, span.1) && !str_eq(c.as_str(), inc.as_str())
                                && !has_same_rewrite(diagnostics, span, c.as_str()) {
                                report_finding(blocked, diagnostics, span, inc, c, owned("पदयोग/पदवियोग [3(घ)-पदयोग-४ | नामयोगी जोडेर लेख्नुपर्छ]: भित्री जोडाइ मिलाएर नामयोगी पद क्रमशः जोडेर लेख्नुपर्छ"), 940);
                            }
                        }
                    }
                }
            }
        },
        TripleRule::MiddleNameJoin => {
            if words && !is_numeric_segment(l) && !is_numeric_segment(mid) && !is_numeric_segment(rt)
                && !contains_char(slice_bytes(text, span.0, span.1).as_str(), '\n') {
                let joined = concat(l, mid);
                if is_name_like(l, lex) && is_name_like(mid, lex) && is_name_like(joined.as_str(), lex) && is_name_like(rt, lex)
                    && !listed(WordList::TitleName, rt) && !listed(WordList::Institutional, rt)
                    && !listed(WordList::MultiwordFinal, rt) {
                    let c = concat3(joined.as_str(), " ", rt);
                    offer_span_rewrite(text, span, c, "शैक्षणिक व्याकरण पदयोग (ञ): नाम र थरका बिचमा आउने मध्यवर्ती नामलाई एकै डिकामा जोडेर लेखिन्छ ।", 880, blocked, diagnostics);
                }
            }
        },
    }
}

/// Rule `r` applied to each run of three neighbouring segments of `segs`, in order.
pub open spec fn triple_pass(r: TripleRule, text: Seq<char>, lex: Lexicon, segs: Seq<TokenView>, st: PassState) -> PassState
    decreases segs.len(),
{
    if segs.len() < 3 {
        st
    } else {
        triple_step(
            r,
            text,
            lex,
            triple_pass(r, text, lex, segs.drop_last(), st),
            segs[segs.len() - 3],
            segs[segs.len() - 2],
            segs.last(),
        )
    }
}


fn run_pair_rule(
    r: PairRule,
    text: &str,
    lex: &Lexicon,
    segs: &Vec<Token>,
    blocked: &mut Vec<(usize, usize)>,
    diagnostics: &mut Vec<Diagnostic>,
)
    requires
        tokens_view(segs@) == segments_of(text@),
    ensures
        state_of(final(diagnostics)@, final(blocked)@) == pair_pass(
            r,
            text@,
            *lex,
            tokens_view(segs@),
            state_of(old(diagnostics)@, old(blocked)@),
        ),
{
    let ghost st0 = state_of(diagnostics@, blocked@);
    let ghost sv = tokens_view(segs@);
    if segs.len() < 2 {
        return;
    }
    proof {
        lemma_segments_sorted(text@);
        assert(sv.take(1).len() == 1);
    }
    let mut i: usize = 0;
    while i + 1 < segs.len()
        invariant
            i + 1 <= segs.len(),
            sv == tokens_view(segs@),
            sv == segments_of(text@),
            forall|k: int| 0 <= k < sv.len() ==> (#[trigger] sv[k]).start <= sv[k].end,
            forall|x: int, y: int| 0 <= x < y < sv.len() ==> (#[trigger] sv[x]).end <= (#[trigger] sv[y]).start,
            state_of(diagnostics@, blocked@) == pair_pass(r, text@, *lex, sv.take(i + 1), st0),
        decreases segs.len() - i,
    {
        proof {
            let t = sv.take(i + 2);
            assert(t.drop_last() =~= sv.take(i + 1));
            assert(t[t.len() - 2] == segs@[i as int]@);
            assert(t.last() == segs@[i + 1]@);
            assert(sv[i as int].start <= sv[i as int].end);
            assert(sv[i as int].end <= sv[i + 1].start);
        }
        apply_pair_rule(r, text, lex, &segs[i], &segs[i + 1], blocked, diagnostics);
        i = i + 1;
    }
    assert(sv.take(i + 1) =~= sv);
}

fn run_triple_rule(
    r: TripleRule,
    text: &str,
    lex: &Lexicon,
    segs: &Vec<Token>,
    blocked: &mut Vec<(usize, usize)>,
    diagnostics: &mut Vec<Diagnostic>,
)
    requires
        tokens_view(segs@) == segments_of(text@),
    ensures
        state_of(final(diagnostics)@, final(blocked)@) == triple_pass(
            r,
            text@,
            *lex,
            tokens_view(segs@),
            state_of(old(diagnostics)@, old(blocked)@),
        ),
{
    let ghost st0 = state_of(diagnostics@, blocked@);
    let ghost sv = tokens_view(segs@);
    if segs.len() < 3 {
        return;
    }
    proof {
        lemma_segments_sorted(text@);
        assert(sv.take(2).len() == 2);
    }
    let mut i: usize = 0;
    while i + 2 < segs.len()
        invariant
            i + 2 <= segs.len(),
            sv == tokens_view(segs@),
            sv == segments_of(text@),
            forall|k: int| 0 <= k < sv.len() ==> (#[trigger] sv[k]).start <= sv[k].end,
            forall|x: int, y: int| 0 <= x < y < sv.len() ==> (#[trigger] sv[x]).end <= (#[trigger] sv[y]).start,
            state_of(diagnostics@, blocked@) == triple_pass(r, text@, *lex, sv.take(i + 2), st0),
        decreases segs.len() - i,
    {
        proof {
            let t = sv.take(i + 3);
            assert(t.drop_last() =~= sv.take(i + 2));
            assert(t[t.len() - 3] == segs@[i as int]@);
            assert(t[t.len() - 2] == segs@[i + 1]@);
            assert(t.last() == segs@[i + 2]@);
            assert(sv[i as int].start <= sv[i as int].end);
            assert(sv[i as int].end <= sv[i + 2].start);
            assert(sv[i + 2].start <= sv[i + 2].end);
        }
        apply_triple_rule(r, text, lex, &segs[i], &segs[i + 1], &segs[i + 2], blocked, diagnostics);
        i = i + 1;
    }
    assert(sv.take(i + 2) =~= sv);
}

// ----- the whole general pass -----

/// One step of the general pass: a rule and what it looks at.
#[derive(Debug, Clone, Copy, PartialEq, Eq, Structural)]
pub enum PhraseStep {
    /// A rule on one segment at a time.
    Segment(SegmentRule),
    /// A rule on two neighbouring segments.
    Pair(PairRule),
    /// A rule on three neighbouring segments.
    Triple(TripleRule),
}

/// The steps of the general pass, in the order they run: the joins of the
/// पदयोग sub-rules, then the splits of the पदवियोग sub-rules, then the
/// rules of the school grammar.
pub open spec fn general_steps() -> Seq<PhraseStep> {
    seq![
        PhraseStep::Pair(PairRule::PratyayaJoin),
        PhraseStep::Pair(PairRule::VibhaktiJoin),
        PhraseStep::Pair(PairRule::LayeredJoin),
        PhraseStep::Triple(TripleRule::LayeredJoin),
        PhraseStep::Pair(PairRule::NamayogiJoin),
        PhraseStep::Pair(PairRule::ConjunctionJoin),
        PhraseStep::Segment(SegmentRule::NamayogiSplit),
        PhraseStep::Segment(SegmentRule::LagiNimtiSplit),
        PhraseStep::Segment(SegmentRule::NipatSplit),
        PhraseStep::Segment(SegmentRule::AspectSplit),
        PhraseStep::Segment(SegmentRule::FutureSplit),
        PhraseStep::Segment(SegmentRule::ModalSplit),
        PhraseStep::Segment(SegmentRule::DwitvaSplit),
        PhraseStep::Segment(SegmentRule::ComparisonSplit),
        PhraseStep::Pair(PairRule::SwarupJoin),
        PhraseStep::Triple(TripleRule::MiddleNameJoin),
        PhraseStep::Pair(PairRule::EkarthiJoin),
        PhraseStep::Segment(SegmentRule::NamikKriyaSplit),
        PhraseStep::Segment(SegmentRule::GariSplit),
        PhraseStep::Segment(SegmentRule::JanaSplit),
        PhraseStep::Segment(SegmentRule::DivisiveNaSplit),
        PhraseStep::Segment(SegmentRule::MultiwordSamasaSplit),
        PhraseStep::Segment(SegmentRule::InstitutionalSplit),
        PhraseStep::Segment(SegmentRule::TitleNameSplit),
    ]
}

fn general_step(k: usize) -> (p: PhraseStep)
    requires
        k < 24,
    ensures
        p == general_steps()[k as int],
{
    if k == 0 {
        PhraseStep::Pair(PairRule::PratyayaJoin)
    } else if k == 1 {
        PhraseStep::Pair(PairRule::VibhaktiJoin)
    } else if k == 2 {
        PhraseStep::Pair(PairRule::LayeredJoin)
    } else if k == 3 {
        PhraseStep::Triple(TripleRule::LayeredJoin)
    } else if k == 4 {
        PhraseStep::Pair(PairRule::NamayogiJoin)
    } else if k == 5 {
        PhraseStep::Pair(PairRule::ConjunctionJoin)
    } else if k == 6 {
        PhraseStep::Segment(SegmentRule::NamayogiSplit)
    } else if k == 7 {
        PhraseStep::Segment(SegmentRule::LagiNimtiSplit)
    } else if k == 8 {
        PhraseStep::Segment(SegmentRule::NipatSplit)
    } else if k == 9 {
        PhraseStep::Segment(SegmentRule::AspectSplit)
    } else if k == 10 {
        PhraseStep::Segment(SegmentRule::FutureSplit)
    } else if k == 11 {
        PhraseStep::Segment(SegmentRule::ModalSplit)
    } else if k == 12 {
        PhraseStep::Segment(SegmentRule::DwitvaSplit)
    } else if k == 13 {
        PhraseStep::Segment(SegmentRule::ComparisonSplit)
    } else if k == 14 {
        PhraseStep::Pair(PairRule::SwarupJoin)
    } else if k == 15 {
        PhraseStep::Triple(TripleRule::MiddleNameJoin)
    } else if k == 16 {
        PhraseStep::Pair(PairRule::EkarthiJoin)
    } else if k == 17 {
        PhraseStep::Segment(SegmentRule::NamikKriyaSplit)
    } else if k == 18 {
        PhraseStep::Segment(SegmentRule::GariSplit)
    } else if k == 19 {
        PhraseStep::Segment(SegmentRule::JanaSplit)
    } else if k == 20 {
        PhraseStep::Segment(SegmentRule::DivisiveNaSplit)
    } else if k == 21 {
        PhraseStep::Segment(SegmentRule::MultiwordSamasaSplit)
    } else if k == 22 {
        PhraseStep::Segment(SegmentRule::InstitutionalSplit)
    } else {
        PhraseStep::Segment(SegmentRule::TitleNameSplit)
    }
}

/// Step `p` run over the segments `segs` of `text`.
pub open spec fn step_pass(p: PhraseStep, text: Seq<char>, lex: Lexicon, segs: Seq<TokenView>, st: PassState) -> PassState {
    match p {
        PhraseStep::Segment(r) => segment_pass(r, text, lex, segs, st),
        PhraseStep::Pair(r) => pair_pass(r, text, lex, segs, st),
        PhraseStep::Triple(r) => triple_pass(r, text, lex, segs, st),
    }
}

/// The steps `steps`, run in order.
pub open spec fn steps_pass(steps: Seq<PhraseStep>, text: Seq<char>, lex: Lexicon, segs: Seq<TokenView>, st: PassState) -> PassState
    decreases steps.len(),
{
    if steps.len() == 0 {
        st
    } else {
        step_pass(steps.last(), text, lex, segs, steps_pass(steps.drop_last(), text, lex, segs, st))
    }
}

/// The general (घ) pass over `text` from the state `st`.
pub open spec fn general_pass(text: Seq<char>, lex: Lexicon, st: PassState) -> PassState {
    steps_pass(general_steps(), text, lex, segments_of(text), st)
}

/// The general (घ) pass: every general join and split rule, in order, over
/// the white-space segments of `text`; each finding blocks its span for the
/// rules after it.
pub fn add_generalized_padayog_padabiyog_diagnostics(
    text: &str,
    lex: &Lexicon,
    blocked: &mut Vec<(usize, usize)>,
    diagnostics: &mut Vec<Diagnostic>,
)
    ensures
        state_of(final(diagnostics)@, final(blocked)@) == general_pass(text@, *lex, state_of(old(diagnostics)@, old(blocked)@)),
{
    let segs = whitespace_segments(text);
    let ghost st0 = state_of(diagnostics@, blocked@);
    let ghost steps = general_steps();
    let ghost sv = tokens_view(segs@);
    let mut k: usize = 0;
    assert(steps.take(0) =~= Seq::<PhraseStep>::empty());
    while k < 24
        invariant
            k <= 24,
            steps == general_steps(),
            steps.len() == 24,
            sv == tokens_view(segs@),
            sv == segments_of(text@),
            state_of(diagnostics@, blocked@) == steps_pass(steps.take(k as int), text@, *lex, sv, st0),
        decreases 24 - k,
    {
        let p = general_step(k);
        proof {
            assert(steps.take(k + 1).drop_last() =~= steps.take(k as int));
            assert(steps.take(k + 1).last() == p);
        }
        match p {
            PhraseStep::Segment(r) => run_segment_rule(r, text, lex, &segs, blocked, diagnostics),
            PhraseStep::Pair(r) => run_pair_rule(r, text, lex, &segs, blocked, diagnostics),
            PhraseStep::Triple(r) => run_triple_rule(r, text, lex, &segs, blocked, diagnostics),
        }
        k = k + 1;
    }
    assert(steps.take(24) =~= steps);
}


// ----- what the general pass keeps -----

/// `st2` extends `st` by general (घ) findings: the findings and blocked
/// spans of `st` stay in place, and each finding added is a firm (घ)
/// finding on whole words of `text` whose span is blocked.
pub open spec fn phrase_extension(text: Seq<char>, st: PassState, st2: PassState) -> bool {
    &&& st.diags.len() <= st2.diags.len()
    &&& st2.diags.take(st.diags.len() as int) == st.diags
    &&& st.blocked.len() <= st2.blocked.len()
    &&& st2.blocked.take(st.blocked.len() as int) == st.blocked
    &&& forall|i: int|
        st.diags.len() <= i < st2.diags.len() ==> {
            &&& (#[trigger] st2.diags[i]).rule == RuleView::VarnaVinyasNiyam("3(घ)"@)
            &&& st2.diags[i].kind == DiagnosticKind::Error
            &&& st2.diags[i].category == DiagnosticCategory::ShuddhaTable
            &&& word_boundary(text, st2.diags[i].span.0, st2.diags[i].span.1)
            &&& st2.blocked.contains(st2.diags[i].span)
        }
}

pub(crate) proof fn lemma_extension_refl(text: Seq<char>, st: PassState)
    ensures
        phrase_extension(text, st, st),
{
    assert(st.diags.take(st.diags.len() as int) =~= st.diags);
    assert(st.blocked.take(st.blocked.len() as int) =~= st.blocked);
}

proof fn lemma_extension_trans(text: Seq<char>, a: PassState, b: PassState, c: PassState)
    requires
        phrase_extension(text, a, b),
        phrase_extension(text, b, c),
    ensures
        phrase_extension(text, a, c),
{
    assert(c.diags.take(a.diags.len() as int) =~= c.diags.take(b.diags.len() as int).take(a.diags.len() as int));
    assert(c.blocked.take(a.blocked.len() as int) =~= c.blocked.take(b.blocked.len() as int).take(a.blocked.len() as int));
    assert forall|i: int| a.diags.len() <= i < c.diags.len() implies {
        &&& (#[trigger] c.diags[i]).rule == RuleView::VarnaVinyasNiyam("3(घ)"@)
        &&& c.diags[i].kind == DiagnosticKind::Error
        &&& c.diags[i].category == DiagnosticCategory::ShuddhaTable
        &&& word_boundary(text, c.diags[i].span.0, c.diags[i].span.1)
        &&& c.blocked.contains(c.diags[i].span)
    } by {
        if i < b.diags.len() {
            assert(c.diags.take(b.diags.len() as int)[i] == c.diags[i]);
            assert(b.blocked.contains(b.diags[i].span));
            let j = choose|j: int| 0 <= j < b.blocked.len() && b.blocked[j] == b.diags[i].span;
            assert(c.blocked.take(b.blocked.len() as int)[j] == c.blocked[j]);
        }
    }
}

pub(crate) proof fn lemma_extension_report(text: Seq<char>, st: PassState, d: DiagnosticView)
    requires
        d.rule == RuleView::VarnaVinyasNiyam("3(घ)"@),
        d.kind == DiagnosticKind::Error,
        d.category == DiagnosticCategory::ShuddhaTable,
        word_boundary(text, d.span.0, d.span.1),
    ensures
        phrase_extension(text, st, report(st, d)),
{
    let st2 = report(st, d);
    assert(st2.diags.take(st.diags.len() as int) =~= st.diags);
    assert(st2.blocked.take(st.blocked.len() as int) =~= st.blocked);
    assert(st2.blocked[st.blocked.len() as int] == d.span);
}

proof fn lemma_offer_rewrite_extends(
    text: Seq<char>,
    st: PassState,
    seg: TokenView,
    c: Seq<char>,
    explanation: Seq<char>,
    confidence: int,
)
    ensures
        phrase_extension(text, st, offer_rewrite(text, st, seg, c, explanation, confidence)),
{
    lemma_extension_refl(text, st);
    if word_boundary(text, seg.start, seg.end) {
        lemma_extension_report(text, st, phrase_finding(seg_span(seg), seg.text, c, explanation, confidence));
    }
}

proof fn lemma_offer_span_extends(
    text: Seq<char>,
    st: PassState,
    span: (int, int),
    c: Seq<char>,
    explanation: Seq<char>,
    confidence: int,
)
    ensures
        phrase_extension(text, st, offer_span(text, st, span, c, explanation, confidence)),
{
    lemma_extension_refl(text, st);
    if word_boundary(text, span.0, span.1) {
        lemma_extension_report(
            text,
            st,
            phrase_finding(span, byte_slice(text, span.0, span.1), c, explanation, confidence),
        );
    }
}

proof fn lemma_listed_split_extends(
    text: Seq<char>,
    lex: Lexicon,
    st: PassState,
    seg: TokenView,
    l: WordList,
    attested_host: bool,
    explanation: Seq<char>,
    confidence: int,
    k: int,
)
    ensures
        phrase_extension(text, st, listed_split_from(text, lex, st, seg, l, attested_host, explanation, confidence, k)),
    decreases word_list(l).len() - k,
{
    lemma_extension_refl(text, st);
    if 0 <= k < word_list(l).len() {
        lemma_listed_split_extends(text, lex, st, seg, l, attested_host, explanation, confidence, k + 1);
        let suf = word_list(l)[k];
        let left = strip_suffix(seg.text, suf);
        if joined_normal(left, lex) is Some {
            lemma_offer_rewrite_extends(text, st, seg, joined_normal(left, lex)->Some_0 + " "@ + suf, explanation, confidence);
        }
    }
}

proof fn lemma_compound_split_extends(
    text: Seq<char>,
    lex: Lexicon,
    st: PassState,
    seg: TokenView,
    l: WordList,
    explanation: Seq<char>,
    confidence: int,
    k: int,
)
    ensures
        phrase_extension(text, st, compound_split_from(text, lex, st, seg, l, explanation, confidence, k)),
    decreases word_list(l).len() - k,
{
    lemma_extension_refl(text, st);
    if 0 <= k < word_list(l).len() {
        lemma_compound_split_extends(text, lex, st, seg, l, explanation, confidence, k + 1);
        if let Some((left, right)) = compound_split(seg.text, word_list(l)[k]) {
            if joined_normal(left, lex) is Some {
                lemma_offer_rewrite_extends(text, st, seg, joined_normal(left, lex)->Some_0 + " "@ + right, explanation, confidence);
            }
        }
    }
}

proof fn lemma_segment_step_extends(r: SegmentRule, text: Seq<char>, lex: Lexicon, st: PassState, seg: TokenView)
    ensures
        phrase_extension(text, st, segment_step(r, text, lex, st, seg)),
{
    lemma_extension_refl(text, st);
    let w = seg.text;
    match r {
        SegmentRule::NamayogiSplit => if let Some(c) = namayogi_split_from(w, lex, 0) {
            lemma_offer_rewrite_extends(text, st, seg, c, namayogi_split_explanation(), 910);
        },
        SegmentRule::LagiNimtiSplit => if lagi_split(w) is Some && word_boundary(text, seg.start, seg.end) {
            let c = lagi_split(w)->Some_0;
            lemma_extension_report(text, st, phrase_finding(seg_span(seg), w, c, lagi_explanation(), 900));
        },
        SegmentRule::NipatSplit => lemma_particle_step_extends(text, lex, st, seg),
        SegmentRule::DwitvaSplit => if let Some(c) = dwitva_split(w, lex) {
            lemma_offer_rewrite_extends(text, st, seg, c, dwitva_explanation(), 880);
        },
        SegmentRule::ComparisonSplit => lemma_listed_split_extends(
            text, lex, st, seg, WordList::Comparison, false, comparison_explanation(), 920, 0),
        SegmentRule::NamikKriyaSplit => lemma_listed_split_extends(
            text, lex, st, seg, WordList::NamikKriya, true, namik_kriya_explanation(), 910, 0),
        SegmentRule::GariSplit => lemma_listed_split_extends(
            text, lex, st, seg, WordList::Gari, true, gari_explanation(), 900, 0),
        SegmentRule::JanaSplit => if let Some(c) = jana_split(w, lex) {
            lemma_offer_rewrite_extends(text, st, seg, c, jana_explanation(), 900);
        },
        SegmentRule::DivisiveNaSplit => if let Some(c) = divisive_na_split(w, lex) {
            lemma_offer_rewrite_extends(text, st, seg, c, divisive_na_explanation(), 890);
        },
        SegmentRule::MultiwordSamasaSplit => if let Some(c) = samasa_split(w, lex) {
            lemma_offer_rewrite_extends(text, st, seg, c, samasa_explanation(), 890);
        },
        SegmentRule::InstitutionalSplit => lemma_compound_split_extends(
            text, lex, st, seg, WordList::Institutional, institutional_explanation(), 890, 0),
        SegmentRule::TitleNameSplit => lemma_compound_split_extends(
            text, lex, st, seg, WordList::TitleName, title_name_explanation(), 880, 0),
        _ => {
            let (aspect, future, modal) = match r {
                SegmentRule::AspectSplit => (true, false, false),
                SegmentRule::FutureSplit => (false, true, false),
                _ => (false, false, true),
            };
            if verb_split(w, aspect, future, modal) is Some && word_boundary(text, seg.start, seg.end) {
                let (c, sub) = verb_split(w, aspect, future, modal)->Some_0;
                lemma_extension_report(text, st, phrase_finding(seg_span(seg), w, c, verb_explanation(sub), 900));
            }
        },
    }
}

proof fn lemma_pair_step_extends(r: PairRule, text: Seq<char>, lex: Lexicon, st: PassState, a: TokenView, b: TokenView)
    ensures
        phrase_extension(text, st, pair_step(r, text, lex, st, a, b)),
{
    lemma_extension_refl(text, st);
    let span = pair_span(a, b);
    let inc = byte_slice(text, span.0, span.1);
    match r {
        PairRule::PratyayaJoin => lemma_offer_span_extends(text, st, span, a.text + b.text, pratyaya_explanation(), 910),
        PairRule::VibhaktiJoin => if joined_normal(a.text + b.text, lex) is Some {
            lemma_offer_span_extends(text, st, span, joined_normal(a.text + b.text, lex)->Some_0, vibhakti_explanation(), 920);
        },
        PairRule::NamayogiJoin => if joined_normal(a.text + b.text, lex) is Some {
            lemma_offer_span_extends(text, st, span, joined_normal(a.text + b.text, lex)->Some_0, namayogi_explanation(), 920);
        },
        PairRule::LayeredJoin => if joined_normal(a.text + b.text, lex) is Some && word_boundary(text, span.0, span.1) {
            let c = joined_normal(a.text + b.text, lex)->Some_0;
            lemma_extension_report(text, st, phrase_finding(span, inc, c, layered_namayogi_explanation(), 940));
            lemma_extension_report(text, st, phrase_finding(span, inc, c, layered_vibhakti_explanation(), 930));
        },
        PairRule::ConjunctionJoin => if conjunction(a.text, b.text) is Some && word_boundary(text, span.0, span.1) {
            let j = conjunction(a.text, b.text)->Some_0;
            lemma_extension_report(text, st, phrase_finding(span, inc, j, conjunction_explanation(), 940));
        },
        PairRule::SwarupJoin => if joined_normal(a.text, lex) is Some && word_boundary(text, span.0, span.1) {
            let c = joined_normal(a.text, lex)->Some_0 + "स्वरूप"@;
            lemma_extension_report(text, st, phrase_finding(span, inc, c, swarup_explanation(), 930));
        },
        PairRule::EkarthiJoin => if joined_normal(a.text, lex) is Some {
            lemma_offer_span_extends(text, st, span, joined_normal(a.text, lex)->Some_0 + b.text, ekarthi_explanation(), 900);
        },
    }
}

proof fn lemma_triple_step_extends(
    r: TripleRule,
    text: Seq<char>,
    lex: Lexicon,
    st: PassState,
    a: TokenView,
    m: TokenView,
    b: TokenView,
)
    ensures
        phrase_extension(text, st, triple_step(r, text, lex, st, a, m, b)),
{
    lemma_extension_refl(text, st);
    let span = pair_span(a, b);
    let inc = byte_slice(text, span.0, span.1);
    match r {
        TripleRule::LayeredJoin => if joined_normal(m.text + b.text, lex) is Some && joined_normal(
            a.text + joined_normal(m.text + b.text, lex)->Some_0,
            lex,
        ) is Some && word_boundary(text, span.0, span.1) {
            let c = joined_normal(a.text + joined_normal(m.text + b.text, lex)->Some_0, lex)->Some_0;
            lemma_extension_report(text, st, phrase_finding(span, inc, c, layered_namayogi_explanation(), 940));
        },
        TripleRule::MiddleNameJoin => lemma_offer_span_extends(
            text, st, span, a.text + m.text + " "@ + b.text, middle_name_explanation(), 880),
    }
}

proof fn lemma_step_pass_extends(p: PhraseStep, text: Seq<char>, lex: Lexicon, segs: Seq<TokenView>, st: PassState)
    ensures
        phrase_extension(text, st, step_pass(p, text, lex, segs, st)),
    decreases segs.len(),
{
    lemma_extension_refl(text, st);
    if segs.len() > 0 {
        let prev = step_pass(p, text, lex, segs.drop_last(), st);
        lemma_step_pass_extends(p, text, lex, segs.drop_last(), st);
        match p {
            PhraseStep::Segment(r) => {
                lemma_segment_step_extends(r, text, lex, prev, segs.last());
                lemma_extension_trans(text, st, prev, step_pass(p, text, lex, segs, st));
            },
            PhraseStep::Pair(r) => if segs.len() >= 2 {
                lemma_pair_step_extends(r, text, lex, prev, segs[segs.len() - 2], segs.last());
                lemma_extension_trans(text, st, prev, step_pass(p, text, lex, segs, st));
            },
            PhraseStep::Triple(r) => if segs.len() >= 3 {
                lemma_triple_step_extends(r, text, lex, prev, segs[segs.len() - 3], segs[segs.len() - 2], segs.last());
                lemma_extension_trans(text, st, prev, step_pass(p, text, lex, segs, st));
            },
        }
    }
}

proof fn lemma_steps_pass_extends(steps: Seq<PhraseStep>, text: Seq<char>, lex: Lexicon, segs: Seq<TokenView>, st: PassState)
    ensures
        phrase_extension(text, st, steps_pass(steps, text, lex, segs, st)),
    decreases steps.len(),
{
    lemma_extension_refl(text, st);
    if steps.len() > 0 {
        let prev = steps_pass(steps.drop_last(), text, lex, segs, st);
        lemma_steps_pass_extends(steps.drop_last(), text, lex, segs, st);
        lemma_step_pass_extends(steps.last(), text, lex, segs, prev);
        lemma_extension_trans(text, st, prev, steps_pass(steps, text, lex, segs, st));
    }
}

/// The general (घ) pass only adds findings: every finding and blocked span
/// from before stays in place, and each finding it adds is a firm (घ)
/// finding of the Academy's table category, on whole words of the text, with
/// its span blocked for what comes after.
pub proof fn lemma_general_pass_extends(text: Seq<char>, lex: Lexicon, st: PassState)
    ensures
        phrase_extension(text, st, general_pass(text, lex, st)),
{
    lemma_steps_pass_extends(general_steps(), text, lex, segments_of(text), st);
}

} // verus!
