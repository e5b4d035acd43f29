//! Oblique (तिर्यक्) forms before case markers: शैक्षणिक व्याकरण ७(क)–(ग).
use vstd::prelude::*;

use crate::affix::{AnalyzedToken, AnalyzedTokenView, analyzed_view, surface, tokenize_analyzed, analyzed_tokens_of};
use crate::common::{diags_view, overlaps_existing_span, overlaps_span, span_listed, spans_view};
use crate::diagnostic::{Diagnostic, DiagnosticCategory, DiagnosticView, reasons_view};
use crate::lexicon::Lexicon;
use crate::rule::{DiagnosticKind, ExplanationView, Rule, RuleView};
use crate::text::{
    byte_len, byte_slice, char_count, concat, concat3, ends_with, has_sub, is_suffix, slice_bytes,
    str_byte_len, str_eq, strip_suffix, take_chars, contains,
};

verus! {

broadcast use vstd::string::group_string_axioms;

/// The three sub-rules of the oblique form.
#[derive(Debug, Clone, Copy, PartialEq, Eq, Structural)]
pub enum TiryakSubrule {
    /// ७(क): participles in -एको and infinitives in -नु before ले/मा.
    Ka,
    /// ७(ख): pronouns before a case marker.
    Kha,
    /// ७(ग): a pronoun as determiner of an inflected noun.
    Ga,
}

/// The rule a sub-rule cites.
pub open spec fn tiryak_rule(k: TiryakSubrule) -> RuleView {
    match k {
        TiryakSubrule::Ka => RuleView::Vyakaran("PS-Saisanik-7(क)-तिर्यक्"@),
        TiryakSubrule::Kha => RuleView::Vyakaran("PS-Saisanik-7(ख)-तिर्यक्"@),
        TiryakSubrule::Ga => RuleView::Vyakaran("PS-Saisanik-7(ग)-तिर्यक्"@),
    }
}

/// The explanation a sub-rule gives.
pub open spec fn tiryak_explanation(k: TiryakSubrule) -> Seq<char> {
    match k {
        TiryakSubrule::Ka => "शैक्षणिक व्याकरण ७(क): एको, नु अन्त्यमा आउने कृदन्त शब्दका पछाडि ले, मा विभक्ति लाग्दा तिर्यक् रूपको प्रयोग हुन्छ ।"@,
        TiryakSubrule::Kha => "शैक्षणिक व्याकरण ७(ख): विभक्तियुक्त सर्वनाम तिर्यक् रूपमा प्रयुक्त हुन्छन् ।"@,
        TiryakSubrule::Ga => "शैक्षणिक व्याकरण ७(ग): विशेषण (भेदक) का रूपमा सर्वनाम आउँदा विशेष्यमा विभक्ति भए विशेषण (सर्वनाम) पनि तिर्यक् रूपमा लेखिन्छन् ।"@,
    }
}

/// The confidence (in thousandths) of a sub-rule's findings.
pub open spec fn tiryak_confidence(k: TiryakSubrule) -> int {
    match k {
        TiryakSubrule::Ka => 940,
        TiryakSubrule::Kha => 930,
        TiryakSubrule::Ga => 900,
    }
}

impl TiryakSubrule {
    /// The rule this sub-rule cites.
    pub fn rule(self) -> (r: Rule)
        ensures
            r@ == tiryak_rule(self),
    {
        match self {
            TiryakSubrule::Ka => Rule::Vyakaran("PS-Saisanik-7(क)-तिर्यक्"),
            TiryakSubrule::Kha => Rule::Vyakaran("PS-Saisanik-7(ख)-तिर्यक्"),
            TiryakSubrule::Ga => Rule::Vyakaran("PS-Saisanik-7(ग)-तिर्यक्"),
        }
    }

    /// The explanation this sub-rule gives.
    pub fn explanation(self) -> (r: &'static str)
        ensures
            r@ == tiryak_explanation(self),
    {
        match self {
            TiryakSubrule::Ka => "शैक्षणिक व्याकरण ७(क): एको, नु अन्त्यमा आउने कृदन्त शब्दका पछाडि ले, मा विभक्ति लाग्दा तिर्यक् रूपको प्रयोग हुन्छ ।",
            TiryakSubrule::Kha => "शैक्षणिक व्याकरण ७(ख): विभक्तियुक्त सर्वनाम तिर्यक् रूपमा प्रयुक्त हुन्छन् ।",
            TiryakSubrule::Ga => "शैक्षणिक व्याकरण ७(ग): विशेषण (भेदक) का रूपमा सर्वनाम आउँदा विशेष्यमा विभक्ति भए विशेषण (सर्वनाम) पनि तिर्यक् रूपमा लेखिन्छन् ।",
        }
    }

    /// The confidence (in thousandths) of this sub-rule's findings.
    pub fn confidence_permille(self) -> (r: u16)
        ensures
            r == tiryak_confidence(self),
    {
        match self {
            TiryakSubrule::Ka => 940,
            TiryakSubrule::Kha => 930,
            TiryakSubrule::Ga => 900,
        }
    }
}

/// The content of a [`TiryakCandidate`].
pub ghost struct TiryakCandidateView {
    pub span: (int, int),
    pub incorrect: Seq<char>,
    pub correction: Seq<char>,
    pub subrule: TiryakSubrule,
}

/// A proposed oblique-form correction.
#[derive(Debug)]
pub struct TiryakCandidate {
    pub span: (usize, usize),
    pub incorrect: String,
    pub correction: String,
    pub subrule: TiryakSubrule,
}

impl View for TiryakCandidate {
    type V = TiryakCandidateView;

    open spec fn view(&self) -> TiryakCandidateView {
        TiryakCandidateView {
            span: (self.span.0 as int, self.span.1 as int),
            incorrect: self.incorrect@,
            correction: self.correction@,
            subrule: self.subrule,
        }
    }
}

/// Candidates by content.
pub open spec fn candidate_view(c: Option<TiryakCandidate>) -> Option<TiryakCandidateView> {
    match c {
        Some(x) => Some(x@),
        None => None,
    }
}

/// The diagnostic a candidate becomes.
pub open spec fn candidate_diagnostic(c: TiryakCandidateView) -> DiagnosticView {
    DiagnosticView {
        span: c.span,
        incorrect: c.incorrect,
        correction: c.correction,
        rule: tiryak_rule(c.subrule),
        explanation: tiryak_explanation(c.subrule),
        category: DiagnosticCategory::ShuddhaTable,
        kind: DiagnosticKind::Error,
        confidence_permille: tiryak_confidence(c.subrule),
        alternate_reasons: seq![],
    }
}

impl TiryakCandidate {
    /// The diagnostic this candidate becomes.
    pub fn into_diagnostic(self) -> (d: Diagnostic)
        ensures
            d@ == candidate_diagnostic(self@),
    {
        let d = Diagnostic {
            span: self.span,
            incorrect: self.incorrect,
            correction: self.correction,
            rule: self.subrule.rule(),
            explanation: crate::text::owned(self.subrule.explanation()),
            category: DiagnosticCategory::ShuddhaTable,
            kind: DiagnosticKind::Error,
            confidence_permille: self.subrule.confidence_permille(),
            alternate_reasons: Vec::new(),
        };
        assert(reasons_view(d.alternate_reasons@) =~= Seq::<ExplanationView>::empty());
        d
    }
}

// ----- the word lists -----

/// The case markers after which a pronoun takes its oblique form.
pub open spec fn case_suffixes() -> Seq<Seq<char>> {
    seq!["ले"@, "मा"@, "लाई"@, "बाट"@, "देखि"@, "सँग"@, "का"@, "की"@, "को"@]
}

fn case_suffix(k: usize) -> (r: &'static str)
    requires
        k < 9,
    ensures
        r@ == case_suffixes()[k as int],
{
    if k == 0 {
        "ले"
    } else if k == 1 {
        "मा"
    } else if k == 2 {
        "लाई"
    } else if k == 3 {
        "बाट"
    } else if k == 4 {
        "देखि"
    } else if k == 5 {
        "सँग"
    } else if k == 6 {
        "का"
    } else if k == 7 {
        "की"
    } else {
        "को"
    }
}

/// The oblique stem of a pronoun.
pub open spec fn pronoun_oblique(s: Seq<char>) -> Option<Seq<char>> {
    if s == "यो"@ {
        Some("यस"@)
    } else if s == "त्यो"@ {
        Some("त्यस"@)
    } else if s == "ऊ"@ {
        Some("उस"@)
    } else if s == "यी"@ {
        Some("यिन"@)
    } else if s == "ती"@ {
        Some("तिन"@)
    } else {
        None
    }
}

fn pronoun_oblique_of(s: &str) -> (r: Option<&'static str>)
    ensures
        match r {
            Some(o) => pronoun_oblique(s@) == Some(o@),
            None => pronoun_oblique(s@) is None,
        },
{
    if str_eq(s, "यो") {
        Some("यस")
    } else if str_eq(s, "त्यो") {
        Some("त्यस")
    } else if str_eq(s, "ऊ") {
        Some("उस")
    } else if str_eq(s, "यी") {
        Some("यिन")
    } else if str_eq(s, "ती") {
        Some("तिन")
    } else {
        None
    }
}

/// Whole-word spellings of pronoun + ले and their oblique form.
pub open spec fn kha_surface(s: Seq<char>) -> Option<Seq<char>> {
    if s == "मले"@ {
        Some("मैले"@)
    } else if s == "तँले"@ {
        Some("तैँले"@)
    } else if s == "तैले"@ {
        Some("तैँले"@)
    } else {
        None
    }
}

fn kha_surface_of(s: &str) -> (r: Option<&'static str>)
    ensures
        match r {
            Some(o) => kha_surface(s@) == Some(o@),
            None => kha_surface(s@) is None,
        },
{
    if str_eq(s, "मले") {
        Some("मैले")
    } else if str_eq(s, "तँले") {
        Some("तैँले")
    } else if str_eq(s, "तैले") {
        Some("तैँले")
    } else {
        None
    }
}

/// Split spellings of pronoun + ले and their joined oblique form.
pub open spec fn kha_split(l: Seq<char>, r: Seq<char>) -> Option<Seq<char>> {
    if r != "ले"@ {
        None
    } else if l == "म"@ {
        Some("मैले"@)
    } else if l == "तँ"@ {
        Some("तैँले"@)
    } else if l == "तै"@ {
        Some("तैँले"@)
    } else {
        None
    }
}

fn kha_split_of(l: &str, r: &str) -> (o: Option<&'static str>)
    ensures
        match o {
            Some(x) => kha_split(l@, r@) == Some(x@),
            None => kha_split(l@, r@) is None,
        },
{
    if !str_eq(r, "ले") {
        None
    } else if str_eq(l, "म") {
        Some("मैले")
    } else if str_eq(l, "तँ") {
        Some("तैँले")
    } else if str_eq(l, "तै") {
        Some("तैँले")
    } else {
        None
    }
}

/// Pronoun determiners and their oblique form.
pub open spec fn determiner_oblique(s: Seq<char>) -> Option<Seq<char>> {
    if s == "यो"@ {
        Some("यस"@)
    } else if s == "त्यो"@ {
        Some("त्यस"@)
    } else if s == "मेरो"@ {
        Some("मेरा"@)
    } else if s == "हाम्रो"@ {
        Some("हाम्रा"@)
    } else if s == "तेरो"@ {
        Some("तेरा"@)
    } else if s == "तिम्रो"@ {
        Some("तिम्रा"@)
    } else if s == "उसको"@ {
        Some("उसका"@)
    } else if s == "उनको"@ {
        Some("उनका"@)
    } else {
        None
    }
}

fn determiner_oblique_of(s: &str) -> (r: Option<&'static str>)
    ensures
        match r {
            Some(o) => determiner_oblique(s@) == Some(o@),
            None => determiner_oblique(s@) is None,
        },
{
    if str_eq(s, "यो") {
        Some("यस")
    } else if str_eq(s, "त्यो") {
        Some("त्यस")
    } else if str_eq(s, "मेरो") {
        Some("मेरा")
    } else if str_eq(s, "हाम्रो") {
        Some("हाम्रा")
    } else if str_eq(s, "तेरो") {
        Some("तेरा")
    } else if str_eq(s, "तिम्रो") {
        Some("तिम्रा")
    } else if str_eq(s, "उसको") {
        Some("उसका")
    } else if str_eq(s, "उनको") {
        Some("उनका")
    } else {
        None
    }
}

// ----- sub-rule (क) -----

/// ७(क): a participle in -एको or an infinitive in -नु before ले/मा ends in -आ.
pub open spec fn ka_correction(stem: Seq<char>, suffix: Seq<char>) -> Option<Seq<char>> {
    if !(suffix == "ले"@ || suffix == "मा"@) {
        None
    } else if is_suffix("एको"@, stem) {
        Some(strip_suffix(stem, "ो"@) + "ा"@ + suffix)
    } else if is_suffix("नु"@, stem) {
        Some(strip_suffix(stem, "ु"@) + "ा"@ + suffix)
    } else {
        None
    }
}

/// The ७(क) correction for `stem` + `suffix`.
pub fn subrule_ka_stem_and_suffix(stem: &str, suffix: &str) -> (r: Option<String>)
    ensures
        match r {
            Some(c) => ka_correction(stem@, suffix@) == Some(c@),
            None => ka_correction(stem@, suffix@) is None,
        },
{
    if !(str_eq(suffix, "ले") || str_eq(suffix, "मा")) {
        return None;
    }
    let n = char_count(stem);
    if ends_with(stem, "एको") {
        proof {
            reveal_strlit("एको");
            reveal_strlit("ो");
        }
        let base = take_chars(stem, n - 1);
        return Some(concat3(base.as_str(), "ा", suffix));
    }
    if ends_with(stem, "नु") {
        proof {
            reveal_strlit("नु");
            reveal_strlit("ु");
        }
        let base = take_chars(stem, n - 1);
        return Some(concat3(base.as_str(), "ा", suffix));
    }
    None
}

/// ७(क) on a joined word form: the first of ले, मा that applies.
pub open spec fn ka_joined(s: Seq<char>) -> Option<Seq<char>> {
    if is_suffix("ले"@, s) && ka_correction(strip_suffix(s, "ले"@), "ले"@) is Some {
        ka_correction(strip_suffix(s, "ले"@), "ले"@)
    } else if is_suffix("मा"@, s) {
        ka_correction(strip_suffix(s, "मा"@), "मा"@)
    } else {
        None
    }
}

fn subrule_ka_joined_correction(s: &str) -> (r: Option<String>)
    ensures
        match r {
            Some(c) => ka_joined(s@) == Some(c@),
            None => ka_joined(s@) is None,
        },
{
    if ends_with(s, "ले") {
        let stem = take_chars(s, char_count(s) - char_count("ले"));
        let r = subrule_ka_stem_and_suffix(stem.as_str(), "ले");
        if r.is_some() {
            return r;
        }
    }
    if ends_with(s, "मा") {
        let stem = take_chars(s, char_count(s) - char_count("मा"));
        return subrule_ka_stem_and_suffix(stem.as_str(), "मा");
    }
    None
}

// ----- sub-rule (ख) -----

/// ७(ख): a pronoun before a case marker takes its oblique stem, when the
/// result is attested or accepted by the analyser.
pub open spec fn kha_correction(stem: Seq<char>, suffix: Seq<char>, lex: Lexicon) -> Option<Seq<char>> {
    if !case_suffixes().contains(suffix) {
        None
    } else {
        match pronoun_oblique(stem) {
            Some(m) => if lex.accepts(m + suffix) {
                Some(m + suffix)
            } else {
                None
            },
            None => None,
        }
    }
}

/// ७(ख) corrects exactly the five pronouns यो, त्यो, ऊ, यी, ती before a case
/// marker, to their oblique stems यस, त्यस, उस, यिन, तिन: the correction is
/// the oblique stem followed by the marker whenever the lexicon or the
/// analyser accepts that form, and nothing otherwise; no other word is
/// corrected.
pub proof fn lemma_kha_corrects_the_five_pronouns(stem: Seq<char>, suffix: Seq<char>, lex: Lexicon)
    ensures
        (stem == "यो"@ && case_suffixes().contains(suffix)) ==> kha_correction(stem, suffix, lex) == (
        if lex.accepts("यस"@ + suffix) {
            Some("यस"@ + suffix)
        } else {
            None
        }),
        (stem == "त्यो"@ && case_suffixes().contains(suffix)) ==> kha_correction(stem, suffix, lex) == (
        if lex.accepts("त्यस"@ + suffix) {
            Some("त्यस"@ + suffix)
        } else {
            None
        }),
        (stem == "ऊ"@ && case_suffixes().contains(suffix)) ==> kha_correction(stem, suffix, lex) == (
        if lex.accepts("उस"@ + suffix) {
            Some("उस"@ + suffix)
        } else {
            None
        }),
        (stem == "यी"@ && case_suffixes().contains(suffix)) ==> kha_correction(stem, suffix, lex) == (
        if lex.accepts("यिन"@ + suffix) {
            Some("यिन"@ + suffix)
        } else {
            None
        }),
        (stem == "ती"@ && case_suffixes().contains(suffix)) ==> kha_correction(stem, suffix, lex) == (
        if lex.accepts("तिन"@ + suffix) {
            Some("तिन"@ + suffix)
        } else {
            None
        }),
        !(stem == "यो"@ || stem == "त्यो"@ || stem == "ऊ"@ || stem == "यी"@ || stem == "ती"@)
            ==> kha_correction(stem, suffix, lex) is None,
        !case_suffixes().contains(suffix) ==> kha_correction(stem, suffix, lex) is None,
{
    reveal_strlit("यो");
    reveal_strlit("त्यो");
    reveal_strlit("ऊ");
    reveal_strlit("यी");
    reveal_strlit("ती");
    reveal_strlit("यस");
    reveal_strlit("त्यस");
    reveal_strlit("उस");
    reveal_strlit("यिन");
    reveal_strlit("तिन");
    assert("यो"@.len() == 2 && "त्यो"@.len() == 4 && "ऊ"@.len() == 1);
    assert("यो"@[1] != "यी"@[1] && "यो"@[0] != "ती"@[0]);
    assert("यो"@ != "त्यो"@ && "यो"@ != "ऊ"@ && "त्यो"@ != "ऊ"@);
    assert("यो"@ != "यी"@ && "यो"@ != "ती"@ && "त्यो"@ != "यी"@ && "त्यो"@ != "ती"@);
    assert("ऊ"@ != "यी"@ && "ऊ"@ != "ती"@ && "यी"@[0] != "ती"@[0]);
}

/// The case markers after which a pronoun takes its oblique stem are exactly
/// ले, मा, लाई, बाट, देखि, सँग, का, की and को.
pub proof fn lemma_case_markers_are_the_nine(c: Seq<char>)
    ensures
        case_suffixes().contains(c) <==> (c == "ले"@ || c == "मा"@ || c == "लाई"@ || c == "बाट"@ || c == "देखि"@ || c == "सँग"@ || c == "का"@ || c == "की"@ || c == "को"@),
{
    let t = case_suffixes();
    if c == "ले"@ {
        assert(t[0] == c);
    }
    if c == "मा"@ {
        assert(t[1] == c);
    }
    if c == "लाई"@ {
        assert(t[2] == c);
    }
    if c == "बाट"@ {
        assert(t[3] == c);
    }
    if c == "देखि"@ {
        assert(t[4] == c);
    }
    if c == "सँग"@ {
        assert(t[5] == c);
    }
    if c == "का"@ {
        assert(t[6] == c);
    }
    if c == "की"@ {
        assert(t[7] == c);
    }
    if c == "को"@ {
        assert(t[8] == c);
    }
    if t.contains(c) {
        let i = choose|i: int| 0 <= i < t.len() && t[i] == c;
        assert(0 <= i < 9);
    }
}

fn is_case_suffix(s: &str) -> (r: bool)
    ensures
        r == case_suffixes().contains(s@),
{
    let mut k: usize = 0;
    while k < 9
        invariant
            k <= 9,
            forall|j: int| 0 <= j < k ==> case_suffixes()[j] != s@,
        decreases 9 - k,
    {
        if str_eq(case_suffix(k), s) {
            return true;
        }
        k = k + 1;
    }
    assert(case_suffixes().len() == 9);
    false
}

/// The ७(ख) correction for `stem` + `suffix`.
pub fn subrule_kha_stem_and_suffix(stem: &str, suffix: &str, lex: &Lexicon) -> (r: Option<String>)
    ensures
        match r {
            Some(c) => kha_correction(stem@, suffix@, *lex) == Some(c@),
            None => kha_correction(stem@, suffix@, *lex) is None,
        },
{
    if !is_case_suffix(suffix) {
        return None;
    }
    match pronoun_oblique_of(stem) {
        Some(m) => {
            let candidate = concat(m, suffix);
            if lex.is_accepted(candidate.as_str()) {
                Some(candidate)
            } else {
                None
            }
        },
        None => None,
    }
}

/// ७(ख) on a joined word form, trying the case markers in order from `k`.
pub open spec fn kha_joined_from(s: Seq<char>, lex: Lexicon, k: int) -> Option<Seq<char>>
    decreases 9 - k,
{
    if k < 0 || k >= 9 {
        None
    } else if is_suffix(case_suffixes()[k], s) && kha_correction(
        strip_suffix(s, case_suffixes()[k]),
        case_suffixes()[k],
        lex,
    ) is Some {
        kha_correction(strip_suffix(s, case_suffixes()[k]), case_suffixes()[k], lex)
    } else {
        kha_joined_from(s, lex, k + 1)
    }
}

fn subrule_kha_joined_correction(s: &str, lex: &Lexicon) -> (r: Option<String>)
    ensures
        match r {
            Some(c) => kha_joined_from(s@, *lex, 0) == Some(c@),
            None => kha_joined_from(s@, *lex, 0) is None,
        },
{
    let mut k: usize = 0;
    while k < 9
        invariant
            k <= 9,
            kha_joined_from(s@, *lex, 0) == kha_joined_from(s@, *lex, k as int),
        decreases 9 - k,
    {
        let sfx = case_suffix(k);
        if ends_with(s, sfx) {
            let stem = take_chars(s, char_count(s) - char_count(sfx));
            let r = subrule_kha_stem_and_suffix(stem.as_str(), sfx, lex);
            if r.is_some() {
                return r;
            }
        }
        k = k + 1;
    }
    None
}

// ----- classification -----

/// The sub-rule and correction for a joined word form.
pub open spec fn classify_joined(s: Seq<char>, lex: Lexicon) -> Option<(TiryakSubrule, Seq<char>)> {
    if kha_surface(s) is Some {
        Some((TiryakSubrule::Kha, kha_surface(s)->Some_0))
    } else if ka_joined(s) is Some {
        Some((TiryakSubrule::Ka, ka_joined(s)->Some_0))
    } else if kha_joined_from(s, lex, 0) is Some {
        Some((TiryakSubrule::Kha, kha_joined_from(s, lex, 0)->Some_0))
    } else {
        None
    }
}

/// Classify a joined word form.
pub fn classify_joined_surface(s: &str, lex: &Lexicon) -> (r: Option<(TiryakSubrule, String)>)
    ensures
        match r {
            Some(p) => classify_joined(s@, *lex) == Some((p.0, p.1@)),
            None => classify_joined(s@, *lex) is None,
        },
{
    if let Some(c) = kha_surface_of(s) {
        return Some((TiryakSubrule::Kha, crate::text::owned(c)));
    }
    if let Some(c) = subrule_ka_joined_correction(s) {
        return Some((TiryakSubrule::Ka, c));
    }
    if let Some(c) = subrule_kha_joined_correction(s, lex) {
        return Some((TiryakSubrule::Kha, c));
    }
    None
}

/// The sub-rule and correction for a word written apart from its case marker.
pub open spec fn classify_split(l: Seq<char>, r: Seq<char>, lex: Lexicon) -> Option<(TiryakSubrule, Seq<char>)> {
    if kha_split(l, r) is Some {
        Some((TiryakSubrule::Kha, kha_split(l, r)->Some_0))
    } else if ka_correction(l, r) is Some {
        Some((TiryakSubrule::Ka, ka_correction(l, r)->Some_0))
    } else if kha_correction(l, r, lex) is Some {
        Some((TiryakSubrule::Kha, kha_correction(l, r, lex)->Some_0))
    } else {
        None
    }
}

/// Classify a word followed by a separate case marker.
pub fn classify_split_pair(l: &str, r: &str, lex: &Lexicon) -> (o: Option<(TiryakSubrule, String)>)
    ensures
        match o {
            Some(p) => classify_split(l@, r@, *lex) == Some((p.0, p.1@)),
            None => classify_split(l@, r@, *lex) is None,
        },
{
    if let Some(c) = kha_split_of(l, r) {
        return Some((TiryakSubrule::Kha, crate::text::owned(c)));
    }
    if let Some(c) = subrule_ka_stem_and_suffix(l, r) {
        return Some((TiryakSubrule::Ka, c));
    }
    if let Some(c) = subrule_kha_stem_and_suffix(l, r, lex) {
        return Some((TiryakSubrule::Kha, c));
    }
    None
}

/// A part of speech that marks a noun or pronoun.
pub open spec fn nounish_pos(pos: Option<Seq<char>>) -> bool {
    match pos {
        Some(p) => has_sub(p, "नाम"@) || has_sub(p, "ना."@) || has_sub(p, "सर्व"@),
        None => false,
    }
}

fn is_nounish_pos(pos: &Option<String>) -> (r: bool)
    ensures
        r == nounish_pos(match pos {
            Some(p) => Some(p@),
            None => None,
        }),
{
    match pos {
        Some(p) => contains(p.as_str(), "नाम") || contains(p.as_str(), "ना.") || contains(
            p.as_str(),
            "सर्व",
        ),
        None => false,
    }
}

/// A token carrying a case marker on a noun-like stem.
pub open spec fn inflected_nounish(t: AnalyzedTokenView, lex: Lexicon) -> bool {
    t.suffix is Some && (nounish_pos(lex.pos_of(t.stem)) || nounish_pos(lex.pos_of(surface(t)))
        || lex.has_word(t.stem) || lex.has_word(surface(t)))
}

fn is_inflected_nounish_token(t: &AnalyzedToken, lex: &Lexicon) -> (r: bool)
    ensures
        r == inflected_nounish(t@, *lex),
{
    if t.suffix.is_none() {
        return false;
    }
    let full = t.surface();
    let stem_pos = lex.lookup(t.stem.as_str());
    let full_pos = lex.lookup(full.as_str());
    is_nounish_pos(&stem_pos) || is_nounish_pos(&full_pos) || lex.contains(t.stem.as_str())
        || lex.contains(full.as_str())
}

// ----- candidates -----

/// The candidate for a token of `text` written as one word.
pub open spec fn joined_candidate(text: Seq<char>, t: AnalyzedTokenView, lex: Lexicon) -> Option<TiryakCandidateView> {
    if t.start > t.end {
        None
    } else {
        match classify_joined(surface(t), lex) {
            Some((k, c)) => Some(
                TiryakCandidateView {
                    span: (t.start, t.end),
                    incorrect: byte_slice(text, t.start, t.end),
                    correction: c,
                    subrule: k,
                },
            ),
            None => None,
        }
    }
}

/// The candidate for a token of `text` written as one word.
pub fn analyze_joined_token(text: &str, t: &AnalyzedToken, lex: &Lexicon) -> (r: Option<TiryakCandidate>)
    ensures
        candidate_view(r) == joined_candidate(text@, t@, *lex),
{
    if t.start > t.end {
        return None;
    }
    let full = t.surface();
    match classify_joined_surface(full.as_str(), lex) {
        Some((k, c)) => Some(
            TiryakCandidate {
                span: (t.start, t.end),
                incorrect: slice_bytes(text, t.start, t.end),
                correction: c,
                subrule: k,
            },
        ),
        None => None,
    }
}

/// The candidate for two neighbouring tokens of `text`: a word and its separate case marker.
pub open spec fn split_candidate(
    text: Seq<char>,
    l: AnalyzedTokenView,
    r: AnalyzedTokenView,
    lex: Lexicon,
) -> Option<TiryakCandidateView> {
    if l.start > r.end {
        None
    } else {
        match classify_split(surface(l), surface(r), lex) {
            Some((k, c)) => Some(
                TiryakCandidateView {
                    span: (l.start, r.end),
                    incorrect: byte_slice(text, l.start, r.end),
                    correction: c,
                    subrule: k,
                },
            ),
            None => None,
        }
    }
}

/// The candidate for a word followed by its separate case marker.
pub fn analyze_split_pair(text: &str, l: &AnalyzedToken, r: &AnalyzedToken, lex: &Lexicon) -> (o:
    Option<TiryakCandidate>)
    ensures
        candidate_view(o) == split_candidate(text@, l@, r@, *lex),
{
    if l.start > r.end {
        return None;
    }
    let ls = l.surface();
    let rs = r.surface();
    match classify_split_pair(ls.as_str(), rs.as_str(), lex) {
        Some((k, c)) => Some(
            TiryakCandidate {
                span: (l.start, r.end),
                incorrect: slice_bytes(text, l.start, r.end),
                correction: c,
                subrule: k,
            },
        ),
        None => None,
    }
}

/// ७(ग): a pronoun determiner before an inflected noun takes its oblique form.
pub open spec fn determiner_candidate(
    text: Seq<char>,
    l: AnalyzedTokenView,
    r: AnalyzedTokenView,
    lex: Lexicon,
) -> Option<TiryakCandidateView> {
    if !inflected_nounish(r, lex) || l.start > l.end {
        None
    } else {
        match determiner_oblique(surface(l)) {
            Some(c) => if c == surface(l) {
                None
            } else {
                Some(
                    TiryakCandidateView {
                        span: (l.start, l.end),
                        incorrect: byte_slice(text, l.start, l.end),
                        correction: c,
                        subrule: TiryakSubrule::Ga,
                    },
                )
            },
            None => None,
        }
    }
}

/// The ७(ग) candidate for a determiner `l` before `r`.
pub fn analyze_determiner_context(text: &str, l: &AnalyzedToken, r: &AnalyzedToken, lex: &Lexicon) -> (o:
    Option<TiryakCandidate>)
    ensures
        candidate_view(o) == determiner_candidate(text@, l@, r@, *lex),
{
    if !is_inflected_nounish_token(r, lex) || l.start > l.end {
        return None;
    }
    let ls = l.surface();
    match determiner_oblique_of(ls.as_str()) {
        Some(c) => {
            if str_eq(c, ls.as_str()) {
                return None;
            }
            Some(
                TiryakCandidate {
                    span: (l.start, l.end),
                    incorrect: slice_bytes(text, l.start, l.end),
                    correction: crate::text::owned(c),
                    subrule: TiryakSubrule::Ga,
                },
            )
        },
        None => None,
    }
}

// ----- the passes -----

/// Diagnostics found so far, and the spans that later passes must leave alone.
pub ghost struct PassState {
    pub diags: Seq<DiagnosticView>,
    pub blocked: Seq<(int, int)>,
}

/// The state after offering candidate `c`: it is reported unless its span is
/// blocked or overlaps a diagnostic already reported.
pub open spec fn offer(st: PassState, c: Option<TiryakCandidateView>) -> PassState {
    match c {
        None => st,
        Some(x) => if st.blocked.contains(x.span) || overlaps_span(st.diags, x.span) {
            st
        } else {
            PassState { diags: st.diags.push(candidate_diagnostic(x)), blocked: st.blocked.push(x.span) }
        },
    }
}

/// The joined-word candidates of `toks`, offered in order.
pub open spec fn joined_pass(text: Seq<char>, toks: Seq<AnalyzedTokenView>, lex: Lexicon, st: PassState) -> PassState
    decreases toks.len(),
{
    if toks.len() == 0 {
        st
    } else {
        offer(joined_pass(text, toks.drop_last(), lex, st), joined_candidate(text, toks.last(), lex))
    }
}

/// The candidates of the first `m` neighbouring pairs of `toks`: a split
/// pronoun/participle when there is one, else a determiner.
pub open spec fn pair_pass(text: Seq<char>, toks: Seq<AnalyzedTokenView>, lex: Lexicon, st: PassState, m: int) -> PassState
    decreases m,
{
    if m <= 0 {
        st
    } else {
        let prev = pair_pass(text, toks, lex, st, m - 1);
        let i = m - 1;
        if split_candidate(text, toks[i], toks[i + 1], lex) is Some {
            offer(prev, split_candidate(text, toks[i], toks[i + 1], lex))
        } else {
            offer(prev, determiner_candidate(text, toks[i], toks[i + 1], lex))
        }
    }
}

/// The oblique-form pass over the tokens of `text`.
pub open spec fn tiryak_pass(text: Seq<char>, toks: Seq<AnalyzedTokenView>, lex: Lexicon, st: PassState) -> PassState {
    pair_pass(
        text,
        toks,
        lex,
        joined_pass(text, toks, lex, st),
        if toks.len() > 0 {
            toks.len() - 1
        } else {
            0
        },
    )
}

/// The pass state held by a diagnostics list and a blocked-span list.
pub open spec fn state_of(diags: Seq<Diagnostic>, blocked: Seq<(usize, usize)>) -> PassState {
    PassState { diags: diags_view(diags), blocked: spans_view(blocked) }
}

fn offer_candidate(
    c: Option<TiryakCandidate>,
    blocked: &mut Vec<(usize, usize)>,
    diagnostics: &mut Vec<Diagnostic>,
)
    ensures
        state_of(final(diagnostics)@, final(blocked)@) == offer(
            state_of(old(diagnostics)@, old(blocked)@),
            candidate_view(c),
        ),
{
    match c {
        None => {},
        Some(x) => {
            let span = x.span;
            if span_listed(blocked, span) || overlaps_existing_span(diagnostics, span) {
                return;
            }
            let ghost d0 = diagnostics@;
            let ghost b0 = blocked@;
            let ghost xv = x@;
            diagnostics.push(x.into_diagnostic());
            blocked.push(span);
            assert(diags_view(diagnostics@) =~= diags_view(d0).push(candidate_diagnostic(xv)));
            assert(spans_view(blocked@) =~= spans_view(b0).push(xv.span));
        },
    }
}

/// Report the oblique-form findings of `tokens` in `text`.
pub fn add_tiryak_diagnostics(
    text: &str,
    tokens: &Vec<AnalyzedToken>,
    lex: &Lexicon,
    blocked: &mut Vec<(usize, usize)>,
    diagnostics: &mut Vec<Diagnostic>,
)
    ensures
        state_of(final(diagnostics)@, final(blocked)@) == tiryak_pass(
            text@,
            analyzed_view(tokens@),
            *lex,
            state_of(old(diagnostics)@, old(blocked)@),
        ),
{
    let ghost toks = analyzed_view(tokens@);
    let ghost st0 = state_of(diagnostics@, blocked@);
    let mut i: usize = 0;
    assert(toks.take(0) =~= Seq::<AnalyzedTokenView>::empty());
    while i < tokens.len()
        invariant
            i <= tokens.len(),
            toks == analyzed_view(tokens@),
            state_of(diagnostics@, blocked@) == joined_pass(text@, toks.take(i as int), *lex, st0),
        decreases tokens.len() - i,
    {
        let c = analyze_joined_token(text, &tokens[i], lex);
        proof {
            assert(toks.take(i + 1).drop_last() =~= toks.take(i as int));
            assert(toks.take(i + 1).last() == tokens@[i as int]@);
        }
        offer_candidate(c, blocked, diagnostics);
        i = i + 1;
    }
    assert(toks.take(i as int) =~= toks);
    let ghost st1 = state_of(diagnostics@, blocked@);
    let mut m: usize = 0;
    let n: usize = if tokens.len() > 0 {
        tokens.len() - 1
    } else {
        0
    };
    while m < n
        invariant
            m <= n,
            n == (if tokens.len() > 0 { tokens.len() - 1 } else { 0 }),
            toks == analyzed_view(tokens@),
            st1 == joined_pass(text@, toks, *lex, st0),
            state_of(diagnostics@, blocked@) == pair_pass(text@, toks, *lex, st1, m as int),
        decreases n - m,
    {
        assert(toks[m as int] == tokens@[m as int]@);
        assert(toks[m + 1] == tokens@[m + 1]@);
        let split = analyze_split_pair(text, &tokens[m], &tokens[m + 1], lex);
        if split.is_some() {
            offer_candidate(split, blocked, diagnostics);
        } else {
            let det = analyze_determiner_context(text, &tokens[m], &tokens[m + 1], lex);
            offer_candidate(det, blocked, diagnostics);
        }
        m = m + 1;
    }
}

/// The oblique-form finding for a single word, when the word is one token.
pub open spec fn word_tiryak(word: Seq<char>, lex: Lexicon) -> Option<DiagnosticView> {
    let toks = analyzed_tokens_of(word, lex);
    if toks.len() == 0 || toks[0].start != 0 || toks[0].end != byte_len(word) {
        None
    } else {
        match joined_candidate(word, toks[0], lex) {
            Some(c) => Some(candidate_diagnostic(c)),
            None => None,
        }
    }
}

/// The oblique-form finding for a single word.
pub fn check_word_tiryak(word: &str, lex: &Lexicon) -> (r: Option<Diagnostic>)
    ensures
        crate::word_level::diag_view(r) == word_tiryak(word@, *lex),
{
    let tokens = tokenize_analyzed(word, lex);
    if tokens.len() == 0 {
        return None;
    }
    assert(analyzed_view(tokens@)[0] == tokens@[0]@);
    let t = &tokens[0];
    if t.start != 0 || t.end != str_byte_len(word) {
        return None;
    }
    match analyze_joined_token(word, t, lex) {
        Some(c) => Some(c.into_diagnostic()),
        None => None,
    }
}

} // verus!
