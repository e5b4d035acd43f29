//! Checking one word: the rules first, then the lexicon.
use vstd::prelude::*;

use crate::affix::{AnalyzedToken, is_supported_stem, supported_stem};
use crate::diagnostic::{
    Diagnostic, DiagnosticCategory, DiagnosticReason, DiagnosticView, chosen_category,
    choose_diagnostic_category, reasons_view,
};
use crate::engine::{collect_rule_hits, hits_view, rule_hits};
use crate::lexicon::Lexicon;
use crate::rule::{
    DiagnosticKind, Explanation, ExplanationView, Rule, RuleCategory, RuleHit, RuleHitView,
    RuleView, StepView, steps_view,
};
use crate::text::{
    byte_len, char_count, chars_of, concat, ends_with, is_numeric_char, is_suffix, numeric_char,
    owned, str_byte_len, str_eq, strip_suffix, take_chars, skip_chars,
};

verus! {

broadcast use vstd::string::group_string_axioms;

/// A char that may appear inside a number.
pub open spec fn numeric_token_char(c: char) -> bool {
    numeric_char(c) || c == ',' || c == '.' || c == '/' || c == '-' || c == ':' || c == '%' || c
        == '–' || c == '—'
}

/// `s` is a number: digits with separators, at least one digit.
pub open spec fn is_numeric_word(s: Seq<char>) -> bool {
    &&& forall|i: int| 0 <= i < s.len() ==> #[trigger] numeric_token_char(s[i])
    &&& exists|i: int| 0 <= i < s.len() && #[trigger] numeric_char(s[i])
}

/// Whether `word` is a number.
pub fn is_numeric_token(word: &str) -> (r: bool)
    ensures
        r == is_numeric_word(word@),
{
    let v = chars_of(word);
    let mut saw_digit = false;
    let mut i: usize = 0;
    while i < v.len()
        invariant
            v@ == word@,
            i <= v.len(),
            forall|j: int| 0 <= j < i ==> #[trigger] numeric_token_char(word@[j]),
            saw_digit == exists|j: int| 0 <= j < i && #[trigger] numeric_char(word@[j]),
        decreases v.len() - i,
    {
        let ch = v[i];
        if is_numeric_char(ch) {
            saw_digit = true;
        } else if !(ch == ',' || ch == '.' || ch == '/' || ch == '-' || ch == ':' || ch == '%' || ch
            == '–' || ch == '—') {
            assert(!numeric_token_char(word@[i as int]));
            return false;
        }
        i = i + 1;
    }
    saw_digit
}

/// `w` splits into two attested parts of at least two chars each.
pub open spec fn has_compound_split(w: Seq<char>, lex: Lexicon) -> bool {
    w.len() >= 4 && exists|k: int|
        2 <= k <= w.len() - 2 && #[trigger] lex.supports(w.take(k)) && lex.supports(w.skip(k))
}

/// Whether `word` splits into two attested parts.
pub fn has_known_compound_split(word: &str, lex: &Lexicon) -> (r: bool)
    ensures
        r == has_compound_split(word@, *lex),
{
    let n = char_count(word);
    if n < 4 {
        return false;
    }
    let mut k: usize = 2;
    while k <= n - 2
        invariant
            n == word@.len(),
            n >= 4,
            2 <= k <= n - 1,
            forall|j: int| 2 <= j < k ==> !(#[trigger] lex.supports(word@.take(j)) && lex.supports(word@.skip(j))),
        decreases n - k,
    {
        let left = take_chars(word, k);
        let right = skip_chars(word, k);
        if lex.is_supported(left.as_str()) && lex.is_supported(right.as_str()) {
            return true;
        }
        k = k + 1;
    }
    false
}

/// An infinitive (…नु) of `stem` is attested.
pub open spec fn has_infinitive(stem: Seq<char>, lex: Lexicon) -> bool {
    ||| lex.supports(stem + "नु"@)
    ||| (!is_suffix("्"@, stem) && lex.supports(stem + "्नु"@))
    ||| (is_suffix("ा"@, stem) && (lex.supports(stem + "उनु"@) || lex.supports(stem + "इनु"@)))
}

/// Whether an infinitive of `stem` is attested.
pub fn has_known_infinitive_candidate(stem: &str, lex: &Lexicon) -> (r: bool)
    ensures
        r == has_infinitive(stem@, *lex),
{
    let a = concat(stem, "नु");
    if lex.is_supported(a.as_str()) {
        return true;
    }
    if !ends_with(stem, "्") {
        let b = concat(stem, "्नु");
        if lex.is_supported(b.as_str()) {
            return true;
        }
    }
    if ends_with(stem, "ा") {
        let c = concat(stem, "उनु");
        let d = concat(stem, "इनु");
        return lex.is_supported(c.as_str()) || lex.is_supported(d.as_str());
    }
    false
}

/// `w` is a productive verb form (…दै, …ेन, …इयो) of a verb with an attested infinitive.
pub open spec fn productive_with(w: Seq<char>, sfx: Seq<char>, lex: Lexicon) -> bool {
    is_suffix(sfx, w) && strip_suffix(w, sfx).len() >= 2 && has_infinitive(strip_suffix(w, sfx), lex)
}

/// `w` is one of the productive verb forms.
pub open spec fn has_productive_verb_form(w: Seq<char>, lex: Lexicon) -> bool {
    productive_with(w, "दै"@, lex) || productive_with(w, "ँदै"@, lex) || productive_with(w, "ेन"@, lex)
        || productive_with(w, "इयो"@, lex)
}

fn productive(word: &str, sfx: &str, lex: &Lexicon) -> (r: bool)
    ensures
        r == productive_with(word@, sfx@, *lex),
{
    if !ends_with(word, sfx) {
        return false;
    }
    let stem = take_chars(word, char_count(word) - char_count(sfx));
    char_count(stem.as_str()) >= 2 && has_known_infinitive_candidate(stem.as_str(), lex)
}

/// Whether `word` is a productive verb form of an attested verb.
pub fn has_supported_productive_verb_form(word: &str, lex: &Lexicon) -> (r: bool)
    ensures
        r == has_productive_verb_form(word@, *lex),
{
    productive(word, "दै", lex) || productive(word, "ँदै", lex) || productive(word, "ेन", lex)
        || productive(word, "इयो", lex)
}

/// A nearby attested word is offered only when it keeps the first and last char.
pub open spec fn offer_nearby(word: Seq<char>, suggestion: Seq<char>) -> bool {
    word.len() > 0 && suggestion.len() > 0 && word[0] == suggestion[0] && word.last()
        == suggestion.last()
}

/// Whether a nearby attested word should be offered for `word`.
pub fn should_offer_nearby_suggestion(word: &str, suggestion: &str) -> (r: bool)
    ensures
        r == offer_nearby(word@, suggestion@),
{
    let w = chars_of(word);
    let s = chars_of(suggestion);
    if w.len() == 0 || s.len() == 0 {
        return false;
    }
    w[0] == s[0] && w[w.len() - 1] == s[s.len() - 1]
}

// ----- alternate reasons -----

/// The reason a step of a secondary hit gives.
pub open spec fn step_reason(step: StepView, correction: Seq<char>, category: RuleCategory) -> ExplanationView {
    ExplanationView {
        rule: step.rule,
        explanation: step.description,
        correction: Some(correction),
        category: Some(category),
    }
}

/// `rs` with `r` added unless a reason with the same rule, explanation and correction is there.
pub open spec fn add_reason(rs: Seq<ExplanationView>, r: ExplanationView) -> Seq<ExplanationView> {
    if exists|j: int|
        0 <= j < rs.len() && (#[trigger] rs[j]).rule == r.rule && rs[j].explanation == r.explanation
            && rs[j].correction == r.correction {
        rs
    } else {
        rs.push(r)
    }
}

/// `rs` with the reasons of `steps` added in order.
pub open spec fn add_step_reasons(
    rs: Seq<ExplanationView>,
    steps: Seq<StepView>,
    correction: Seq<char>,
    category: RuleCategory,
) -> Seq<ExplanationView>
    decreases steps.len(),
{
    if steps.len() == 0 {
        rs
    } else {
        add_reason(
            add_step_reasons(rs, steps.drop_last(), correction, category),
            step_reason(steps.last(), correction, category),
        )
    }
}

/// The reasons of `hits`, in order, without repeats.
pub open spec fn hit_reasons(hits: Seq<RuleHitView>) -> Seq<ExplanationView>
    decreases hits.len(),
{
    if hits.len() == 0 {
        seq![]
    } else {
        add_step_reasons(
            hit_reasons(hits.drop_last()),
            hits.last().prakriya.steps,
            hits.last().prakriya.output,
            hits.last().category,
        )
    }
}

/// The other applicable reasons: those of every hit after the first.
pub open spec fn alternate_reasons(hits: Seq<RuleHitView>) -> Seq<ExplanationView> {
    if hits.len() == 0 {
        seq![]
    } else {
        hit_reasons(hits.skip(1))
    }
}

fn same_reason(a: &Explanation, b: &Explanation) -> (r: bool)
    ensures
        r == (a@.rule == b@.rule && a@.explanation == b@.explanation && a@.correction == b@.correction),
{
    if !a.rule.same_as(&b.rule) || !str_eq(a.explanation.as_str(), b.explanation.as_str()) {
        return false;
    }
    match (&a.correction, &b.correction) {
        (Some(x), Some(y)) => str_eq(x.as_str(), y.as_str()),
        (None, None) => true,
        _ => false,
    }
}

fn push_reason(reasons: &mut Vec<Explanation>, r: Explanation)
    ensures
        reasons_view(final(reasons)@) == add_reason(reasons_view(old(reasons)@), r@),
{
    let mut j: usize = 0;
    while j < reasons.len()
        invariant
            j <= reasons.len(),
            forall|k: int| 0 <= k < j ==> !(#[trigger] reasons_view(reasons@)[k].rule == r@.rule
                && reasons_view(reasons@)[k].explanation == r@.explanation
                && reasons_view(reasons@)[k].correction == r@.correction),
        decreases reasons.len() - j,
    {
        if same_reason(&reasons[j], &r) {
            assert(reasons_view(reasons@)[j as int] == reasons@[j as int]@);
            return;
        }
        j = j + 1;
    }
    let ghost before = reasons@;
    reasons.push(r);
    assert(reasons_view(reasons@) =~= reasons_view(before).push(r@));
}

/// The alternate reasons that the hits after the first give.
pub fn alternate_reasons_from_hits(hits: &Vec<RuleHit>) -> (r: Vec<DiagnosticReason>)
    ensures
        reasons_view(r@) == alternate_reasons(hits_view(hits@)),
{
    let mut reasons: Vec<Explanation> = Vec::new();
    if hits.len() == 0 {
        assert(reasons_view(reasons@) =~= Seq::<ExplanationView>::empty());
        return reasons;
    }
    let ghost hv = hits_view(hits@).skip(1);
    let mut i: usize = 1;
    assert(hv.take(0) =~= Seq::<RuleHitView>::empty());
    assert(reasons_view(reasons@) =~= Seq::<ExplanationView>::empty());
    while i < hits.len()
        invariant
            1 <= i <= hits.len(),
            hv == hits_view(hits@).skip(1),
            reasons_view(reasons@) == hit_reasons(hv.take(i - 1)),
        decreases hits.len() - i,
    {
        let hit = &hits[i];
        let ghost steps = steps_view(hit.prakriya.steps@);
        let ghost base = reasons_view(reasons@);
        let mut k: usize = 0;
        assert(steps.take(0) =~= Seq::<StepView>::empty());
        while k < hit.prakriya.steps.len()
            invariant
                k <= hit.prakriya.steps.len(),
                steps == steps_view(hit.prakriya.steps@),
                reasons_view(reasons@) == add_step_reasons(base, steps.take(k as int), hit.prakriya.output@, hit.category),
            decreases hit.prakriya.steps.len() - k,
        {
            let step = &hit.prakriya.steps[k];
            let reason = Explanation::new(step.rule, step.description.as_str()).with_correction(
                hit.prakriya.output.as_str(),
            ).with_category(hit.category);
            proof {
                assert(steps.take(k + 1).drop_last() =~= steps.take(k as int));
                assert(steps.take(k + 1).last() == step@);
                assert(reason@ == step_reason(step@, hit.prakriya.output@, hit.category));
            }
            push_reason(&mut reasons, reason);
            k = k + 1;
        }
        proof {
            assert(steps.take(k as int) =~= steps);
            assert(hv.take(i as int).drop_last() =~= hv.take(i - 1));
            assert(hv.take(i as int).last() == hits@[i as int]@);
        }
        i = i + 1;
    }
    assert(hv.take(i - 1) =~= hv);
    reasons
}

// ----- the word check -----

/// The message for an unattested word with a nearby attested form.
pub open spec fn not_found_message() -> Seq<char> {
    "शब्द शब्दकोशमा भेटिएन; सम्भावित वर्तनी त्रुटि"@
}

/// The diagnostic for `w` from its top rule hit.
pub open spec fn hit_diagnostic(w: Seq<char>, hits: Seq<RuleHitView>) -> DiagnosticView {
    let p = hits[0].prakriya;
    let rule = if p.steps.len() > 0 {
        p.steps[0].rule
    } else {
        RuleView::ShuddhaAshuddha("unknown"@)
    };
    DiagnosticView {
        span: (0, byte_len(w) as int),
        incorrect: w,
        correction: p.output,
        rule,
        explanation: if p.steps.len() > 0 {
            p.steps[0].description
        } else {
            seq![]
        },
        category: chosen_category(p.category, rule),
        kind: p.kind,
        confidence_permille: 1000,
        alternate_reasons: alternate_reasons(hits),
    }
}

/// What the check of one word reports: the top rule hit when a rule fires;
/// nothing for a number or a supported, compound or productive form; for
/// another unattested word, an ambiguous suggestion of a nearby attested form
/// that keeps its first and last char.
pub open spec fn word_diagnostic(w: Seq<char>, lex: Lexicon) -> Option<DiagnosticView> {
    if w.len() == 0 || is_numeric_word(w) {
        None
    } else if rule_hits(w, lex).len() > 0 {
        Some(hit_diagnostic(w, rule_hits(w, lex)))
    } else if supported_stem(w, lex) || has_compound_split(w, lex) || has_productive_verb_form(
        w,
        lex,
    ) {
        None
    } else {
        match lex.nearby(w) {
            Some(s) => if s == w || !offer_nearby(w, s) {
                None
            } else {
                Some(
                    DiagnosticView {
                        span: (0, byte_len(w) as int),
                        incorrect: w,
                        correction: s,
                        rule: RuleView::ShuddhaAshuddha("unknown"@),
                        explanation: not_found_message(),
                        category: DiagnosticCategory::ShuddhaTable,
                        kind: DiagnosticKind::Ambiguous,
                        confidence_permille: 720,
                        alternate_reasons: seq![],
                    },
                )
            },
            None => None,
        }
    }
}

/// Diagnostics by content.
pub open spec fn diag_view(d: Option<Diagnostic>) -> Option<DiagnosticView> {
    match d {
        Some(x) => Some(x@),
        None => None,
    }
}

/// Check a single word: the Academy rules first, then the lexicon.
pub fn check_word_impl(word: &str, lex: &Lexicon) -> (r: Option<Diagnostic>)
    ensures
        diag_view(r) == word_diagnostic(word@, *lex),
{
    if char_count(word) == 0 || is_numeric_token(word) {
        return None;
    }
    let hits = collect_rule_hits(word, lex);
    if hits.len() > 0 {
        let p = &hits[0].prakriya;
        let (rule, explanation) = if p.steps.len() > 0 {
            (p.steps[0].rule, p.steps[0].description.clone())
        } else {
            (Rule::ShuddhaAshuddha("unknown"), String::new())
        };
        let category = choose_diagnostic_category(p.category, &rule);
        let alternates = alternate_reasons_from_hits(&hits);
        let d = Diagnostic {
            span: (0, str_byte_len(word)),
            incorrect: owned(word),
            correction: p.output.clone(),
            rule,
            explanation,
            category,
            kind: p.kind,
            confidence_permille: 1000,
            alternate_reasons: alternates,
        };
        proof {
            assert(hits_view(hits@)[0] == hits@[0]@);
            if p.steps.len() > 0 {
                assert(steps_view(p.steps@)[0] == p.steps@[0]@);
            }
            assert(d@ == hit_diagnostic(word@, rule_hits(word@, *lex)));
        }
        return Some(d);
    }
    if is_supported_stem(word, lex) {
        return None;
    }
    if has_known_compound_split(word, lex) || has_supported_productive_verb_form(word, lex) {
        return None;
    }
    match lex.suggest_nearby(word) {
        Some(suggestion) => {
            if str_eq(suggestion.as_str(), word) {
                return None;
            }
            if !should_offer_nearby_suggestion(word, suggestion.as_str()) {
                return None;
            }
            let d = Diagnostic {
                span: (0, str_byte_len(word)),
                incorrect: owned(word),
                correction: suggestion,
                rule: Rule::ShuddhaAshuddha("unknown"),
                explanation: owned("शब्द शब्दकोशमा भेटिएन; सम्भावित वर्तनी त्रुटि"),
                category: DiagnosticCategory::ShuddhaTable,
                kind: DiagnosticKind::Ambiguous,
                confidence_permille: 720,
                alternate_reasons: Vec::new(),
            };
            assert(reasons_view(d.alternate_reasons@) =~= Seq::<ExplanationView>::empty());
            Some(d)
        },
        None => None,
    }
}

/// Verb stems whose halanta form is also a valid command form.
pub open spec fn ambiguous_halanta_stem(s: Seq<char>) -> bool {
    s == "भन"@ || s == "गर"@ || s == "पढ"@ || s == "हेर"@ || s == "लेख"@ || s == "बुझ"@ || s == "लुक"@
}

/// The message for a halanta finding that context may overturn.
pub open spec fn context_halanta_message() -> Seq<char> {
    "यो रूप धातुरूप वा आज्ञार्थ दुवै सन्दर्भमा आउन सक्छ; सन्दर्भअनुसार जाँच गर्नुहोस्"@
}

/// A 3(ङ)-1 finding on a bare verb stem in running text is only ambiguous:
/// the form can also be a command.
pub fn adjust_context_sensitive_nga_halanta_rule(
    idx: usize,
    tokens: &Vec<AnalyzedToken>,
    token: &AnalyzedToken,
    diag: &mut Diagnostic,
)
    ensures
        ({
            let applies = old(diag).rule@ == RuleView::VarnaVinyasNiyam("3(ङ)-1"@)
                && ambiguous_halanta_stem(token.stem@) && tokens@.len() > 1 && idx < tokens@.len();
            &&& applies ==> final(diag).kind == DiagnosticKind::Ambiguous
                && final(diag).confidence_permille == 550 && final(diag).explanation@
                == context_halanta_message() && final(diag).span == old(diag).span
                && final(diag).incorrect == old(diag).incorrect && final(diag).correction
                == old(diag).correction && final(diag).rule == old(diag).rule && final(diag).category
                == old(diag).category && final(diag).alternate_reasons == old(diag).alternate_reasons
            &&& !applies ==> *final(diag) == *old(diag)
        }),
{
    if !diag.rule.is_varna("3(ङ)-1") {
        return;
    }
    let s = token.stem.as_str();
    if !(str_eq(s, "भन") || str_eq(s, "गर") || str_eq(s, "पढ") || str_eq(s, "हेर") || str_eq(s, "लेख")
        || str_eq(s, "बुझ") || str_eq(s, "लुक")) {
        return;
    }
    if tokens.len() > 1 && idx < tokens.len() {
        diag.kind = DiagnosticKind::Ambiguous;
        diag.confidence_permille = 550;
        diag.explanation = owned(
            "यो रूप धातुरूप वा आज्ञार्थ दुवै सन्दर्भमा आउन सक्छ; सन्दर्भअनुसार जाँच गर्नुहोस्",
        );
    }
}

} // verus!
