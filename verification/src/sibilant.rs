//! Academy 3(ग)(अ): the sibilants श, ष and स.
use vstd::prelude::*;

use crate::lexicon::{Lexicon, Origin};
use crate::rule::{Fix, Prakriya, Rule, one_step, or_else, realizes, vfix};
use crate::text::{
    chars_of, contains, has_sub, lemma_replace_one_char, matches_at, replace, replace_all, string_of,
};
use crate::ustai::{attested_fix, corrected_if_attested};

verus! {

broadcast use vstd::string::group_string_axioms;

/// One of the three sibilants.
pub open spec fn is_sibilant(c: char) -> bool {
    c == 'श' || c == 'ष' || c == 'स'
}

/// The contexts in which a tatsam word's sibilant is fixed by its neighbour.
#[derive(Debug, Clone, Copy, PartialEq, Eq, Structural)]
pub enum SibilantContext {
    /// Two sibilants together: the first is श (श-1).
    Cluster,
    /// Before a palatal stop or ल: श (श-2).
    BeforePalatal,
    /// Before ट ठ ड ढ ण प: ष (ष-1).
    BeforeRetroflex,
}

/// The sibilant at index `i` of `s` stands in context `k` and should change.
pub open spec fn context_applies(k: SibilantContext, s: Seq<char>, i: int) -> bool {
    match k {
        SibilantContext::Cluster => is_sibilant(s[i]) && is_sibilant(s[i + 1]) && s[i] != 'श',
        SibilantContext::BeforePalatal => (s[i] == 'ष' || s[i] == 'स') && (s[i + 1] == 'च' || s[i
            + 1] == 'छ' || s[i + 1] == 'ज' || s[i + 1] == 'झ' || s[i + 1] == 'ञ' || s[i + 1] == 'ल'),
        SibilantContext::BeforeRetroflex => (s[i] == 'श' || s[i] == 'स') && (s[i + 1] == 'ट' || s[i
            + 1] == 'ठ' || s[i + 1] == 'ड' || s[i + 1] == 'ढ' || s[i + 1] == 'ण' || s[i + 1] == 'प'),
    }
}

/// The sibilant that context `k` calls for.
pub open spec fn context_target(k: SibilantContext) -> char {
    match k {
        SibilantContext::BeforeRetroflex => 'ष',
        _ => 'श',
    }
}

/// The sub-rule that context `k` cites.
pub open spec fn context_code(k: SibilantContext) -> Seq<char> {
    match k {
        SibilantContext::Cluster => "3(ग)(अ)-श-1"@,
        SibilantContext::BeforePalatal => "3(ग)(अ)-श-2"@,
        SibilantContext::BeforeRetroflex => "3(ग)(अ)-ष-1"@,
    }
}

/// The explanation that context `k` gives.
pub open spec fn context_desc(k: SibilantContext) -> Seq<char> {
    match k {
        SibilantContext::Cluster => "दुई सिबिलन्ट सँगै आएमा अगाडिको 'श' हुन्छ"@,
        SibilantContext::BeforePalatal => "चवर्ग/ल अगाडि 'श' प्रयोग हुन्छ"@,
        SibilantContext::BeforeRetroflex => "ट/ठ/ड/ढ/ण/पका अगाडि प्रायः 'ष' हुन्छ"@,
    }
}

/// The first position at or after `i` where context `k` gives an attested correction.
pub open spec fn context_fix_from(k: SibilantContext, s: Seq<char>, lex: Lexicon, i: int) -> Option<
    Fix,
>
    decreases s.len() - i,
{
    if i < 0 || i + 1 >= s.len() {
        None
    } else if context_applies(k, s, i) && attested_fix(
        s,
        s.update(i, context_target(k)),
        lex,
        context_code(k),
        context_desc(k),
    ) is Some {
        attested_fix(s, s.update(i, context_target(k)), lex, context_code(k), context_desc(k))
    } else {
        context_fix_from(k, s, lex, i + 1)
    }
}

/// The cluster written with श before र or ऋ (श-3).
pub open spec fn before_ra_form(s: Seq<char>) -> Seq<char> {
    replace_all(
        replace_all(replace_all(replace_all(s, "स्र"@, "श्र"@), "ष्र"@, "श्र"@), "सृ"@, "शृ"@),
        "षृ"@,
        "शृ"@,
    )
}

/// The sibilant written श before a visarga (श-4).
pub open spec fn before_visarga_form(s: Seq<char>) -> Seq<char> {
    replace_all(replace_all(s, "सः"@, "शः"@), "षः"@, "शः"@)
}

/// After इ/उ and before क/प the sibilant is ष (ष-2).
pub open spec fn ik_form(s: Seq<char>) -> Seq<char> {
    replace_all(
        replace_all(
            replace_all(
                replace_all(
                    replace_all(
                        replace_all(
                            replace_all(replace_all(s, "िसक"@, "िष्क"@), "िशक"@, "िष्क"@),
                            "ुसक"@,
                            "ुष्क"@,
                        ),
                        "ुशक"@,
                        "ुष्क"@,
                    ),
                    "िसप"@,
                    "िष्प"@,
                ),
                "िशप"@,
                "िष्प"@,
            ),
            "ुसप"@,
            "ुष्प"@,
        ),
        "ुशप"@,
        "ुष्प"@,
    )
}

/// The word contains one of the ष-2 contexts.
pub open spec fn has_ik_context(s: Seq<char>) -> bool {
    has_sub(s, "िसक"@) || has_sub(s, "िशक"@) || has_sub(s, "ुसक"@) || has_sub(s, "ुशक"@) || has_sub(
        s,
        "िसप"@,
    ) || has_sub(s, "िशप"@) || has_sub(s, "ुसप"@) || has_sub(s, "ुशप"@)
}

/// The tatsam sub-rules of 3(ग)(अ), in their order.
pub open spec fn tatsam_sibilant_fix(s: Seq<char>, lex: Lexicon) -> Option<Fix> {
    or_else(
        context_fix_from(SibilantContext::Cluster, s, lex, 0),
        or_else(
            context_fix_from(SibilantContext::BeforePalatal, s, lex, 0),
            or_else(
                if has_sub(s, "स्र"@) || has_sub(s, "ष्र"@) || has_sub(s, "सृ"@) || has_sub(s, "षृ"@) {
                    attested_fix(
                        s,
                        before_ra_form(s),
                        lex,
                        "3(ग)(अ)-श-3"@,
                        "ऋ/र सन्दर्भमा 'श' प्रयोग हुन्छ"@,
                    )
                } else {
                    None
                },
                or_else(
                    if has_sub(s, "सः"@) || has_sub(s, "षः"@) {
                        attested_fix(
                            s,
                            before_visarga_form(s),
                            lex,
                            "3(ग)(अ)-श-4"@,
                            "विसर्ग अगाडि 'श' प्रयोग हुन्छ"@,
                        )
                    } else {
                        None
                    },
                    or_else(
                        context_fix_from(SibilantContext::BeforeRetroflex, s, lex, 0),
                        if has_ik_context(s) {
                            attested_fix(
                                s,
                                ik_form(s),
                                lex,
                                "3(ग)(अ)-ष-2"@,
                                "इ/उ सन्दर्भमा क/प अगाडि 'ष' प्रयोग हुन्छ"@,
                            )
                        } else {
                            None
                        },
                    ),
                ),
            ),
        ),
    )
}

/// A tadbhav/deshaj word writes `from` as स when it is not attested as
/// written or the स form is attested (sub-rule 8).
pub open spec fn tadbhav_sibilant(s: Seq<char>, lex: Lexicon, from: Seq<char>, desc: Seq<char>) -> Option<Fix> {
    if has_sub(s, from) && (!lex.has_word(s) || lex.has_word(replace_all(s, from, "स"@))) {
        vfix(replace_all(s, from, "स"@), "3(ग)(अ)-8"@, desc)
    } else {
        None
    }
}

proof fn lemma_has_char(s: Seq<char>, c: char)
    ensures
        has_sub(s, seq![c]) <==> s.contains(c),
{
    if s.contains(c) {
        let i = choose|i: int| 0 <= i < s.len() && s[i] == c;
        assert(s.subrange(i, i + 1) =~= seq![c]);
        assert(matches_at(s, seq![c], i));
    }
    if has_sub(s, seq![c]) {
        let i = choose|i: int| #[trigger] matches_at(s, seq![c], i);
        assert(s.subrange(i, i + 1)[0] == s[i]);
    }
}

/// For a tadbhav or deshaj word the sibilant rule writes स for ष, or,
/// failing that, for श, everywhere in the word and nothing else, citing
/// 3(ग)(अ)-8; an unattested such word with ष or श always gets it. An
/// aagantuk word is corrected only to an attested spelling that writes स for
/// its ष or for its श.
pub proof fn lemma_sibilant_writes_dantya_sa(w: Seq<char>, lex: Lexicon)
    ensures
        ((lex.origin_of(w) == Some(Origin::Tadbhav) || lex.origin_of(w) == Some(Origin::Deshaj))
            && !lex.has_word(w) && w.contains('ष')) ==> (sibilant_fix(w, lex) matches Some(f)
            && f.output.len() == w.len() && f.rule == crate::rule::RuleView::VarnaVinyasNiyam(
            "3(ग)(अ)-8"@,
        ) && forall|i: int|
            0 <= i < w.len() ==> #[trigger] f.output[i] == if w[i] == 'ष' {
                'स'
            } else {
                w[i]
            }),
        ((lex.origin_of(w) == Some(Origin::Tadbhav) || lex.origin_of(w) == Some(Origin::Deshaj))
            && !lex.has_word(w) && !w.contains('ष') && w.contains('श')) ==> (sibilant_fix(w, lex) matches Some(
            f,
        ) && f.output.len() == w.len() && f.rule == crate::rule::RuleView::VarnaVinyasNiyam(
            "3(ग)(अ)-8"@,
        ) && forall|i: int|
            0 <= i < w.len() ==> #[trigger] f.output[i] == if w[i] == 'श' {
                'स'
            } else {
                w[i]
            }),
        (lex.origin_of(w) == Some(Origin::Aagantuk) && sibilant_fix(w, lex) is Some) ==> {
            let o = sibilant_fix(w, lex)->Some_0.output;
            &&& lex.has_word(o)
            &&& o != w
            &&& o.len() == w.len()
            &&& ((forall|i: int| 0 <= i < w.len() ==> #[trigger] o[i] == if w[i] == 'ष' {
                'स'
            } else {
                w[i]
            }) || (forall|i: int| 0 <= i < w.len() ==> #[trigger] o[i] == if w[i] == 'श' {
                'स'
            } else {
                w[i]
            }))
        },
{
    reveal_strlit("ष");
    reveal_strlit("श");
    reveal_strlit("स");
    assert("ष"@ =~= seq!['ष']);
    assert("श"@ =~= seq!['श']);
    assert("स"@ =~= seq!['स']);
    lemma_has_char(w, 'ष');
    lemma_has_char(w, 'श');
    lemma_replace_one_char(w, 'ष', 'स');
    lemma_replace_one_char(w, 'श', 'स');
}

/// Decision of Academy 3(ग)(अ) by word origin.
pub open spec fn sibilant_fix(s: Seq<char>, lex: Lexicon) -> Option<Fix> {
    match lex.origin_of(s) {
        Some(Origin::Aagantuk) => or_else(
            if has_sub(s, "ष"@) {
                attested_fix(
                    s,
                    replace_all(s, "ष"@, "स"@),
                    lex,
                    "3(ग)(अ)-9"@,
                    "आगन्तुक शब्दमा 'स' प्राथमिक: ष→स"@,
                )
            } else {
                None
            },
            if has_sub(s, "श"@) {
                attested_fix(
                    s,
                    replace_all(s, "श"@, "स"@),
                    lex,
                    "3(ग)(अ)-9"@,
                    "आगन्तुक शब्दमा 'स' प्राथमिक: श→स"@,
                )
            } else {
                None
            },
        ),
        Some(Origin::Tadbhav) | Some(Origin::Deshaj) => or_else(
            tadbhav_sibilant(s, lex, "ष"@, "तद्भव/देशज रूपान्तरण: ष→स"@),
            tadbhav_sibilant(s, lex, "श"@, "तद्भव/देशज रूपान्तरण: श→स"@),
        ),
        Some(Origin::Tatsam) => tatsam_sibilant_fix(s, lex),
        None => None,
    }
}

fn context_applies_at(k: SibilantContext, v: &Vec<char>, i: usize) -> (r: bool)
    requires
        i + 1 < v.len(),
    ensures
        r == context_applies(k, v@, i as int),
{
    let a = v[i];
    let b = v[i + 1];
    match k {
        SibilantContext::Cluster => (a == 'श' || a == 'ष' || a == 'स') && (b == 'श' || b == 'ष' || b
            == 'स') && a != 'श',
        SibilantContext::BeforePalatal => (a == 'ष' || a == 'स') && (b == 'च' || b == 'छ' || b == 'ज'
            || b == 'झ' || b == 'ञ' || b == 'ल'),
        SibilantContext::BeforeRetroflex => (a == 'श' || a == 'स') && (b == 'ट' || b == 'ठ' || b
            == 'ड' || b == 'ढ' || b == 'ण' || b == 'प'),
    }
}

fn context_rule(k: SibilantContext) -> (r: (char, &'static str, &'static str))
    ensures
        r.0 == context_target(k),
        r.1@ == context_code(k),
        r.2@ == context_desc(k),
{
    match k {
        SibilantContext::Cluster => ('श', "3(ग)(अ)-श-1", "दुई सिबिलन्ट सँगै आएमा अगाडिको 'श' हुन्छ"),
        SibilantContext::BeforePalatal => ('श', "3(ग)(अ)-श-2", "चवर्ग/ल अगाडि 'श' प्रयोग हुन्छ"),
        SibilantContext::BeforeRetroflex => ('ष', "3(ग)(अ)-ष-1", "ट/ठ/ड/ढ/ण/पका अगाडि प्रायः 'ष' हुन्छ"),
    }
}

/// The first attested correction that context `k` gives, scanning left to right.
fn context_correction(k: SibilantContext, input: &str, lex: &Lexicon) -> (r: Option<Prakriya>)
    ensures
        realizes(r, input@, context_fix_from(k, input@, *lex, 0)),
{
    let chars = chars_of(input);
    let (target, code, desc) = context_rule(k);
    let mut i: usize = 0;
    while i < chars.len()
        invariant
            chars@ == input@,
            i <= chars.len(),
            target == context_target(k),
            code@ == context_code(k),
            desc@ == context_desc(k),
            context_fix_from(k, input@, *lex, 0) == context_fix_from(k, input@, *lex, i as int),
        decreases chars.len() - i,
    {
        if i + 1 < chars.len() && context_applies_at(k, &chars, i) {
            let mut candidate = chars.clone();
            candidate.set(i, target);
            let output = string_of(&candidate);
            let r = corrected_if_attested(input, output.as_str(), lex, code, desc);
            if r.is_some() {
                return r;
            }
        }
        i = i + 1;
    }
    None
}

/// Replace `from` by स in a tadbhav/deshaj word when the rule allows it.
fn tadbhav_correction(input: &str, lex: &Lexicon, from: &str, desc: &str) -> (r: Option<Prakriya>)
    ensures
        realizes(r, input@, tadbhav_sibilant(input@, *lex, from@, desc@)),
{
    if !contains(input, from) {
        return None;
    }
    let output = replace(input, from, "स");
    if !lex.contains(input) || lex.contains(output.as_str()) {
        return Some(one_step(input, output.as_str(), Rule::VarnaVinyasNiyam("3(ग)(अ)-8"), desc));
    }
    None
}

fn tatsam_sibilant(input: &str, lex: &Lexicon) -> (r: Option<Prakriya>)
    ensures
        realizes(r, input@, tatsam_sibilant_fix(input@, *lex)),
{
    let r = context_correction(SibilantContext::Cluster, input, lex);
    if r.is_some() {
        return r;
    }
    let r = context_correction(SibilantContext::BeforePalatal, input, lex);
    if r.is_some() {
        return r;
    }
    if contains(input, "स्र") || contains(input, "ष्र") || contains(input, "सृ") || contains(
        input,
        "षृ",
    ) {
        let a = replace(input, "स्र", "श्र");
        let b = replace(a.as_str(), "ष्र", "श्र");
        let c = replace(b.as_str(), "सृ", "शृ");
        let output = replace(c.as_str(), "षृ", "शृ");
        let r = corrected_if_attested(
            input,
            output.as_str(),
            lex,
            "3(ग)(अ)-श-3",
            "ऋ/र सन्दर्भमा 'श' प्रयोग हुन्छ",
        );
        if r.is_some() {
            return r;
        }
    }
    if contains(input, "सः") || contains(input, "षः") {
        let a = replace(input, "सः", "शः");
        let output = replace(a.as_str(), "षः", "शः");
        let r = corrected_if_attested(
            input,
            output.as_str(),
            lex,
            "3(ग)(अ)-श-4",
            "विसर्ग अगाडि 'श' प्रयोग हुन्छ",
        );
        if r.is_some() {
            return r;
        }
    }
    let r = context_correction(SibilantContext::BeforeRetroflex, input, lex);
    if r.is_some() {
        return r;
    }
    if contains(input, "िसक") || contains(input, "िशक") || contains(input, "ुसक") || contains(
        input,
        "ुशक",
    ) || contains(input, "िसप") || contains(input, "िशप") || contains(input, "ुसप") || contains(
        input,
        "ुशप",
    ) {
        let a = replace(input, "िसक", "िष्क");
        let b = replace(a.as_str(), "िशक", "िष्क");
        let c = replace(b.as_str(), "ुसक", "ुष्क");
        let d = replace(c.as_str(), "ुशक", "ुष्क");
        let e = replace(d.as_str(), "िसप", "िष्प");
        let f = replace(e.as_str(), "िशप", "िष्प");
        let g = replace(f.as_str(), "ुसप", "ुष्प");
        let output = replace(g.as_str(), "ुशप", "ुष्प");
        return corrected_if_attested(
            input,
            output.as_str(),
            lex,
            "3(ग)(अ)-ष-2",
            "इ/उ सन्दर्भमा क/प अगाडि 'ष' प्रयोग हुन्छ",
        );
    }
    None
}

/// Academy 3(ग)(अ): श/ष/स by word origin.
pub fn rule_sibilant(input: &str, lex: &Lexicon) -> (r: Option<Prakriya>)
    ensures
        realizes(r, input@, sibilant_fix(input@, *lex)),
{
    match lex.classify(input) {
        Some(Origin::Aagantuk) => {
            if contains(input, "ष") {
                let output = replace(input, "ष", "स");
                let r = corrected_if_attested(
                    input,
                    output.as_str(),
                    lex,
                    "3(ग)(अ)-9",
                    "आगन्तुक शब्दमा 'स' प्राथमिक: ष→स",
                );
                if r.is_some() {
                    return r;
                }
            }
            if contains(input, "श") {
                let output = replace(input, "श", "स");
                return corrected_if_attested(
                    input,
                    output.as_str(),
                    lex,
                    "3(ग)(अ)-9",
                    "आगन्तुक शब्दमा 'स' प्राथमिक: श→स",
                );
            }
            None
        },
        Some(Origin::Tadbhav) | Some(Origin::Deshaj) => {
            let r = tadbhav_correction(input, lex, "ष", "तद्भव/देशज रूपान्तरण: ष→स");
            if r.is_some() {
                return r;
            }
            tadbhav_correction(input, lex, "श", "तद्भव/देशज रूपान्तरण: श→स")
        },
        Some(Origin::Tatsam) => tatsam_sibilant(input, lex),
        None => None,
    }
}

} // verus!
