//! The pattern rules, their metadata and their evaluation order.
use vstd::prelude::*;

use crate::ba_va::{ba_va_fix, rule_ba_va};
use crate::chandrabindu::{chandrabindu_fix, rule_chandrabindu};
use crate::halanta::{halanta_fix, rule_halanta};
use crate::hrasva_dirgha::{
    dirgha_endings_fix, kinship_fix, kosha_backed_dirgha_correction, kosha_dirgha_fix,
    rule_dirgha_endings, rule_kinship_tadbhav, rule_suffix_eli_hrasva, rule_suffix_nu_hrasva,
    rule_suffix_preserves_dirgha, rule_tadbhav_hrasva, suffix_eli_fix, suffix_nu_fix,
    suffix_preserves_fix, tadbhav_fix,
};
use crate::lexicon::Lexicon;
use crate::rule::{DiagnosticKind, Fix, Prakriya, Rule, RuleCategory, RuleView, realizes};
use crate::sibilant::{rule_sibilant, sibilant_fix};
use crate::structural::{
    panchham_fix, redundant_suffix_fix, rule_panchham_varna, rule_redundant_suffix,
    rule_shri_correction, shri_fix,
};
use crate::ustai::{
    gya_gyan_fix, ksha_chhya_fix, ri_kri_fix, rule_gya_gyan, rule_ksha_chhya, rule_ri_kri,
    rule_ya_e, ya_e_fix,
};

verus! {

broadcast use vstd::string::group_string_axioms;

/// The pattern rule functions.
#[derive(Debug, Clone, Copy, PartialEq, Eq, Structural)]
pub enum RuleFn {
    ShriCorrection,
    RedundantSuffix,
    PanchhamVarna,
    SuffixNuHrasva,
    SuffixEliHrasva,
    SuffixPreservesDirgha,
    TadbhavHrasva,
    DirghaEndings,
    KinshipTadbhav,
    KoshaBackedDirgha,
    Chandrabindu,
    Sibilant,
    BaVa,
    RiKri,
    Halanta,
    YaE,
    KshaChhya,
    GyaGyan,
}

/// What rule `f` decides for `s` against the lexicon `lex`.
pub open spec fn rule_fn_fix(f: RuleFn, s: Seq<char>, lex: Lexicon) -> Option<Fix> {
    match f {
        RuleFn::ShriCorrection => shri_fix(s),
        RuleFn::RedundantSuffix => redundant_suffix_fix(s),
        RuleFn::PanchhamVarna => panchham_fix(s, lex),
        RuleFn::SuffixNuHrasva => suffix_nu_fix(s),
        RuleFn::SuffixEliHrasva => suffix_eli_fix(s),
        RuleFn::SuffixPreservesDirgha => suffix_preserves_fix(s),
        RuleFn::TadbhavHrasva => tadbhav_fix(s, lex),
        RuleFn::DirghaEndings => dirgha_endings_fix(s, lex),
        RuleFn::KinshipTadbhav => kinship_fix(s, lex),
        RuleFn::KoshaBackedDirgha => kosha_dirgha_fix(s, lex),
        RuleFn::Chandrabindu => chandrabindu_fix(s, lex),
        RuleFn::Sibilant => sibilant_fix(s, lex),
        RuleFn::BaVa => ba_va_fix(s, lex),
        RuleFn::RiKri => ri_kri_fix(s, lex),
        RuleFn::Halanta => halanta_fix(s, lex),
        RuleFn::YaE => ya_e_fix(s, lex),
        RuleFn::KshaChhya => ksha_chhya_fix(s, lex),
        RuleFn::GyaGyan => gya_gyan_fix(s, lex),
    }
}

impl RuleFn {
    /// Apply the rule to `input`.
    pub fn run(&self, input: &str, lex: &Lexicon) -> (r: Option<Prakriya>)
        ensures
            realizes(r, input@, rule_fn_fix(*self, input@, *lex)),
    {
        match self {
            RuleFn::ShriCorrection => rule_shri_correction(input),
            RuleFn::RedundantSuffix => rule_redundant_suffix(input),
            RuleFn::PanchhamVarna => rule_panchham_varna(input, lex),
            RuleFn::SuffixNuHrasva => rule_suffix_nu_hrasva(input),
            RuleFn::SuffixEliHrasva => rule_suffix_eli_hrasva(input),
            RuleFn::SuffixPreservesDirgha => rule_suffix_preserves_dirgha(input),
            RuleFn::TadbhavHrasva => rule_tadbhav_hrasva(input, lex),
            RuleFn::DirghaEndings => rule_dirgha_endings(input, lex),
            RuleFn::KinshipTadbhav => rule_kinship_tadbhav(input, lex),
            RuleFn::KoshaBackedDirgha => kosha_backed_dirgha_correction(input, lex),
            RuleFn::Chandrabindu => rule_chandrabindu(input, lex),
            RuleFn::Sibilant => rule_sibilant(input, lex),
            RuleFn::BaVa => rule_ba_va(input, lex),
            RuleFn::RiKri => rule_ri_kri(input, lex),
            RuleFn::Halanta => rule_halanta(input, lex),
            RuleFn::YaE => rule_ya_e(input, lex),
            RuleFn::KshaChhya => rule_ksha_chhya(input, lex),
            RuleFn::GyaGyan => rule_gya_gyan(input, lex),
        }
    }
}

/// Metadata for a single pattern rule.
#[derive(Debug, Clone)]
pub struct RuleSpec {
    /// Unique identifier (e.g., "struct-shri").
    pub id: &'static str,
    /// Category grouping.
    pub category: RuleCategory,
    /// Diagnostic severity.
    pub kind: DiagnosticKind,
    /// Evaluation priority (lower = higher priority).
    pub priority: u16,
    /// Academy standard citation.
    pub citation: Rule,
    /// Example (incorrect, correct) pairs.
    pub examples: Vec<(&'static str, &'static str)>,
}

/// The content of a [`RuleSpec`].
pub ghost struct RuleSpecView {
    pub id: Seq<char>,
    pub category: RuleCategory,
    pub kind: DiagnosticKind,
    pub priority: u16,
    pub citation: RuleView,
    pub examples: Seq<(Seq<char>, Seq<char>)>,
}

/// Example pairs by content.
pub open spec fn examples_view(v: Seq<(&'static str, &'static str)>) -> Seq<(Seq<char>, Seq<char>)> {
    v.map_values(|p: (&'static str, &'static str)| (p.0@, p.1@))
}

impl View for RuleSpec {
    type V = RuleSpecView;

    open spec fn view(&self) -> RuleSpecView {
        RuleSpecView {
            id: self.id@,
            category: self.category,
            kind: self.kind,
            priority: self.priority,
            citation: self.citation@,
            examples: examples_view(self.examples@),
        }
    }
}

/// A metadata record with one example pair.
pub open spec fn spec1(
    id: Seq<char>,
    category: RuleCategory,
    priority: u16,
    citation: RuleView,
    a: Seq<char>,
    b: Seq<char>,
) -> RuleSpecView {
    RuleSpecView {
        id,
        category,
        kind: DiagnosticKind::Error,
        priority,
        citation,
        examples: seq![(a, b)],
    }
}

/// A metadata record with two example pairs.
pub open spec fn spec2(
    id: Seq<char>,
    category: RuleCategory,
    priority: u16,
    citation: RuleView,
    a: Seq<char>,
    b: Seq<char>,
    c: Seq<char>,
    d: Seq<char>,
) -> RuleSpecView {
    RuleSpecView {
        id,
        category,
        kind: DiagnosticKind::Error,
        priority,
        citation,
        examples: seq![(a, b), (c, d)],
    }
}

/// The metadata of rule `f`.
pub open spec fn rule_spec_view(f: RuleFn) -> RuleSpecView {
    match f {
        RuleFn::ShriCorrection => spec1(
            "struct-shri"@,
            RuleCategory::StructuralPattern,
            100,
            RuleView::ShuddhaAshuddha("Section 4"@),
            "श्रृङ्गार"@,
            "शृङ्गार"@,
        ),
        RuleFn::RedundantSuffix => spec2(
            "struct-redundant-suffix"@,
            RuleCategory::StructuralPattern,
            110,
            RuleView::ShuddhaAshuddha("Section 4"@),
            "सौन्दर्यता"@,
            "सौन्दर्य"@,
            "औचित्यता"@,
            "औचित्य"@,
        ),
        RuleFn::PanchhamVarna => spec2(
            "struct-panchham"@,
            RuleCategory::StructuralPattern,
            120,
            RuleView::VarnaVinyasNiyam("3(ख)-पञ्चम"@),
            "संकेत"@,
            "सङ्केत"@,
            "संघीय"@,
            "सङ्घीय"@,
        ),
        RuleFn::SuffixNuHrasva => spec1(
            "hd-suffix-nu"@,
            RuleCategory::HrasvaDirgha,
            200,
            RuleView::VarnaVinyasNiyam("3(क)-suffix-नु"@),
            "स्वीकार्नु"@,
            "स्विकार्नु"@,
        ),
        RuleFn::SuffixEliHrasva => spec1(
            "hd-suffix-eli"@,
            RuleCategory::HrasvaDirgha,
            210,
            RuleView::VarnaVinyasNiyam("3(क)-suffix-एली"@),
            "पूर्वेली"@,
            "पुर्वेली"@,
        ),
        RuleFn::SuffixPreservesDirgha => spec2(
            "hd-suffix-preserves"@,
            RuleCategory::HrasvaDirgha,
            220,
            RuleView::VarnaVinyasNiyam("3(क)(उ)"@),
            "पुर्वी"@,
            "पूर्वी"@,
            "पुर्वीय"@,
            "पूर्वीय"@,
        ),
        RuleFn::TadbhavHrasva => spec1(
            "hd-tadbhav"@,
            RuleCategory::HrasvaDirgha,
            230,
            RuleView::VarnaVinyasNiyam("3(क)-12"@),
            "मीठो"@,
            "मिठो"@,
        ),
        RuleFn::DirghaEndings => spec2(
            "hd-dirgha-endings"@,
            RuleCategory::HrasvaDirgha,
            240,
            RuleView::VarnaVinyasNiyam("3(ई)"@),
            "भनि"@,
            "भनी"@,
            "गरि"@,
            "गरी"@,
        ),
        RuleFn::KinshipTadbhav => spec2(
            "hd-kinship"@,
            RuleCategory::HrasvaDirgha,
            250,
            RuleView::VarnaVinyasNiyam("3(क)(इ)-1"@),
            "दाजू"@,
            "दाजु"@,
            "भाउजु"@,
            "भाउजू"@,
        ),
        RuleFn::KoshaBackedDirgha => spec1(
            "hd-kosha-backed"@,
            RuleCategory::HrasvaDirgha,
            260,
            RuleView::VarnaVinyasNiyam("3(क)(ई)"@),
            "नेपालि"@,
            "नेपाली"@,
        ),
        RuleFn::Chandrabindu => spec1(
            "ortho-chandrabindu"@,
            RuleCategory::Chandrabindu,
            300,
            RuleView::VarnaVinyasNiyam("3(ख)"@),
            "सिँह"@,
            "सिंह"@,
        ),
        RuleFn::Sibilant => spec1(
            "ortho-sibilant"@,
            RuleCategory::ShaShaS,
            310,
            RuleView::VarnaVinyasNiyam("3(ग)(अ)"@),
            "रजिष्टर"@,
            "रजिस्टर"@,
        ),
        RuleFn::BaVa => spec2(
            "ortho-ba-va"@,
            RuleCategory::ShaShaS,
            315,
            RuleView::VarnaVinyasNiyam("3(ग)(आ)"@),
            "बिदेश"@,
            "विदेश"@,
            "बिज्ञान"@,
            "विज्ञान"@,
        ),
        RuleFn::RiKri => spec2(
            "ortho-ri-kri"@,
            RuleCategory::RiKri,
            320,
            RuleView::VarnaVinyasNiyam("3(ग)-ऋ"@),
            "रिषि"@,
            "ऋषि"@,
            "क्रिति"@,
            "कृति"@,
        ),
        RuleFn::Halanta => spec2(
            "ortho-halanta"@,
            RuleCategory::Halanta,
            330,
            RuleView::VarnaVinyasNiyam("3(ङ)"@),
            "बुद्धिमान"@,
            "बुद्धिमान्"@,
            "श्रीमान"@,
            "श्रीमान्"@,
        ),
        RuleFn::YaE => spec2(
            "ortho-ya-e"@,
            RuleCategory::YaE,
            350,
            RuleView::VarnaVinyasNiyam("3(ग)(इ)"@),
            "एथार्थ"@,
            "यथार्थ"@,
            "यकता"@,
            "एकता"@,
        ),
        RuleFn::KshaChhya => spec2(
            "ortho-ksha-chhya"@,
            RuleCategory::KshaChhya,
            360,
            RuleView::VarnaVinyasNiyam("3(ग)(उ)"@),
            "लछ्य"@,
            "लक्ष्य"@,
            "छेत्र"@,
            "क्षेत्र"@,
        ),
        RuleFn::GyaGyan => spec2(
            "ortho-gya-gyan"@,
            RuleCategory::GyaGyan,
            365,
            RuleView::VarnaVinyasNiyam("3(ग)(ऊ)"@),
            "अग्यान"@,
            "अज्ञान"@,
            "प्रग्या"@,
            "प्रज्ञा"@,
        ),
    }
}

fn make_spec1(
    id: &'static str,
    category: RuleCategory,
    priority: u16,
    citation: Rule,
    a: &'static str,
    b: &'static str,
) -> (s: RuleSpec)
    ensures
        s@ == spec1(id@, category, priority, citation@, a@, b@),
{
    let mut examples: Vec<(&'static str, &'static str)> = Vec::new();
    examples.push((a, b));
    assert(examples_view(examples@) =~= seq![(a@, b@)]);
    RuleSpec { id, category, kind: DiagnosticKind::Error, priority, citation, examples }
}

fn make_spec2(
    id: &'static str,
    category: RuleCategory,
    priority: u16,
    citation: Rule,
    a: &'static str,
    b: &'static str,
    c: &'static str,
    d: &'static str,
) -> (s: RuleSpec)
    ensures
        s@ == spec2(id@, category, priority, citation@, a@, b@, c@, d@),
{
    let mut examples: Vec<(&'static str, &'static str)> = Vec::new();
    examples.push((a, b));
    examples.push((c, d));
    assert(examples_view(examples@) =~= seq![(a@, b@), (c@, d@)]);
    RuleSpec { id, category, kind: DiagnosticKind::Error, priority, citation, examples }
}

impl RuleFn {
    /// The metadata of this rule.
    pub fn spec(&self) -> (s: RuleSpec)
        ensures
            s@ == rule_spec_view(*self),
    {
        match self {
            RuleFn::ShriCorrection => make_spec1(
                "struct-shri",
                RuleCategory::StructuralPattern,
                100,
                Rule::ShuddhaAshuddha("Section 4"),
                "श्रृङ्गार",
                "शृङ्गार",
            ),
            RuleFn::RedundantSuffix => make_spec2(
                "struct-redundant-suffix",
                RuleCategory::StructuralPattern,
                110,
                Rule::ShuddhaAshuddha("Section 4"),
                "सौन्दर्यता",
                "सौन्दर्य",
                "औचित्यता",
                "औचित्य",
            ),
            RuleFn::PanchhamVarna => make_spec2(
                "struct-panchham",
                RuleCategory::StructuralPattern,
                120,
                Rule::VarnaVinyasNiyam("3(ख)-पञ्चम"),
                "संकेत",
                "सङ्केत",
                "संघीय",
                "सङ्घीय",
            ),
            RuleFn::SuffixNuHrasva => make_spec1(
                "hd-suffix-nu",
                RuleCategory::HrasvaDirgha,
                200,
                Rule::VarnaVinyasNiyam("3(क)-suffix-नु"),
                "स्वीकार्नु",
                "स्विकार्नु",
            ),
            RuleFn::SuffixEliHrasva => make_spec1(
                "hd-suffix-eli",
                RuleCategory::HrasvaDirgha,
                210,
                Rule::VarnaVinyasNiyam("3(क)-suffix-एली"),
                "पूर्वेली",
                "पुर्वेली",
            ),
            RuleFn::SuffixPreservesDirgha => make_spec2(
                "hd-suffix-preserves",
                RuleCategory::HrasvaDirgha,
                220,
                Rule::VarnaVinyasNiyam("3(क)(उ)"),
                "पुर्वी",
                "पूर्वी",
                "पुर्वीय",
                "पूर्वीय",
            ),
            RuleFn::TadbhavHrasva => make_spec1(
                "hd-tadbhav",
                RuleCategory::HrasvaDirgha,
                230,
                Rule::VarnaVinyasNiyam("3(क)-12"),
                "मीठो",
                "मिठो",
            ),
            RuleFn::DirghaEndings => make_spec2(
                "hd-dirgha-endings",
                RuleCategory::HrasvaDirgha,
                240,
                Rule::VarnaVinyasNiyam("3(ई)"),
                "भनि",
                "भनी",
                "गरि",
                "गरी",
            ),
            RuleFn::KinshipTadbhav => make_spec2(
                "hd-kinship",
                RuleCategory::HrasvaDirgha,
                250,
                Rule::VarnaVinyasNiyam("3(क)(इ)-1"),
                "दाजू",
                "दाजु",
                "भाउजु",
                "भाउजू",
            ),
            RuleFn::KoshaBackedDirgha => make_spec1(
                "hd-kosha-backed",
                RuleCategory::HrasvaDirgha,
                260,
                Rule::VarnaVinyasNiyam("3(क)(ई)"),
                "नेपालि",
                "नेपाली",
            ),
            RuleFn::Chandrabindu => make_spec1(
                "ortho-chandrabindu",
                RuleCategory::Chandrabindu,
                300,
                Rule::VarnaVinyasNiyam("3(ख)"),
                "सिँह",
                "सिंह",
            ),
            RuleFn::Sibilant => make_spec1(
                "ortho-sibilant",
                RuleCategory::ShaShaS,
                310,
                Rule::VarnaVinyasNiyam("3(ग)(अ)"),
                "रजिष्टर",
                "रजिस्टर",
            ),
            RuleFn::BaVa => make_spec2(
                "ortho-ba-va",
                RuleCategory::ShaShaS,
                315,
                Rule::VarnaVinyasNiyam("3(ग)(आ)"),
                "बिदेश",
                "विदेश",
                "बिज्ञान",
                "विज्ञान",
            ),
            RuleFn::RiKri => make_spec2(
                "ortho-ri-kri",
                RuleCategory::RiKri,
                320,
                Rule::VarnaVinyasNiyam("3(ग)-ऋ"),
                "रिषि",
                "ऋषि",
                "क्रिति",
                "कृति",
            ),
            RuleFn::Halanta => make_spec2(
                "ortho-halanta",
                RuleCategory::Halanta,
                330,
                Rule::VarnaVinyasNiyam("3(ङ)"),
                "बुद्धिमान",
                "बुद्धिमान्",
                "श्रीमान",
                "श्रीमान्",
            ),
            RuleFn::YaE => make_spec2(
                "ortho-ya-e",
                RuleCategory::YaE,
                350,
                Rule::VarnaVinyasNiyam("3(ग)(इ)"),
                "एथार्थ",
                "यथार्थ",
                "यकता",
                "एकता",
            ),
            RuleFn::KshaChhya => make_spec2(
                "ortho-ksha-chhya",
                RuleCategory::KshaChhya,
                360,
                Rule::VarnaVinyasNiyam("3(ग)(उ)"),
                "लछ्य",
                "लक्ष्य",
                "छेत्र",
                "क्षेत्र",
            ),
            RuleFn::GyaGyan => make_spec2(
                "ortho-gya-gyan",
                RuleCategory::GyaGyan,
                365,
                Rule::VarnaVinyasNiyam("3(ग)(ऊ)"),
                "अग्यान",
                "अज्ञान",
                "प्रग्या",
                "प्रज्ञा",
            ),
        }
    }
}

/// A pattern rule with its metadata and the function that applies it.
#[derive(Debug, Clone)]
pub struct PatternRule {
    /// Rule metadata.
    pub spec: RuleSpec,
    /// The rule function.
    pub apply: RuleFn,
}

/// The cleanup rules outside the Academy orthography families.
pub open spec fn usage_fix_registry() -> Seq<RuleFn> {
    seq![RuleFn::ShriCorrection]
}

/// The Academy orthography rules, in evaluation order.
pub open spec fn varna_vinyasa_registry() -> Seq<RuleFn> {
    seq![
        RuleFn::RedundantSuffix,
        RuleFn::PanchhamVarna,
        RuleFn::SuffixNuHrasva,
        RuleFn::SuffixEliHrasva,
        RuleFn::SuffixPreservesDirgha,
        RuleFn::TadbhavHrasva,
        RuleFn::DirghaEndings,
        RuleFn::KinshipTadbhav,
        RuleFn::KoshaBackedDirgha,
        RuleFn::Chandrabindu,
        RuleFn::Sibilant,
        RuleFn::BaVa,
        RuleFn::RiKri,
        RuleFn::Halanta,
        RuleFn::YaE,
        RuleFn::KshaChhya,
        RuleFn::GyaGyan,
    ]
}

/// All pattern rules, in evaluation order.
pub open spec fn registry() -> Seq<RuleFn> {
    usage_fix_registry() + varna_vinyasa_registry()
}

/// `rules` holds exactly the rule functions `fns`, each with its own metadata.
pub open spec fn holds_rules(rules: Seq<PatternRule>, fns: Seq<RuleFn>) -> bool {
    &&& rules.len() == fns.len()
    &&& forall|i: int| 0 <= i < fns.len() ==> #[trigger] rules[i].apply == fns[i] && rules[i].spec@
        == rule_spec_view(fns[i])
}

fn pattern_rule(f: RuleFn) -> (r: PatternRule)
    ensures
        r.apply == f,
        r.spec@ == rule_spec_view(f),
{
    PatternRule { spec: f.spec(), apply: f }
}

/// The cleanup rules outside the Academy orthography families.
pub fn usage_fix_rules() -> (r: Vec<PatternRule>)
    ensures
        holds_rules(r@, usage_fix_registry()),
{
    let mut r: Vec<PatternRule> = Vec::new();
    r.push(pattern_rule(RuleFn::ShriCorrection));
    r
}

/// The Academy orthography rules, in evaluation order.
pub fn varna_vinyasa_rules() -> (r: Vec<PatternRule>)
    ensures
        holds_rules(r@, varna_vinyasa_registry()),
{
    let mut r: Vec<PatternRule> = Vec::new();
    r.push(pattern_rule(RuleFn::RedundantSuffix));
    r.push(pattern_rule(RuleFn::PanchhamVarna));
    r.push(pattern_rule(RuleFn::SuffixNuHrasva));
    r.push(pattern_rule(RuleFn::SuffixEliHrasva));
    r.push(pattern_rule(RuleFn::SuffixPreservesDirgha));
    r.push(pattern_rule(RuleFn::TadbhavHrasva));
    r.push(pattern_rule(RuleFn::DirghaEndings));
    r.push(pattern_rule(RuleFn::KinshipTadbhav));
    r.push(pattern_rule(RuleFn::KoshaBackedDirgha));
    r.push(pattern_rule(RuleFn::Chandrabindu));
    r.push(pattern_rule(RuleFn::Sibilant));
    r.push(pattern_rule(RuleFn::BaVa));
    r.push(pattern_rule(RuleFn::RiKri));
    r.push(pattern_rule(RuleFn::Halanta));
    r.push(pattern_rule(RuleFn::YaE));
    r.push(pattern_rule(RuleFn::KshaChhya));
    r.push(pattern_rule(RuleFn::GyaGyan));
    r
}

/// Priorities strictly increase along the registry.
pub proof fn lemma_registry_priorities_increase()
    ensures
        forall|i: int, j: int|
            0 <= i < j < registry().len() ==> rule_spec_view(#[trigger] registry()[i]).priority
                < rule_spec_view(#[trigger] registry()[j]).priority,
{
    let r = registry();
    assert(r =~= seq![
        RuleFn::ShriCorrection,
        RuleFn::RedundantSuffix,
        RuleFn::PanchhamVarna,
        RuleFn::SuffixNuHrasva,
        RuleFn::SuffixEliHrasva,
        RuleFn::SuffixPreservesDirgha,
        RuleFn::TadbhavHrasva,
        RuleFn::DirghaEndings,
        RuleFn::KinshipTadbhav,
        RuleFn::KoshaBackedDirgha,
        RuleFn::Chandrabindu,
        RuleFn::Sibilant,
        RuleFn::BaVa,
        RuleFn::RiKri,
        RuleFn::Halanta,
        RuleFn::YaE,
        RuleFn::KshaChhya,
        RuleFn::GyaGyan,
    ]);
    let p = Seq::new(r.len(), |i: int| rule_spec_view(r[i]).priority as int);
    assert forall|i: int| 0 <= i < r.len() - 1 implies #[trigger] p[i] < p[i + 1] by {
        assert(i == 0 || i == 1 || i == 2 || i == 3 || i == 4 || i == 5 || i == 6 || i == 7 || i
            == 8 || i == 9 || i == 10 || i == 11 || i == 12 || i == 13 || i == 14 || i == 15 || i
            == 16);
    }
    lemma_increasing(p);
    assert forall|i: int, j: int| 0 <= i < j < r.len() implies rule_spec_view(
        #[trigger] r[i],
    ).priority < rule_spec_view(#[trigger] r[j]).priority by {
        assert(p[i] < p[j]);
    }
}

/// A sequence whose neighbours increase is increasing.
proof fn lemma_increasing(p: Seq<int>)
    requires
        forall|i: int| 0 <= i < p.len() - 1 ==> #[trigger] p[i] < p[i + 1],
    ensures
        forall|i: int, j: int| 0 <= i < j < p.len() ==> p[i] < p[j],
    decreases p.len(),
{
    if p.len() > 1 {
        let q = p.drop_last();
        assert forall|i: int| 0 <= i < q.len() - 1 implies #[trigger] q[i] < q[i + 1] by {
            assert(q[i] == p[i] && q[i + 1] == p[i + 1]);
        }
        lemma_increasing(q);
        assert forall|i: int, j: int| 0 <= i < j < p.len() implies p[i] < p[j] by {
            if j < p.len() - 1 {
                assert(q[i] < q[j]);
            } else {
                assert(p[j - 1] < p[j]);
                if i < j - 1 {
                    assert(q[i] < q[j - 1]);
                }
            }
        }
    }
}

/// The rule identifiers are pairwise distinct.
pub proof fn lemma_rule_ids_distinct()
    ensures
        forall|a: RuleFn, b: RuleFn|
            a != b ==> #[trigger] rule_spec_view(a).id != #[trigger] rule_spec_view(b).id,
{
    reveal_strlit("struct-shri");
    reveal_strlit("struct-redundant-suffix");
    reveal_strlit("struct-panchham");
    reveal_strlit("hd-suffix-nu");
    reveal_strlit("hd-suffix-eli");
    reveal_strlit("hd-suffix-preserves");
    reveal_strlit("hd-tadbhav");
    reveal_strlit("hd-dirgha-endings");
    reveal_strlit("hd-kinship");
    reveal_strlit("hd-kosha-backed");
    reveal_strlit("ortho-chandrabindu");
    reveal_strlit("ortho-sibilant");
    reveal_strlit("ortho-ba-va");
    reveal_strlit("ortho-ri-kri");
    reveal_strlit("ortho-halanta");
    reveal_strlit("ortho-ya-e");
    reveal_strlit("ortho-ksha-chhya");
    reveal_strlit("ortho-gya-gyan");
    assert forall|a: RuleFn, b: RuleFn| a != b implies #[trigger] rule_spec_view(a).id
        != #[trigger] rule_spec_view(b).id by {
        let x = rule_spec_view(a).id;
        let y = rule_spec_view(b).id;
        if x.len() == y.len() {
            assert(x[3] != y[3] || x[6] != y[6]);
        }
    }
}

/// All pattern rules, sorted by priority.
pub fn pattern_rules() -> (r: Vec<PatternRule>)
    ensures
        holds_rules(r@, registry()),
        forall|i: int, j: int|
            0 <= i < j < r@.len() ==> (#[trigger] r@[i]).spec.priority < (#[trigger] r@[j]).spec.priority,
        forall|i: int, j: int| 0 <= i < j < r@.len() ==> (#[trigger] r@[i]).spec.id@ != (#[trigger] r@[j]).spec.id@,
{
    let mut r = usage_fix_rules();
    let mut rest = varna_vinyasa_rules();
    let ghost a = r@;
    let ghost b = rest@;
    r.append(&mut rest);
    proof {
        assert(r@ =~= a + b);
        lemma_registry_priorities_increase();
        lemma_rule_ids_distinct();
        assert forall|i: int| 0 <= i < registry().len() implies #[trigger] r@[i].apply == registry()[i]
            && r@[i].spec@ == rule_spec_view(registry()[i]) by {
            if i < 1 {
                assert(r@[i] == a[i]);
            } else {
                assert(r@[i] == b[i - 1]);
                assert(registry()[i] == varna_vinyasa_registry()[i - 1]);
            }
        }
        assert forall|i: int, j: int| 0 <= i < j < r@.len() implies (#[trigger] r@[i]).spec.priority
            < (#[trigger] r@[j]).spec.priority by {
            assert(r@[i].apply == registry()[i]);
            assert(r@[j].apply == registry()[j]);
        }
        assert forall|i: int, j: int| 0 <= i < j < r@.len() implies (#[trigger] r@[i]).spec.id@
            != (#[trigger] r@[j]).spec.id@ by {
            assert(r@[i].apply == registry()[i]);
            assert(r@[j].apply == registry()[j]);
            assert(registry()[i] != registry()[j]) by {
                assert(rule_spec_view(registry()[i]).priority < rule_spec_view(registry()[j]).priority);
            }
            assert(rule_spec_view(registry()[i]).id != rule_spec_view(registry()[j]).id);
            assert(r@[i].spec@.id == r@[i].spec.id@);
            assert(r@[j].spec@.id == r@[j].spec.id@);
        }
    }
    r
}

} // verus!
