//! Diagnostics reported by the checker and the families they belong to.
use vstd::prelude::*;

use crate::rule::{DiagnosticKind, Explanation, ExplanationView, Rule, RuleCategory, RuleView};
use crate::text::{contains, has_sub, str_eq};

verus! {

broadcast use vstd::string::group_string_axioms;

/// Category of a diagnostic.
#[derive(Debug, Clone, Copy, PartialEq, Eq, Structural)]
pub enum DiagnosticCategory {
    HrasvaDirgha,
    Chandrabindu,
    ShaShaS,
    BaVa,
    RiKri,
    Halanta,
    AadhiVriddhi,
    YaE,
    KshaChhya,
    GyaGyan,
    Sandhi,
    Punctuation,
    ShuddhaTable,
}

/// The stable machine-readable code of a category.
pub open spec fn category_code(c: DiagnosticCategory) -> Seq<char> {
    match c {
        DiagnosticCategory::HrasvaDirgha => "HrasvaDirgha"@,
        DiagnosticCategory::Chandrabindu => "Chandrabindu"@,
        DiagnosticCategory::ShaShaS => "ShaShaS"@,
        DiagnosticCategory::BaVa => "BaVa"@,
        DiagnosticCategory::RiKri => "RiKri"@,
        DiagnosticCategory::Halanta => "Halanta"@,
        DiagnosticCategory::AadhiVriddhi => "AadhiVriddhi"@,
        DiagnosticCategory::YaE => "YaE"@,
        DiagnosticCategory::KshaChhya => "KshaChhya"@,
        DiagnosticCategory::GyaGyan => "GyaGyan"@,
        DiagnosticCategory::Sandhi => "Sandhi"@,
        DiagnosticCategory::Punctuation => "Punctuation"@,
        DiagnosticCategory::ShuddhaTable => "ShuddhaTable"@,
    }
}

/// The Nepali label a category is shown with.
pub open spec fn category_label(c: DiagnosticCategory) -> Seq<char> {
    match c {
        DiagnosticCategory::HrasvaDirgha => "ह्रस्व/दीर्घ"@,
        DiagnosticCategory::Chandrabindu => "चन्द्रबिन्दु"@,
        DiagnosticCategory::ShaShaS => "श/ष/स"@,
        DiagnosticCategory::BaVa => "ब/व"@,
        DiagnosticCategory::RiKri => "ऋ/कृ"@,
        DiagnosticCategory::Halanta => "हलन्त"@,
        DiagnosticCategory::AadhiVriddhi => "आदिवृद्धि"@,
        DiagnosticCategory::YaE => "य/ए"@,
        DiagnosticCategory::KshaChhya => "क्ष/छ्य"@,
        DiagnosticCategory::GyaGyan => "ज्ञ/ग्य"@,
        DiagnosticCategory::Sandhi => "सन्धि"@,
        DiagnosticCategory::Punctuation => "चिह्न"@,
        DiagnosticCategory::ShuddhaTable => "शुद्ध-अशुद्ध"@,
    }
}

/// The family of an orthography-standard code, by the markers it contains.
pub open spec fn varna_category(code: Seq<char>) -> DiagnosticCategory {
    if has_sub(code, "3(क)-इक-प्रत्यय"@) {
        DiagnosticCategory::AadhiVriddhi
    } else if has_sub(code, "ऋ"@) || has_sub(code, "कृ"@) || has_sub(code, "3(ग)-ऋ"@) || has_sub(
        code,
        "3(ग)-कृ"@,
    ) {
        DiagnosticCategory::RiKri
    } else if has_sub(code, "ब/व"@) || has_sub(code, "3(ग)-बव"@) || has_sub(code, "3(ग)(आ)"@) {
        DiagnosticCategory::BaVa
    } else if has_sub(code, "क्ष"@) || has_sub(code, "छ्य"@) || has_sub(code, "3(छ)-क्ष"@) {
        DiagnosticCategory::KshaChhya
    } else if has_sub(code, "ज्ञ"@) || has_sub(code, "ग्य"@) {
        DiagnosticCategory::GyaGyan
    } else if has_sub(code, "य/ए"@) || code == "3(छ)"@ {
        DiagnosticCategory::YaE
    } else if has_sub(code, "ह्रस्व"@) || has_sub(code, "दीर्घ"@) || has_sub(code, "3(क)"@) {
        DiagnosticCategory::HrasvaDirgha
    } else if has_sub(code, "चन्द्रबिन्दु"@) || has_sub(code, "3(ख)"@) {
        DiagnosticCategory::Chandrabindu
    } else if has_sub(code, "श/ष/स"@) || has_sub(code, "3(ग)"@) {
        DiagnosticCategory::ShaShaS
    } else if has_sub(code, "हलन्त"@) || has_sub(code, "3(ङ)"@) {
        DiagnosticCategory::Halanta
    } else if has_sub(code, "सन्धि"@) || has_sub(code, "sandhi"@) {
        DiagnosticCategory::Sandhi
    } else {
        DiagnosticCategory::ShuddhaTable
    }
}

/// The category a rule citation points to.
pub open spec fn rule_category(r: RuleView) -> DiagnosticCategory {
    match r {
        RuleView::ShuddhaAshuddha(_) => DiagnosticCategory::ShuddhaTable,
        RuleView::ChihnaNiyam(_) => DiagnosticCategory::Punctuation,
        RuleView::VarnaVinyasNiyam(code) => varna_category(code),
        RuleView::Vyakaran(code) => if has_sub(code, "सन्धि"@) || has_sub(code, "sandhi"@) {
            DiagnosticCategory::Sandhi
        } else {
            DiagnosticCategory::ShuddhaTable
        },
    }
}

/// The diagnostic category of a rule category.
pub open spec fn category_of(c: RuleCategory) -> DiagnosticCategory {
    match c {
        RuleCategory::ShuddhaTable => DiagnosticCategory::ShuddhaTable,
        RuleCategory::HrasvaDirgha => DiagnosticCategory::HrasvaDirgha,
        RuleCategory::Chandrabindu => DiagnosticCategory::Chandrabindu,
        RuleCategory::ShaShaS => DiagnosticCategory::ShaShaS,
        RuleCategory::BaVa => DiagnosticCategory::BaVa,
        RuleCategory::RiKri => DiagnosticCategory::RiKri,
        RuleCategory::Halanta => DiagnosticCategory::Halanta,
        RuleCategory::Sandhi => DiagnosticCategory::Sandhi,
        RuleCategory::AadhiVriddhi => DiagnosticCategory::AadhiVriddhi,
        RuleCategory::YaE => DiagnosticCategory::YaE,
        RuleCategory::KshaChhya => DiagnosticCategory::KshaChhya,
        RuleCategory::GyaGyan => DiagnosticCategory::GyaGyan,
        RuleCategory::StructuralPattern => DiagnosticCategory::ShuddhaTable,
    }
}

/// The typed category when there is one, upgraded from the generic table
/// family to the family the rule itself names; otherwise the rule's family.
pub open spec fn chosen_category(category: Option<RuleCategory>, rule: RuleView) -> DiagnosticCategory {
    match category {
        Some(c) => if category_of(c) == DiagnosticCategory::ShuddhaTable {
            rule_category(rule)
        } else {
            category_of(c)
        },
        None => rule_category(rule),
    }
}

impl DiagnosticCategory {
    /// Stable machine-readable code for serialization.
    pub fn as_code(&self) -> (r: &'static str)
        ensures
            r@ == category_code(*self),
    {
        match self {
            DiagnosticCategory::HrasvaDirgha => "HrasvaDirgha",
            DiagnosticCategory::Chandrabindu => "Chandrabindu",
            DiagnosticCategory::ShaShaS => "ShaShaS",
            DiagnosticCategory::BaVa => "BaVa",
            DiagnosticCategory::RiKri => "RiKri",
            DiagnosticCategory::Halanta => "Halanta",
            DiagnosticCategory::AadhiVriddhi => "AadhiVriddhi",
            DiagnosticCategory::YaE => "YaE",
            DiagnosticCategory::KshaChhya => "KshaChhya",
            DiagnosticCategory::GyaGyan => "GyaGyan",
            DiagnosticCategory::Sandhi => "Sandhi",
            DiagnosticCategory::Punctuation => "Punctuation",
            DiagnosticCategory::ShuddhaTable => "ShuddhaTable",
        }
    }

    /// The Nepali label the category is shown with.
    pub fn display_text(&self) -> (r: &'static str)
        ensures
            r@ == category_label(*self),
    {
        match self {
            DiagnosticCategory::HrasvaDirgha => "ह्रस्व/दीर्घ",
            DiagnosticCategory::Chandrabindu => "चन्द्रबिन्दु",
            DiagnosticCategory::ShaShaS => "श/ष/स",
            DiagnosticCategory::BaVa => "ब/व",
            DiagnosticCategory::RiKri => "ऋ/कृ",
            DiagnosticCategory::Halanta => "हलन्त",
            DiagnosticCategory::AadhiVriddhi => "आदिवृद्धि",
            DiagnosticCategory::YaE => "य/ए",
            DiagnosticCategory::KshaChhya => "क्ष/छ्य",
            DiagnosticCategory::GyaGyan => "ज्ञ/ग्य",
            DiagnosticCategory::Sandhi => "सन्धि",
            DiagnosticCategory::Punctuation => "चिह्न",
            DiagnosticCategory::ShuddhaTable => "शुद्ध-अशुद्ध",
        }
    }

    /// Infer category from a Rule.
    pub fn from_rule(rule: &Rule) -> (r: DiagnosticCategory)
        ensures
            r == rule_category(rule@),
    {
        match rule {
            Rule::ShuddhaAshuddha(_) => DiagnosticCategory::ShuddhaTable,
            Rule::ChihnaNiyam(_) => DiagnosticCategory::Punctuation,
            Rule::VarnaVinyasNiyam(code) => varna_category_of(code),
            Rule::Vyakaran(code) => {
                if contains(code, "सन्धि") || contains(code, "sandhi") {
                    DiagnosticCategory::Sandhi
                } else {
                    DiagnosticCategory::ShuddhaTable
                }
            },
        }
    }

    /// Typed mapping from rule categories.
    pub fn from_rule_category(category: RuleCategory) -> (r: DiagnosticCategory)
        ensures
            r == category_of(category),
    {
        match category {
            RuleCategory::ShuddhaTable => DiagnosticCategory::ShuddhaTable,
            RuleCategory::HrasvaDirgha => DiagnosticCategory::HrasvaDirgha,
            RuleCategory::Chandrabindu => DiagnosticCategory::Chandrabindu,
            RuleCategory::ShaShaS => DiagnosticCategory::ShaShaS,
            RuleCategory::BaVa => DiagnosticCategory::BaVa,
            RuleCategory::RiKri => DiagnosticCategory::RiKri,
            RuleCategory::Halanta => DiagnosticCategory::Halanta,
            RuleCategory::Sandhi => DiagnosticCategory::Sandhi,
            RuleCategory::AadhiVriddhi => DiagnosticCategory::AadhiVriddhi,
            RuleCategory::YaE => DiagnosticCategory::YaE,
            RuleCategory::KshaChhya => DiagnosticCategory::KshaChhya,
            RuleCategory::GyaGyan => DiagnosticCategory::GyaGyan,
            RuleCategory::StructuralPattern => DiagnosticCategory::ShuddhaTable,
        }
    }
}

fn varna_category_of(code: &str) -> (r: DiagnosticCategory)
    ensures
        r == varna_category(code@),
{
    if contains(code, "3(क)-इक-प्रत्यय") {
        DiagnosticCategory::AadhiVriddhi
    } else if contains(code, "ऋ") || contains(code, "कृ") || contains(code, "3(ग)-ऋ") || contains(
        code,
        "3(ग)-कृ",
    ) {
        DiagnosticCategory::RiKri
    } else if contains(code, "ब/व") || contains(code, "3(ग)-बव") || contains(code, "3(ग)(आ)") {
        DiagnosticCategory::BaVa
    } else if contains(code, "क्ष") || contains(code, "छ्य") || contains(code, "3(छ)-क्ष") {
        DiagnosticCategory::KshaChhya
    } else if contains(code, "ज्ञ") || contains(code, "ग्य") {
        DiagnosticCategory::GyaGyan
    } else if contains(code, "य/ए") || str_eq(code, "3(छ)") {
        DiagnosticCategory::YaE
    } else if contains(code, "ह्रस्व") || contains(code, "दीर्घ") || contains(code, "3(क)") {
        DiagnosticCategory::HrasvaDirgha
    } else if contains(code, "चन्द्रबिन्दु") || contains(code, "3(ख)") {
        DiagnosticCategory::Chandrabindu
    } else if contains(code, "श/ष/स") || contains(code, "3(ग)") {
        DiagnosticCategory::ShaShaS
    } else if contains(code, "हलन्त") || contains(code, "3(ङ)") {
        DiagnosticCategory::Halanta
    } else if contains(code, "सन्धि") || contains(code, "sandhi") {
        DiagnosticCategory::Sandhi
    } else {
        DiagnosticCategory::ShuddhaTable
    }
}

/// Prefer typed metadata, but upgrade generic ShuddhaTable to a more
/// specific family when the winning rule itself clearly identifies one.
pub fn choose_diagnostic_category(category: Option<RuleCategory>, rule: &Rule) -> (r:
    DiagnosticCategory)
    ensures
        r == chosen_category(category, rule@),
{
    match category {
        Some(c) => {
            let mapped = DiagnosticCategory::from_rule_category(c);
            if mapped == DiagnosticCategory::ShuddhaTable {
                DiagnosticCategory::from_rule(rule)
            } else {
                mapped
            }
        },
        None => DiagnosticCategory::from_rule(rule),
    }
}

/// An alternate applicable reason for the same token.
pub type DiagnosticReason = Explanation;

/// The category of an alternate reason.
pub fn diagnostic_reason_category(reason: &DiagnosticReason) -> (r: DiagnosticCategory)
    ensures
        r == chosen_category(reason.category, reason.rule@),
{
    choose_diagnostic_category(reason.category, &reason.rule)
}

/// A spell-check diagnostic.
#[derive(Debug)]
pub struct Diagnostic {
    /// Byte offset span (start, end) in the checked text.
    pub span: (usize, usize),
    /// The incorrect form found.
    pub incorrect: String,
    /// The suggested correction.
    pub correction: String,
    /// The rule that was applied.
    pub rule: Rule,
    /// Human-readable explanation.
    pub explanation: String,
    /// Category of the issue.
    pub category: DiagnosticCategory,
    /// Severity kind (error, variant, ambiguous).
    pub kind: DiagnosticKind,
    /// Confidence in thousandths (0–1000).
    pub confidence_permille: u16,
    /// Other applicable Academy reasons for the same token, if any.
    pub alternate_reasons: Vec<DiagnosticReason>,
}

impl Clone for Diagnostic {
    fn clone(&self) -> (d: Diagnostic) {
        Diagnostic {
            span: (self.span.0, self.span.1),
            incorrect: self.incorrect.clone(),
            correction: self.correction.clone(),
            rule: self.rule,
            explanation: self.explanation.clone(),
            category: self.category,
            kind: self.kind,
            confidence_permille: self.confidence_permille,
            alternate_reasons: self.alternate_reasons.clone(),
        }
    }
}

/// The content of a [`Diagnostic`].
pub ghost struct DiagnosticView {
    pub span: (int, int),
    pub incorrect: Seq<char>,
    pub correction: Seq<char>,
    pub rule: RuleView,
    pub explanation: Seq<char>,
    pub category: DiagnosticCategory,
    pub kind: DiagnosticKind,
    pub confidence_permille: int,
    pub alternate_reasons: Seq<ExplanationView>,
}

/// Explanations by content.
pub open spec fn reasons_view(v: Seq<Explanation>) -> Seq<ExplanationView> {
    v.map_values(|e: Explanation| e@)
}

impl View for Diagnostic {
    type V = DiagnosticView;

    open spec fn view(&self) -> DiagnosticView {
        DiagnosticView {
            span: (self.span.0 as int, self.span.1 as int),
            incorrect: self.incorrect@,
            correction: self.correction@,
            rule: self.rule@,
            explanation: self.explanation@,
            category: self.category,
            kind: self.kind,
            confidence_permille: self.confidence_permille as int,
            alternate_reasons: reasons_view(self.alternate_reasons@),
        }
    }
}


/// How a diagnostic is shown: `[category] incorrect → correction (explanation)`.
pub open spec fn diagnostic_text(d: DiagnosticView) -> Seq<char> {
    "["@ + category_label(d.category) + "] "@ + d.incorrect + " → "@ + d.correction + " ("@ + d.explanation + ")"@
}

impl Diagnostic {
    /// The text this diagnostic is shown with.
    pub fn display_text(&self) -> (r: String)
        ensures
            r@ == diagnostic_text(self@),
    {
        let a = crate::text::concat3("[", self.category.display_text(), "] ");
        let b = crate::text::concat3(a.as_str(), self.incorrect.as_str(), " → ");
        let c = crate::text::concat3(b.as_str(), self.correction.as_str(), " (");
        crate::text::concat3(c.as_str(), self.explanation.as_str(), ")")
    }
}

} // verus!
