//! Rule citations, derivation steps and derivation results.
use vstd::prelude::*;

use crate::text::{is_prefix, starts_with, str_eq};

verus! {

broadcast use vstd::string::group_string_axioms;

/// A rule from an authoritative source.
#[derive(Debug, Clone, Copy, PartialEq, Eq, Hash)]
pub enum Rule {
    /// Nepal Academy orthography standard section reference, e.g. `3(क)`.
    VarnaVinyasNiyam(&'static str),
    /// Nepal Academy grammar reference.
    Vyakaran(&'static str),
    /// Specific word table entry from Section 4.
    ShuddhaAshuddha(&'static str),
    /// Punctuation rule from Section 5.
    ChihnaNiyam(&'static str),
}

/// The mathematical content of a [`Rule`]: its source and its code.
pub ghost enum RuleView {
    VarnaVinyasNiyam(Seq<char>),
    Vyakaran(Seq<char>),
    ShuddhaAshuddha(Seq<char>),
    ChihnaNiyam(Seq<char>),
}

impl View for Rule {
    type V = RuleView;

    open spec fn view(&self) -> RuleView {
        match self {
            Rule::VarnaVinyasNiyam(s) => RuleView::VarnaVinyasNiyam(s@),
            Rule::Vyakaran(s) => RuleView::Vyakaran(s@),
            Rule::ShuddhaAshuddha(s) => RuleView::ShuddhaAshuddha(s@),
            Rule::ChihnaNiyam(s) => RuleView::ChihnaNiyam(s@),
        }
    }
}

/// The code a rule cites.
pub open spec fn rule_code(r: RuleView) -> Seq<char> {
    match r {
        RuleView::VarnaVinyasNiyam(s) => s,
        RuleView::Vyakaran(s) => s,
        RuleView::ShuddhaAshuddha(s) => s,
        RuleView::ChihnaNiyam(s) => s,
    }
}

/// Short name of the source a rule comes from.
pub open spec fn rule_source_name(r: RuleView) -> Seq<char> {
    match r {
        RuleView::VarnaVinyasNiyam(_) => "वर्णविन्यास नियम"@,
        RuleView::Vyakaran(_) => "व्याकरण"@,
        RuleView::ShuddhaAshuddha(_) => "शुद्ध-अशुद्ध तालिका"@,
        RuleView::ChihnaNiyam(_) => "चिह्न नियम"@,
    }
}

/// Human-readable description of an orthography-standard section code.
pub open spec fn varna_description(code: Seq<char>) -> Seq<char> {
    if is_prefix("3(क)"@, code) {
        "ह्रस्व/दीर्घ स्वर नियम"@
    } else if is_prefix("3(ख)"@, code) {
        "चन्द्रबिन्दु/शिरबिन्दु नियम"@
    } else if is_prefix("3(ग)(अ)"@, code) {
        "श/ष/स प्रयोग नियम"@
    } else if is_prefix("3(ग)(आ)"@, code) || is_prefix("3(ग)-बव"@, code) {
        "ब/व प्रयोग नियम"@
    } else if is_prefix("3(ग)(ई)"@, code) || is_prefix("3(ग)-ऋ"@, code) || is_prefix(
        "3(ग)-कृ"@,
        code,
    ) {
        "ऋ/कृ प्रयोग नियम"@
    } else if is_prefix("3(ग)(इ)"@, code) || code == "3(छ)"@ {
        "य/ए भेद नियम"@
    } else if is_prefix("3(ग)(उ)"@, code) || is_prefix("3(छ)-क्ष"@, code) {
        "क्ष/छ भेद नियम"@
    } else if is_prefix("3(ग)(ऊ)"@, code) || is_prefix("3(छ)-ज्ञ"@, code) {
        "ज्ञ/ग्य भेद नियम"@
    } else if is_prefix("3(ग)"@, code) {
        "उस्तै उच्चारण हुने वर्ण प्रयोग नियम"@
    } else if is_prefix("3(घ)"@, code) {
        "पदयोग/पदवियोग नियम"@
    } else if is_prefix("3(ङ)"@, code) {
        "हलन्त नियम"@
    } else if is_prefix("3(इ)"@, code) {
        "य/ए भेद नियम"@
    } else if is_prefix("3(उ)"@, code) {
        "क्ष/छ भेद नियम"@
    } else if code == "3(ई)"@ {
        "शुद्ध-अशुद्ध शब्द सूची"@
    } else {
        "वर्णविन्यास नियम"@
    }
}

/// Human-readable description of a grammar code.
pub open spec fn vyakaran_description(code: Seq<char>) -> Seq<char> {
    if code == "section4-phrase-style"@ {
        "शैलीगत/प्रयोगगत सुझाव"@
    } else if code == "section4-phrase-style-inferred-ko-ka"@ {
        "शैलीगत/प्रयोगगत सुझाव (अनुमित)"@
    } else if code == "PS-Saisanik-7(क)-तिर्यक्"@ {
        "शैक्षणिक व्याकरण ७(क) — तिर्यक् रूपको प्रयोग"@
    } else if code == "PS-Saisanik-7(ख)-तिर्यक्"@ {
        "शैक्षणिक व्याकरण ७(ख) — तिर्यक् रूपको प्रयोग"@
    } else if code == "PS-Saisanik-7(ग)-तिर्यक्"@ {
        "शैक्षणिक व्याकरण ७(ग) — तिर्यक् रूपको प्रयोग"@
    } else {
        "व्याकरण नियम"@
    }
}

/// Human-readable description of a rule.
pub open spec fn rule_description(r: RuleView) -> Seq<char> {
    match r {
        RuleView::VarnaVinyasNiyam(code) => varna_description(code),
        RuleView::Vyakaran(code) => vyakaran_description(code),
        RuleView::ShuddhaAshuddha(_) => "शुद्ध-अशुद्ध शब्द सूची"@,
        RuleView::ChihnaNiyam(_) => "विराम चिह्न नियम"@,
    }
}

impl Rule {
    /// The rule code.
    pub fn code(&self) -> (r: &'static str)
        ensures
            r@ == rule_code(self@),
    {
        match self {
            Rule::VarnaVinyasNiyam(s) => s,
            Rule::Vyakaran(s) => s,
            Rule::ShuddhaAshuddha(s) => s,
            Rule::ChihnaNiyam(s) => s,
        }
    }

    /// The name of the source the rule comes from.
    pub fn source_name(&self) -> (r: &'static str)
        ensures
            r@ == rule_source_name(self@),
    {
        match self {
            Rule::VarnaVinyasNiyam(_) => "वर्णविन्यास नियम",
            Rule::Vyakaran(_) => "व्याकरण",
            Rule::ShuddhaAshuddha(_) => "शुद्ध-अशुद्ध तालिका",
            Rule::ChihnaNiyam(_) => "चिह्न नियम",
        }
    }

    /// Human-readable description of the rule.
    pub fn description(&self) -> (r: &'static str)
        ensures
            r@ == rule_description(self@),
    {
        match self {
            Rule::VarnaVinyasNiyam(code) => varna_description_of(code),
            Rule::Vyakaran(code) => vyakaran_description_of(code),
            Rule::ShuddhaAshuddha(_) => "शुद्ध-अशुद्ध शब्द सूची",
            Rule::ChihnaNiyam(_) => "विराम चिह्न नियम",
        }
    }

    /// The text a rule is shown with: its description.
    pub fn display_text(&self) -> (r: String)
        ensures
            r@ == rule_description(self@),
    {
        crate::text::owned(self.description())
    }

    /// Whether two rules cite the same source and code.
    pub fn same_as(&self, other: &Rule) -> (r: bool)
        ensures
            r == (self@ == other@),
    {
        match (self, other) {
            (Rule::VarnaVinyasNiyam(a), Rule::VarnaVinyasNiyam(b)) => str_eq(a, b),
            (Rule::Vyakaran(a), Rule::Vyakaran(b)) => str_eq(a, b),
            (Rule::ShuddhaAshuddha(a), Rule::ShuddhaAshuddha(b)) => str_eq(a, b),
            (Rule::ChihnaNiyam(a), Rule::ChihnaNiyam(b)) => str_eq(a, b),
            _ => false,
        }
    }

    /// Whether the rule is the orthography-standard rule with the given code.
    pub fn is_varna(&self, code: &str) -> (r: bool)
        ensures
            r == (self@ == RuleView::VarnaVinyasNiyam(code@)),
    {
        match self {
            Rule::VarnaVinyasNiyam(a) => str_eq(a, code),
            _ => false,
        }
    }
}

fn varna_description_of(code: &str) -> (r: &'static str)
    ensures
        r@ == varna_description(code@),
{
    if starts_with(code, "3(क)") {
        "ह्रस्व/दीर्घ स्वर नियम"
    } else if starts_with(code, "3(ख)") {
        "चन्द्रबिन्दु/शिरबिन्दु नियम"
    } else if starts_with(code, "3(ग)(अ)") {
        "श/ष/स प्रयोग नियम"
    } else if starts_with(code, "3(ग)(आ)") || starts_with(code, "3(ग)-बव") {
        "ब/व प्रयोग नियम"
    } else if starts_with(code, "3(ग)(ई)") || starts_with(code, "3(ग)-ऋ") || starts_with(
        code,
        "3(ग)-कृ",
    ) {
        "ऋ/कृ प्रयोग नियम"
    } else if starts_with(code, "3(ग)(इ)") || str_eq(code, "3(छ)") {
        "य/ए भेद नियम"
    } else if starts_with(code, "3(ग)(उ)") || starts_with(code, "3(छ)-क्ष") {
        "क्ष/छ भेद नियम"
    } else if starts_with(code, "3(ग)(ऊ)") || starts_with(code, "3(छ)-ज्ञ") {
        "ज्ञ/ग्य भेद नियम"
    } else if starts_with(code, "3(ग)") {
        "उस्तै उच्चारण हुने वर्ण प्रयोग नियम"
    } else if starts_with(code, "3(घ)") {
        "पदयोग/पदवियोग नियम"
    } else if starts_with(code, "3(ङ)") {
        "हलन्त नियम"
    } else if starts_with(code, "3(इ)") {
        "य/ए भेद नियम"
    } else if starts_with(code, "3(उ)") {
        "क्ष/छ भेद नियम"
    } else if str_eq(code, "3(ई)") {
        "शुद्ध-अशुद्ध शब्द सूची"
    } else {
        "वर्णविन्यास नियम"
    }
}

fn vyakaran_description_of(code: &str) -> (r: &'static str)
    ensures
        r@ == vyakaran_description(code@),
{
    if str_eq(code, "section4-phrase-style") {
        "शैलीगत/प्रयोगगत सुझाव"
    } else if str_eq(code, "section4-phrase-style-inferred-ko-ka") {
        "शैलीगत/प्रयोगगत सुझाव (अनुमित)"
    } else if str_eq(code, "PS-Saisanik-7(क)-तिर्यक्") {
        "शैक्षणिक व्याकरण ७(क) — तिर्यक् रूपको प्रयोग"
    } else if str_eq(code, "PS-Saisanik-7(ख)-तिर्यक्") {
        "शैक्षणिक व्याकरण ७(ख) — तिर्यक् रूपको प्रयोग"
    } else if str_eq(code, "PS-Saisanik-7(ग)-तिर्यक्") {
        "शैक्षणिक व्याकरण ७(ग) — तिर्यक् रूपको प्रयोग"
    } else {
        "व्याकरण नियम"
    }
}

/// Diagnostic severity for a rule violation.
#[derive(Debug, Clone, Copy, PartialEq, Eq, Structural)]
pub enum DiagnosticKind {
    /// Definite error — the word is wrong.
    Error,
    /// Valid variant — both forms may be acceptable.
    Variant,
    /// Ambiguous — needs manual review.
    Ambiguous,
}

impl DiagnosticKind {
    /// Stable machine-readable code for serialization.
    pub fn as_code(&self) -> (r: &'static str)
        ensures
            r@ == match self {
                DiagnosticKind::Error => "Error"@,
                DiagnosticKind::Variant => "Variant"@,
                DiagnosticKind::Ambiguous => "Ambiguous"@,
            },
    {
        match self {
            DiagnosticKind::Error => "Error",
            DiagnosticKind::Variant => "Variant",
            DiagnosticKind::Ambiguous => "Ambiguous",
        }
    }
}

/// Category grouping for rules.
#[derive(Debug, Clone, Copy, PartialEq, Eq, Structural)]
pub enum RuleCategory {
    HrasvaDirgha,
    Chandrabindu,
    ShaShaS,
    BaVa,
    RiKri,
    Halanta,
    StructuralPattern,
    Sandhi,
    AadhiVriddhi,
    YaE,
    KshaChhya,
    GyaGyan,
    ShuddhaTable,
}

/// A single step in a derivation.
#[derive(Debug, Clone)]
pub struct Step {
    /// The rule that was applied.
    pub rule: Rule,
    /// Human-readable description of what happened.
    pub description: String,
    /// Text before this step.
    pub before: String,
    /// Text after this step.
    pub after: String,
}

impl Step {
    /// A step citing `rule`, turning `before` into `after`.
    pub fn new(rule: Rule, description: &str, before: &str, after: &str) -> (s: Step)
        ensures
            s.rule == rule,
            s.description@ == description@,
            s.before@ == before@,
            s.after@ == after@,
    {
        Step {
            rule,
            description: crate::text::owned(description),
            before: crate::text::owned(before),
            after: crate::text::owned(after),
        }
    }
}

/// The derivation state of one word.
#[derive(Debug, Clone)]
pub struct Prakriya {
    /// The input word.
    pub input: String,
    /// The corrected output word.
    pub output: String,
    /// Steps applied during derivation.
    pub steps: Vec<Step>,
    /// Whether the input was already correct.
    pub is_correct: bool,
    /// Typed diagnostic category propagated from rule metadata.
    pub category: Option<RuleCategory>,
    /// Typed diagnostic severity propagated from rule metadata.
    pub kind: DiagnosticKind,
}

/// The content of a [`Step`].
pub ghost struct StepView {
    pub rule: RuleView,
    pub description: Seq<char>,
    pub before: Seq<char>,
    pub after: Seq<char>,
}

impl View for Step {
    type V = StepView;

    open spec fn view(&self) -> StepView {
        StepView {
            rule: self.rule@,
            description: self.description@,
            before: self.before@,
            after: self.after@,
        }
    }
}

/// The contents of a sequence of steps.
pub open spec fn steps_view(steps: Seq<Step>) -> Seq<StepView> {
    steps.map_values(|s: Step| s@)
}

/// The content of a [`Prakriya`].
pub ghost struct PrakriyaView {
    pub input: Seq<char>,
    pub output: Seq<char>,
    pub steps: Seq<StepView>,
    pub is_correct: bool,
    pub category: Option<RuleCategory>,
    pub kind: DiagnosticKind,
}

impl View for Prakriya {
    type V = PrakriyaView;

    open spec fn view(&self) -> PrakriyaView {
        PrakriyaView {
            input: self.input@,
            output: self.output@,
            steps: steps_view(self.steps@),
            is_correct: self.is_correct,
            category: self.category,
            kind: self.kind,
        }
    }
}

/// What a pattern rule decides for a word: the corrected form, the cited rule
/// and the explanation.
pub ghost struct Fix {
    pub output: Seq<char>,
    pub rule: RuleView,
    pub desc: Seq<char>,
}

/// The derivation that applies `f` to `input` in one step.
pub open spec fn fix_view(input: Seq<char>, f: Fix) -> PrakriyaView {
    PrakriyaView {
        input: input,
        output: f.output,
        steps: seq![StepView { rule: f.rule, description: f.desc, before: input, after: f.output }],
        is_correct: false,
        category: None,
        kind: DiagnosticKind::Error,
    }
}

/// `r` is the result that the decision `f` calls for on `input`.
pub open spec fn realizes(r: Option<Prakriya>, input: Seq<char>, f: Option<Fix>) -> bool {
    match f {
        None => r is None,
        Some(fx) => r matches Some(p) && p@ == fix_view(input, fx),
    }
}

/// `a` when it decides a correction, else `b`.
pub open spec fn or_else(a: Option<Fix>, b: Option<Fix>) -> Option<Fix> {
    if a is Some {
        a
    } else {
        b
    }
}

/// A fix citing an orthography-standard code.
pub open spec fn vfix(output: Seq<char>, code: Seq<char>, desc: Seq<char>) -> Option<Fix> {
    Some(Fix { output, rule: RuleView::VarnaVinyasNiyam(code), desc })
}

impl Prakriya {
    /// A derivation stating that `word` is already correct.
    pub fn correct(word: &str) -> (p: Prakriya)
        ensures
            p.input@ == word@,
            p.output@ == word@,
            p.steps@.len() == 0,
            p.is_correct,
            p.category is None,
            p.kind == DiagnosticKind::Error,
    {
        Prakriya {
            input: crate::text::owned(word),
            output: crate::text::owned(word),
            steps: Vec::new(),
            is_correct: true,
            category: None,
            kind: DiagnosticKind::Error,
        }
    }

    /// A derivation correcting `input` to `output` through `steps`.
    pub fn corrected(input: &str, output: &str, steps: Vec<Step>) -> (p: Prakriya)
        ensures
            p.input@ == input@,
            p.output@ == output@,
            p.steps == steps,
            !p.is_correct,
            p.category is None,
            p.kind == DiagnosticKind::Error,
    {
        Prakriya {
            input: crate::text::owned(input),
            output: crate::text::owned(output),
            steps,
            is_correct: false,
            category: None,
            kind: DiagnosticKind::Error,
        }
    }

    /// The same derivation with typed metadata from rule dispatch attached.
    pub fn with_metadata(self, category: RuleCategory, kind: DiagnosticKind) -> (p: Prakriya)
        ensures
            p.input == self.input,
            p.output == self.output,
            p.steps == self.steps,
            p.is_correct == self.is_correct,
            p.category == Some(category),
            p.kind == kind,
    {
        Prakriya { category: Some(category), kind, ..self }
    }
}

/// A one-step correction of `input` to `output` citing `rule` and
/// explaining it with `desc`.
pub fn one_step(input: &str, output: &str, rule: Rule, desc: &str) -> (p: Prakriya)
    ensures
        p@ == fix_view(input@, Fix { output: output@, rule: rule@, desc: desc@ }),
{
    let step = Step::new(rule, desc, input, output);
    let mut steps: Vec<Step> = Vec::new();
    steps.push(step);
    let p = Prakriya::corrected(input, output, steps);
    assert(p@.steps =~= seq![StepView { rule: rule@, description: desc@, before: input@, after: output@ }]);
    p
}

/// One applicable rule for a word, with its production priority.
#[derive(Debug, Clone)]
pub struct RuleHit {
    /// Identifier of the pattern rule, or `None` for the correction table.
    pub spec_id: Option<&'static str>,
    /// Evaluation priority (lower = higher priority).
    pub priority: u16,
    /// Category of the rule.
    pub category: RuleCategory,
    /// Severity of the rule.
    pub kind: DiagnosticKind,
    /// The derivation the rule produces.
    pub prakriya: Prakriya,
}

/// The content of a [`RuleHit`].
pub ghost struct RuleHitView {
    pub spec_id: Option<Seq<char>>,
    pub priority: u16,
    pub category: RuleCategory,
    pub kind: DiagnosticKind,
    pub prakriya: PrakriyaView,
}

impl View for RuleHit {
    type V = RuleHitView;

    open spec fn view(&self) -> RuleHitView {
        RuleHitView {
            spec_id: match self.spec_id {
                Some(id) => Some(id@),
                None => None,
            },
            priority: self.priority,
            category: self.category,
            kind: self.kind,
            prakriya: self.prakriya@,
        }
    }
}

impl RuleHit {
    /// The derivation this hit produces.
    pub fn into_prakriya(self) -> (p: Prakriya)
        ensures
            p == self.prakriya,
    {
        self.prakriya
    }
}

/// Shared outward-facing explanation for rule-based analysis surfaces.
#[derive(Debug, Clone)]
pub struct Explanation {
    /// The cited rule.
    pub rule: Rule,
    /// Human-readable explanation.
    pub explanation: String,
    /// Suggested correction for this explanation, if any.
    pub correction: Option<String>,
    /// Typed rule category when known.
    pub category: Option<RuleCategory>,
}

/// The content of an [`Explanation`].
pub ghost struct ExplanationView {
    pub rule: RuleView,
    pub explanation: Seq<char>,
    pub correction: Option<Seq<char>>,
    pub category: Option<RuleCategory>,
}

impl View for Explanation {
    type V = ExplanationView;

    open spec fn view(&self) -> ExplanationView {
        ExplanationView {
            rule: self.rule@,
            explanation: self.explanation@,
            correction: match self.correction {
                Some(c) => Some(c@),
                None => None,
            },
            category: self.category,
        }
    }
}

impl Explanation {
    /// An explanation citing `rule`, with no correction and no category.
    pub fn new(rule: Rule, explanation: &str) -> (e: Explanation)
        ensures
            e.rule == rule,
            e.explanation@ == explanation@,
            e.correction is None,
            e.category is None,
    {
        Explanation {
            rule,
            explanation: crate::text::owned(explanation),
            correction: None,
            category: None,
        }
    }

    /// The same explanation with a suggested correction.
    pub fn with_correction(self, correction: &str) -> (e: Explanation)
        ensures
            e.rule == self.rule,
            e.explanation == self.explanation,
            e.correction matches Some(c) && c@ == correction@,
            e.category == self.category,
    {
        Explanation { correction: Some(crate::text::owned(correction)), ..self }
    }

    /// The same explanation with a typed category.
    pub fn with_category(self, category: RuleCategory) -> (e: Explanation)
        ensures
            e.rule == self.rule,
            e.explanation == self.explanation,
            e.correction == self.correction,
            e.category == Some(category),
    {
        Explanation { category: Some(category), ..self }
    }
}


// ----- how steps and derivations are shown -----

/// The digits, by value.
pub open spec fn digit_chars() -> Seq<char> {
    seq!['0', '1', '2', '3', '4', '5', '6', '7', '8', '9']
}

/// The decimal numeral of `n`.
pub open spec fn decimal(n: nat) -> Seq<char>
    decreases n,
{
    if n < 10 {
        seq![digit_chars()[n as int]]
    } else {
        decimal(n / 10).push(digit_chars()[(n % 10) as int])
    }
}

fn digit_char(d: usize) -> (c: char)
    requires
        d < 10,
    ensures
        c == digit_chars()[d as int],
{
    if d == 0 {
        '0'
    } else if d == 1 {
        '1'
    } else if d == 2 {
        '2'
    } else if d == 3 {
        '3'
    } else if d == 4 {
        '4'
    } else if d == 5 {
        '5'
    } else if d == 6 {
        '6'
    } else if d == 7 {
        '7'
    } else if d == 8 {
        '8'
    } else {
        '9'
    }
}

/// The decimal numeral of `n`.
pub fn decimal_text(n: usize) -> (r: String)
    ensures
        r@ == decimal(n as nat),
    decreases n,
{
    if n < 10 {
        let mut s = String::new();
        crate::text::push_char(&mut s, digit_char(n));
        assert(s@ =~= seq![digit_chars()[n as int]]);
        s
    } else {
        let mut s = decimal_text(n / 10);
        crate::text::push_char(&mut s, digit_char(n % 10));
        s
    }
}

/// How a step is shown: `[rule] before → after (description)`.
pub open spec fn step_text(s: StepView) -> Seq<char> {
    "["@ + rule_description(s.rule) + "] "@ + s.before + " → "@ + s.after + " ("@ + s.description + ")"@
}

impl Step {
    /// The text this step is shown with.
    pub fn display_text(&self) -> (r: String)
        ensures
            r@ == step_text(self@),
    {
        let a = crate::text::concat3("[", self.rule.display_text().as_str(), "] ");
        let b = crate::text::concat3(a.as_str(), self.before.as_str(), " → ");
        let c = crate::text::concat3(b.as_str(), self.after.as_str(), " (");
        crate::text::concat3(c.as_str(), self.description.as_str(), ")")
    }
}

/// The lines that show the first `n` steps, numbered from one.
pub open spec fn steps_lines(steps: Seq<StepView>, n: int) -> Seq<char>
    decreases n,
{
    if n <= 0 {
        seq![]
    } else {
        steps_lines(steps, n - 1) + "  Step "@ + decimal(n as nat) + ": "@ + step_text(steps[n - 1]) + "\n"@
    }
}

/// How a derivation is shown: a correct word on one line; otherwise the
/// correction, then one numbered line per step.
pub open spec fn prakriya_text(p: PrakriyaView) -> Seq<char> {
    if p.is_correct {
        "✓ "@ + p.input + " (correct)"@
    } else {
        "✗ "@ + p.input + " → "@ + p.output + "\n"@ + steps_lines(p.steps, p.steps.len() as int)
    }
}

impl Prakriya {
    /// The text this derivation is shown with.
    pub fn display_text(&self) -> (r: String)
        ensures
            r@ == prakriya_text(self@),
    {
        if self.is_correct {
            return crate::text::concat3("✓ ", self.input.as_str(), " (correct)");
        }
        let a = crate::text::concat3("✗ ", self.input.as_str(), " → ");
        let mut out = crate::text::concat3(a.as_str(), self.output.as_str(), "\n");
        let ghost head = out@;
        let ghost sv = steps_view(self.steps@);
        let mut i: usize = 0;
        while i < self.steps.len()
            invariant
                i <= self.steps.len(),
                sv == steps_view(self.steps@),
                out@ == head + steps_lines(sv, i as int),
            decreases self.steps.len() - i,
        {
            let step = &self.steps[i];
            assert(sv[i as int] == step@);
            let num = decimal_text(i + 1);
            let line = crate::text::concat3("  Step ", num.as_str(), ": ");
            let line = crate::text::concat3(line.as_str(), step.display_text().as_str(), "\n");
            out = crate::text::concat(out.as_str(), line.as_str());
            i = i + 1;
        }
        out
    }
}

} // verus!
