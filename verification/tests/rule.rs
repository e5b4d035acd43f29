use varnavinyas::diagnostic::{Diagnostic, DiagnosticCategory};
use varnavinyas::rule::{decimal_text, DiagnosticKind, Explanation, Prakriya, Rule, RuleCategory, Step};

#[test]
fn active_section_codes_map_to_expected_descriptions() {
    let cases = [
        ("3(क)(अ)-1", "ह्रस्व/दीर्घ स्वर नियम"),
        ("3(ख)(आ)-1", "चन्द्रबिन्दु/शिरबिन्दु नियम"),
        ("3(ग)(अ)-1", "श/ष/स प्रयोग नियम"),
        ("3(ग)(आ)-1", "ब/व प्रयोग नियम"),
        ("3(ग)(ई)-ऋ-1", "ऋ/कृ प्रयोग नियम"),
        ("3(घ)", "पदयोग/पदवियोग नियम"),
        ("3(ङ)-पदान्त", "हलन्त नियम"),
        ("3(छ)", "य/ए भेद नियम"),
        ("3(छ)-क्ष", "क्ष/छ भेद नियम"),
        ("3(छ)-ज्ञ", "ज्ञ/ग्य भेद नियम"),
        ("3(ई)", "शुद्ध-अशुद्ध शब्द सूची"),
    ];

    for (code, expected) in cases {
        let rule = Rule::VarnaVinyasNiyam(code);
        assert_eq!(rule.description(), expected, "wrong description for {code}");
        assert_eq!(rule.display_text(), expected, "wrong display text for {code}");
    }
}

#[test]
fn vyakaran_codes_map_to_expected_descriptions() {
    let cases = [
        ("section4-phrase-style", "शैलीगत/प्रयोगगत सुझाव"),
        ("section4-phrase-style-inferred-ko-ka", "शैलीगत/प्रयोगगत सुझाव (अनुमित)"),
        ("PS-Saisanik-7(क)-तिर्यक्", "शैक्षणिक व्याकरण ७(क) — तिर्यक् रूपको प्रयोग"),
        ("PS-Saisanik-7(ख)-तिर्यक्", "शैक्षणिक व्याकरण ७(ख) — तिर्यक् रूपको प्रयोग"),
        ("PS-Saisanik-7(ग)-तिर्यक्", "शैक्षणिक व्याकरण ७(ग) — तिर्यक् रूपको प्रयोग"),
    ];

    for (code, expected) in cases {
        let rule = Rule::Vyakaran(code);
        assert_eq!(rule.description(), expected, "wrong description for {code}");
        assert_eq!(rule.display_text(), expected, "wrong display text for {code}");
    }
}

#[test]
fn rule_code_and_source_names() {
    assert_eq!(Rule::VarnaVinyasNiyam("3(क)").code(), "3(क)");
    assert_eq!(Rule::ChihnaNiyam("Section 5").source_name(), "चिह्न नियम");
    assert_eq!(Rule::ShuddhaAshuddha("x").source_name(), "शुद्ध-अशुद्ध तालिका");
    assert_eq!(Rule::ShuddhaAshuddha("x").description(), "शुद्ध-अशुद्ध शब्द सूची");
    assert_eq!(Rule::Vyakaran("other").description(), "व्याकरण नियम");
    assert_eq!(Rule::VarnaVinyasNiyam("9").description(), "वर्णविन्यास नियम");
    assert!(Rule::VarnaVinyasNiyam("3(क)").same_as(&Rule::VarnaVinyasNiyam("3(क)")));
    assert!(!Rule::VarnaVinyasNiyam("3(क)").same_as(&Rule::Vyakaran("3(क)")));
}

#[test]
fn kind_codes() {
    assert_eq!(DiagnosticKind::Error.as_code(), "Error");
    assert_eq!(DiagnosticKind::Variant.as_code(), "Variant");
    assert_eq!(DiagnosticKind::Ambiguous.as_code(), "Ambiguous");
}

#[test]
fn prakriya_constructors() {
    let c = Prakriya::correct("घर");
    assert!(c.is_correct);
    assert_eq!(c.input, "घर");
    assert_eq!(c.output, "घर");
    let p = Prakriya::corrected("क", "ख", vec![Step::new(Rule::VarnaVinyasNiyam("3(क)"), "d", "क", "ख")])
        .with_metadata(RuleCategory::HrasvaDirgha, DiagnosticKind::Variant);
    assert!(!p.is_correct);
    assert_eq!(p.output, "ख");
    assert_eq!(p.category, Some(RuleCategory::HrasvaDirgha));
    assert_eq!(p.kind, DiagnosticKind::Variant);
    assert_eq!(p.steps[0].before, "क");
}

#[test]
fn explanation_builders() {
    let e = Explanation::new(Rule::VarnaVinyasNiyam("3(ख)"), "x")
        .with_correction("y")
        .with_category(RuleCategory::Chandrabindu);
    assert_eq!(e.explanation, "x");
    assert_eq!(e.correction.as_deref(), Some("y"));
    assert_eq!(e.category, Some(RuleCategory::Chandrabindu));
}

#[test]
fn decimal_text_writes_numerals() {
    assert_eq!(decimal_text(0), "0");
    assert_eq!(decimal_text(7), "7");
    assert_eq!(decimal_text(10), "10");
    assert_eq!(decimal_text(1234), "1234");
}

#[test]
fn step_and_derivation_display() {
    let step = Step::new(Rule::ShuddhaAshuddha("table"), "तालिका", "क", "ख");
    assert_eq!(step.display_text(), "[शुद्ध-अशुद्ध शब्द सूची] क → ख (तालिका)");
    let p = Prakriya::corrected("क", "ख", vec![step]);
    assert_eq!(p.display_text(), "✗ क → ख\n  Step 1: [शुद्ध-अशुद्ध शब्द सूची] क → ख (तालिका)\n");
    assert_eq!(Prakriya::correct("क").display_text(), "✓ क (correct)");
}

#[test]
fn diagnostic_display() {
    let d = Diagnostic {
        span: (0, 3),
        incorrect: "हरु".to_string(),
        correction: "हरू".to_string(),
        rule: Rule::VarnaVinyasNiyam("3(ई)"),
        explanation: "दीर्घ".to_string(),
        category: DiagnosticCategory::HrasvaDirgha,
        kind: DiagnosticKind::Error,
        confidence_permille: 1000,
        alternate_reasons: Vec::new(),
    };
    assert_eq!(d.display_text(), "[ह्रस्व/दीर्घ] हरु → हरू (दीर्घ)");
}
