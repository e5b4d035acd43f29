use varnavinyas::affix::tokenize_analyzed;
use varnavinyas::arbitration::{is_noop_heuristic_diagnostic, resolve_diagnostic_overlaps};
use varnavinyas::checker::{
    check_text, check_text_with_options, check_word, is_editorial_variant, CheckOptions,
    OrthographyMode, PunctuationFinding, PunctuationMode,
};
use varnavinyas::diagnostic::{Diagnostic, DiagnosticCategory};
use varnavinyas::lexicon::{Lexicon, Origin};
use varnavinyas::rule::{DiagnosticKind, Rule};
use varnavinyas::tiryak::{
    analyze_determiner_context, analyze_joined_token, analyze_split_pair, TiryakSubrule,
};

fn diagnostic(span: (usize, usize), rule: Rule, kind: DiagnosticKind, incorrect: &str) -> Diagnostic {
    Diagnostic {
        span,
        incorrect: incorrect.to_string(),
        correction: "y".to_string(),
        rule,
        explanation: "x".to_string(),
        category: DiagnosticCategory::ShuddhaTable,
        kind,
        confidence_permille: 1000,
        alternate_reasons: Vec::new(),
    }
}

fn tiryak_lexicon() -> Lexicon {
    let mut lex = Lexicon::new();
    for w in ["भएको", "गर्नु", "यसले", "प्रसारण", "म", "ले"] {
        lex.add_word(w);
    }
    for c in ["ले", "मा", "लाई", "का", "को", "की"] {
        lex.case_markers.push(c.to_string());
    }
    lex
}

#[test]
fn filters_noop_grammar_variant() {
    let d = Diagnostic {
        span: (0, 6),
        incorrect: "सुनारलाई".to_string(),
        correction: "सुनारलाई".to_string(),
        rule: Rule::Vyakaran("morph-ambiguity"),
        explanation: "x".to_string(),
        category: DiagnosticCategory::ShuddhaTable,
        kind: DiagnosticKind::Variant,
        confidence_permille: 550,
        alternate_reasons: Vec::new(),
    };
    assert!(is_noop_heuristic_diagnostic(&d));
}

#[test]
fn keeps_non_noop_diagnostic() {
    let d = Diagnostic {
        span: (0, 3),
        incorrect: "हरु".to_string(),
        correction: "हरू".to_string(),
        rule: Rule::VarnaVinyasNiyam("3(ई)"),
        explanation: "x".to_string(),
        category: DiagnosticCategory::HrasvaDirgha,
        kind: DiagnosticKind::Error,
        confidence_permille: 1000,
        alternate_reasons: Vec::new(),
    };
    assert!(!is_noop_heuristic_diagnostic(&d));
}

#[test]
fn removes_diagnostics_nested_inside_padayog_span() {
    let mut diagnostics = vec![
        diagnostic((0, 12), Rule::VarnaVinyasNiyam("3(घ)"), DiagnosticKind::Error, "padayog"),
        diagnostic((3, 9), Rule::ShuddhaAshuddha("Section 4"), DiagnosticKind::Error, "nested"),
    ];
    resolve_diagnostic_overlaps(&mut diagnostics);
    assert_eq!(diagnostics.len(), 1);
    assert_eq!(diagnostics[0].incorrect, "padayog");
}

#[test]
fn same_span_padayog_error_suppresses_non_padayog_candidate() {
    let mut diagnostics = vec![
        diagnostic((0, 6), Rule::VarnaVinyasNiyam("3(घ)"), DiagnosticKind::Error, "padayog"),
        diagnostic((0, 6), Rule::ShuddhaAshuddha("Section 4"), DiagnosticKind::Error, "same-span"),
    ];
    resolve_diagnostic_overlaps(&mut diagnostics);
    assert_eq!(diagnostics.len(), 1);
    assert_eq!(diagnostics[0].incorrect, "padayog");
}

#[test]
fn ambiguous_padayog_candidate_does_not_suppress_same_span_error() {
    let mut diagnostics = vec![
        diagnostic((0, 6), Rule::VarnaVinyasNiyam("3(घ)"), DiagnosticKind::Ambiguous, "padayog"),
        diagnostic((0, 6), Rule::ShuddhaAshuddha("Section 4"), DiagnosticKind::Error, "same-span"),
    ];
    resolve_diagnostic_overlaps(&mut diagnostics);
    assert_eq!(diagnostics.len(), 2);
}

#[test]
fn joined_participle_tiryak_correction_applies() {
    let lex = tiryak_lexicon();
    let token = tokenize_analyzed("भएकोमा", &lex).into_iter().next().unwrap();
    let analysis = analyze_joined_token("भएकोमा", &token, &lex).unwrap();
    assert_eq!(analysis.subrule, TiryakSubrule::Ka);
    assert_eq!(analysis.correction, "भएकामा");
}

#[test]
fn infinitive_tiryak_correction_applies() {
    let lex = tiryak_lexicon();
    let token = tokenize_analyzed("गर्नुले", &lex).into_iter().next().unwrap();
    let analysis = analyze_joined_token("गर्नुले", &token, &lex).unwrap();
    assert_eq!(analysis.subrule, TiryakSubrule::Ka);
    assert_eq!(analysis.correction, "गर्नाले");
}

#[test]
fn direct_pronoun_case_tiryak_correction_applies() {
    let lex = tiryak_lexicon();
    let token = tokenize_analyzed("योले", &lex).into_iter().next().unwrap();
    let analysis = analyze_joined_token("योले", &token, &lex).unwrap();
    assert_eq!(analysis.subrule, TiryakSubrule::Kha);
    assert_eq!(analysis.correction, "यसले");
}

#[test]
fn expanded_pronoun_surface_correction_applies() {
    let lex = tiryak_lexicon();
    let token = tokenize_analyzed("मले", &lex).into_iter().next().unwrap();
    let analysis = analyze_joined_token("मले", &token, &lex).unwrap();
    assert_eq!(analysis.subrule, TiryakSubrule::Kha);
    assert_eq!(analysis.correction, "मैले");
}

#[test]
fn split_pronoun_surface_correction_applies() {
    let lex = tiryak_lexicon();
    let text = "म ले";
    let tokens = tokenize_analyzed(text, &lex);
    let analysis = analyze_split_pair(text, &tokens[0], &tokens[1], &lex).unwrap();
    assert_eq!(analysis.subrule, TiryakSubrule::Kha);
    assert_eq!(analysis.correction, "मैले");
}

#[test]
fn determiner_oblique_correction_requires_nounish_inflected_head() {
    let lex = tiryak_lexicon();
    let text = "यो प्रसारणका";
    let tokens = tokenize_analyzed(text, &lex);
    let analysis = analyze_determiner_context(text, &tokens[0], &tokens[1], &lex).unwrap();
    assert_eq!(analysis.subrule, TiryakSubrule::Ga);
    assert_eq!(analysis.incorrect, "यो");
    assert_eq!(analysis.correction, "यस");
}

#[test]
fn bare_next_word_does_not_trigger_subrule_ga() {
    let lex = tiryak_lexicon();
    let text = "यो प्रसारण";
    let tokens = tokenize_analyzed(text, &lex);
    assert!(analyze_determiner_context(text, &tokens[0], &tokens[1], &lex).is_none());
}

#[test]
fn check_text_with_default_options_matches_check_text() {
    let lex = Lexicon::new();
    let text = "राजनैतिक दल र अत्याधिक खर्च।";
    let a = check_text(text, &lex, &vec![]);
    let b = check_text_with_options(text, &lex, CheckOptions::default(), &vec![]);
    assert_eq!(a.len(), b.len());
    for (x, y) in a.iter().zip(b.iter()) {
        assert_eq!(x.span, y.span);
        assert_eq!(x.correction, y.correction);
    }
}

#[test]
fn table_misspellings_in_text_are_flagged_in_order() {
    let lex = Lexicon::new();
    let text = "राजनैतिक दल र अत्याधिक खर्च।";
    let diags = check_text(text, &lex, &vec![]);
    let found: Vec<(&str, &str)> =
        diags.iter().map(|d| (d.incorrect.as_str(), d.correction.as_str())).collect();
    assert_eq!(found, vec![("राजनैतिक", "राजनीतिक"), ("अत्याधिक", "अत्यधिक")]);
    assert_eq!(&text[diags[1].span.0..diags[1].span.1], "अत्याधिक");
}

#[test]
fn suffix_preservation_in_correction() {
    let mut lex = Lexicon::new();
    lex.case_markers.push("मा".to_string());
    let text = "राजनैतिकमा";
    let diags = check_text(text, &lex, &vec![]);
    assert_eq!(diags.len(), 1);
    assert_eq!(diags[0].incorrect, "राजनैतिकमा");
    assert_eq!(diags[0].correction, "राजनीतिकमा");
    assert_eq!(diags[0].span, (0, text.len()));
}

#[test]
fn padayog_phrase_join_detected() {
    let lex = Lexicon::new();
    let diags = check_text("राम ले भात खायो", &lex, &vec![]);
    let d = diags
        .iter()
        .find(|d| d.rule == Rule::VarnaVinyasNiyam("3(घ)"))
        .expect("phrase rewrite");
    assert_eq!(d.incorrect, "राम ले");
    assert_eq!(d.correction, "रामले");
    assert_eq!(d.confidence_permille, 950);
    assert!(d.explanation.starts_with("पदयोग/पदवियोग [3(घ)-पदयोग-३ | "));
}

#[test]
fn padayog_phrase_needs_whole_words() {
    let lex = Lexicon::new();
    let diags = check_text("बराम ले", &lex, &vec![]);
    assert!(diags.iter().all(|d| d.rule != Rule::VarnaVinyasNiyam("3(घ)")));
}

#[test]
fn punctuation_findings_follow_mode() {
    let lex = Lexicon::new();
    let text = "घर .";
    let finding = PunctuationFinding {
        span: (7, 8),
        found: ".".to_string(),
        expected: "।".to_string(),
        rule: "पूर्णविराम".to_string(),
    };
    let strict = check_text(text, &lex, &vec![finding.clone()]);
    assert_eq!(strict.len(), 1);
    assert_eq!(strict[0].category, DiagnosticCategory::Punctuation);
    assert_eq!(strict[0].kind, DiagnosticKind::Error);
    assert_eq!(strict[0].confidence_permille, 1000);
    assert_eq!(strict[0].rule, Rule::ChihnaNiyam("Section 5"));
    let options = CheckOptions {
        grammar: false,
        punctuation_mode: PunctuationMode::NormalizedEditorial,
        orthography_mode: OrthographyMode::AcademyStrict,
        include_noop_heuristics: false,
    };
    let editorial = check_text_with_options(text, &lex, options, &vec![finding]);
    assert_eq!(editorial[0].kind, DiagnosticKind::Variant);
    assert_eq!(editorial[0].confidence_permille, 720);
}

#[test]
fn check_word_applies_tiryak_to_joined_eko_plus_case_form() {
    let lex = tiryak_lexicon();
    let d = check_word("भएकोमा", &lex).expect("tiryak");
    assert_eq!(d.correction, "भएकामा");
    assert_eq!(d.rule, Rule::Vyakaran("PS-Saisanik-7(क)-तिर्यक्"));
    assert_eq!(d.confidence_permille, 940);
}

#[test]
fn check_word_carries_stem_correction_over_suffix() {
    let mut lex = Lexicon::new();
    lex.case_markers.push("को".to_string());
    let d = check_word("अत्याधिकको", &lex).expect("stem correction");
    assert_eq!(d.incorrect, "अत्याधिकको");
    assert_eq!(d.correction, "अत्यधिकको");
    assert_eq!(d.span, (0, "अत्याधिकको".len()));
    assert!(check_word("भाको", &lex).is_none());
}

#[test]
fn tiryak_split_pronoun_in_text() {
    let lex = tiryak_lexicon();
    let diags = check_text("म ले भात खाएँ", &lex, &vec![]);
    let d = diags.iter().find(|d| d.correction == "मैले").expect("split pronoun");
    assert_eq!(d.incorrect, "म ले");
    assert_eq!(d.span, (0, "म ले".len()));
}

fn editorial_lexicon() -> Lexicon {
    let mut lex = Lexicon::new();
    for w in ["संघ", "संचार", "संकेत", "कांग्रेस"] {
        lex.add_origin(w, Origin::Tatsam);
    }
    lex
}

fn full_stop_finding() -> PunctuationFinding {
    PunctuationFinding {
        span: (87, 88),
        found: ".".to_string(),
        expected: "।".to_string(),
        rule: "पूर्णविराम".to_string(),
    }
}

#[test]
fn common_editorial_mode_downgrades_reviewed_orthographic_variants() {
    let lex = editorial_lexicon();
    let diags = check_text_with_options(
        "संघीय संघ संचार संकेत संसद नेपाल . नेपाली कांग्रेस",
        &lex,
        CheckOptions {
            orthography_mode: OrthographyMode::CommonEditorial,
            ..Default::default()
        },
        &vec![full_stop_finding()],
    );

    for incorrect in ["संघीय", "संघ", "संचार", "संकेत", "संसद", "कांग्रेस"] {
        let diag = diags
            .iter()
            .find(|d| d.incorrect == incorrect)
            .unwrap_or_else(|| panic!("Expected diagnostic for {incorrect}, got: {diags:?}"));
        assert!(
            matches!(diag.kind, DiagnosticKind::Variant),
            "Expected {incorrect} to be a reviewed variant, got: {diag:?}"
        );
    }

    let punctuation = diags
        .iter()
        .find(|d| d.incorrect == ".")
        .unwrap_or_else(|| panic!("Expected punctuation diagnostic, got: {diags:?}"));
    assert!(
        matches!(punctuation.kind, DiagnosticKind::Error),
        "Orthography mode should not relax punctuation, got: {punctuation:?}"
    );
}

#[test]
fn academy_strict_mode_keeps_reviewed_forms_as_errors() {
    let lex = editorial_lexicon();
    let diags = check_text("संघीय संघ संचार संकेत संसद नेपाल . नेपाली कांग्रेस", &lex, &vec![full_stop_finding()]);
    for (incorrect, correction) in [
        ("संघीय", "सङ्घीय"),
        ("संघ", "सङ्घ"),
        ("संचार", "सञ्चार"),
        ("संकेत", "सङ्केत"),
        ("संसद", "संसद्"),
        ("कांग्रेस", "काङ्ग्रेस"),
    ] {
        let diag = diags.iter().find(|d| d.incorrect == incorrect).unwrap();
        assert_eq!(diag.correction, correction);
        assert_eq!(diag.kind, DiagnosticKind::Error);
    }
}

#[test]
fn editorial_variants_are_the_reviewed_pairs_and_panchham_spellings() {
    assert!(is_editorial_variant("संघीय", "सङ्घीय"));
    assert!(is_editorial_variant("संसद", "संसद्"));
    assert!(is_editorial_variant("कांग्रेस", "काङ्ग्रेस"));
    assert!(is_editorial_variant("संकेत", "सङ्केत"));
    assert!(!is_editorial_variant("परिषद", "परिषद्"));
    assert!(!is_editorial_variant("संसार", "संसार"));
    assert!(!is_editorial_variant("राजनैतिक", "राजनीतिक"));
}

#[test]
fn default_options_are_strict_and_plain() {
    let o = CheckOptions::default();
    assert!(!o.grammar);
    assert_eq!(o.punctuation_mode, PunctuationMode::Strict);
    assert_eq!(o.orthography_mode, OrthographyMode::AcademyStrict);
    assert!(!o.include_noop_heuristics);
}

#[test]
fn check_word_reports_analysed_stem_on_whole_word() {
    let lex = Lexicon::new();
    assert!(check_word("अत्याधिकको", &lex).is_none());
    let mut lex = Lexicon::new();
    lex.add_analysis("अत्याधिकको", "अत्याधिक");
    let d = check_word("अत्याधिकको", &lex).expect("analysed stem is in the table");
    assert_eq!(d.incorrect, "अत्याधिकको");
    assert_eq!(d.correction, "अत्यधिकको");
    assert_eq!(d.span, (0, "अत्याधिकको".len()));
}

#[test]
fn check_word_trusts_a_clean_analysed_stem() {
    let mut lex = Lexicon::new();
    lex.add_analysis("रामको", "राम");
    assert!(check_word("रामको", &lex).is_none());
}

#[test]
fn analyser_accepts_forms_for_candidates() {
    let mut lex = Lexicon::new();
    assert!(!lex.is_accepted("घरमा"));
    lex.add_analysis("घरमा", "घर");
    assert!(lex.is_accepted("घरमा"));
    assert!(!lex.is_supported("घरमा"));
    assert_eq!(lex.best_analysis("घरमा").as_deref(), Some("घर"));
}
