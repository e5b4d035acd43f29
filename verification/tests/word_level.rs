use varnavinyas::diagnostic::{diagnostic_reason_category, DiagnosticCategory};
use varnavinyas::lexicon::Lexicon;
use varnavinyas::rule::{DiagnosticKind, Prakriya, Rule, RuleCategory, RuleHit, Step};
use varnavinyas::word_level::{
    alternate_reasons_from_hits, check_word_impl, has_known_compound_split,
    has_known_infinitive_candidate, has_supported_productive_verb_form, is_numeric_token,
    should_offer_nearby_suggestion,
};

#[test]
fn builds_alternate_reasons_from_secondary_hits() {
    let hits = vec![
        RuleHit {
            spec_id: Some("primary"),
            priority: 10,
            category: RuleCategory::HrasvaDirgha,
            kind: DiagnosticKind::Error,
            prakriya: Prakriya::corrected(
                "सूमार्ग",
                "सुमार्ग",
                vec![Step::new(
                    Rule::VarnaVinyasNiyam("3(क)(अ)-1"),
                    "उपसर्गबाट बनेका शब्दहरू ह्रस्व हुन्छन्",
                    "सूमार्ग",
                    "सुमार्ग",
                )],
            )
            .with_metadata(RuleCategory::HrasvaDirgha, DiagnosticKind::Error),
        },
        RuleHit {
            spec_id: Some("secondary"),
            priority: 20,
            category: RuleCategory::ShaShaS,
            kind: DiagnosticKind::Error,
            prakriya: Prakriya::corrected(
                "सूमार्ग",
                "शुमार्ग",
                vec![Step::new(
                    Rule::VarnaVinyasNiyam("3(ग)(अ)-1"),
                    "तालव्य श को प्रयोग",
                    "सूमार्ग",
                    "शुमार्ग",
                )],
            )
            .with_metadata(RuleCategory::ShaShaS, DiagnosticKind::Error),
        },
    ];

    let reasons = alternate_reasons_from_hits(&hits);

    assert_eq!(reasons.len(), 1);
    assert_eq!(reasons[0].rule, Rule::VarnaVinyasNiyam("3(ग)(अ)-1"));
    assert_eq!(reasons[0].correction.as_deref(), Some("शुमार्ग"));
    assert_eq!(diagnostic_reason_category(&reasons[0]), DiagnosticCategory::ShaShaS);
}

#[test]
fn repeated_secondary_reasons_are_kept_once() {
    let step = || Step::new(Rule::VarnaVinyasNiyam("3(ख)"), "x", "a", "b");
    let hit = |p: u16| RuleHit {
        spec_id: None,
        priority: p,
        category: RuleCategory::Chandrabindu,
        kind: DiagnosticKind::Error,
        prakriya: Prakriya::corrected("a", "b", vec![step()]),
    };
    let reasons = alternate_reasons_from_hits(&vec![hit(1), hit(2), hit(3)]);
    assert_eq!(reasons.len(), 1);
    assert!(alternate_reasons_from_hits(&vec![]).is_empty());
}

#[test]
fn rule_hit_becomes_full_diagnostic() {
    let lex = Lexicon::new();
    let d = check_word_impl("अत्याधिक", &lex).expect("table word is flagged");
    assert_eq!(d.span, (0, "अत्याधिक".len()));
    assert_eq!(d.incorrect, "अत्याधिक");
    assert_eq!(d.correction, "अत्यधिक");
    assert_eq!(d.rule, Rule::ShuddhaAshuddha("Section 4"));
    assert_eq!(d.category, DiagnosticCategory::ShuddhaTable);
    assert_eq!(d.kind, DiagnosticKind::Error);
    assert_eq!(d.confidence_permille, 1000);
}

#[test]
fn numbers_are_not_flagged() {
    let mut lex = Lexicon::new();
    lex.add_word("१२३४");
    assert!(is_numeric_token("२०८१"));
    assert!(is_numeric_token("12,500.50"));
    assert!(!is_numeric_token("-/"));
    assert!(!is_numeric_token("१२क"));
    assert!(check_word_impl("२०८१", &lex).is_none());
}

#[test]
fn nearby_suggestion_is_ambiguous() {
    let mut lex = Lexicon::new();
    lex.add_word("किताब");
    let d = check_word_impl("कितब", &lex).expect("nearby form offered");
    assert_eq!(d.correction, "किताब");
    assert_eq!(d.kind, DiagnosticKind::Ambiguous);
    assert_eq!(d.confidence_permille, 720);
    assert_eq!(d.explanation, "शब्द शब्दकोशमा भेटिएन; सम्भावित वर्तनी त्रुटि");
    assert!(check_word_impl("किताब", &lex).is_none());
    assert!(check_word_impl("पुस्तक", &lex).is_none());
    assert!(check_word_impl("", &lex).is_none());
}

#[test]
fn nearby_suggestion_keeps_first_and_last_char() {
    assert!(should_offer_nearby_suggestion("कितब", "किताब"));
    assert!(!should_offer_nearby_suggestion("कितब", "जितब"));
    assert!(!should_offer_nearby_suggestion("", "क"));
}

#[test]
fn compounds_and_productive_forms_are_accepted() {
    let mut lex = Lexicon::new();
    lex.add_word("घर");
    lex.add_word("बार");
    lex.add_word("गर्नु");
    lex.add_word("खानु");
    assert!(has_known_compound_split("घरबार", &lex));
    assert!(!has_known_compound_split("घरब", &lex));
    assert!(has_known_infinitive_candidate("गर्", &lex));
    assert!(has_known_infinitive_candidate("खा", &lex));
    assert!(has_supported_productive_verb_form("गर्दै", &lex));
    assert!(!has_supported_productive_verb_form("बस्दै", &lex));
    assert!(check_word_impl("घरबार", &lex).is_none());
}
