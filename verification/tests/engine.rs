use varnavinyas::engine::collect_rule_hits;
use varnavinyas::lexicon::{Lexicon, Origin};
use varnavinyas::registry::pattern_rules;
use varnavinyas::rule::{DiagnosticKind, Rule, RuleCategory};

#[test]
fn production_priority_structural_beats_orthographic() {
    let lex = Lexicon::new();
    let p = collect_rule_hits("श्रृङ्गार", &lex)
        .into_iter()
        .next()
        .expect("should fire a pattern rule")
        .into_prakriya();
    assert_eq!(p.output, "शृङ्गार");
    assert!(
        matches!(p.steps[0].rule, Rule::ShuddhaAshuddha(_)),
        "Expected structural rule citation, got {:?}",
        p.steps[0].rule,
    );
}

#[test]
fn collect_rule_hits_keeps_derive_winner_stable() {
    let lex = Lexicon::new();
    let hits = collect_rule_hits("बिद्वान", &lex);
    assert!(!hits.is_empty(), "Expected at least one hit for बिद्वान, got: {hits:?}");
    assert_eq!(
        varnavinyas::engine::derive("बिद्वान", &lex).output,
        hits[0].prakriya.output,
        "derive() should still pick the top-priority hit"
    );
    assert_eq!(
        hits[0].prakriya.output, "विद्वान्",
        "Authoritative correction-table winner should remain stable"
    );
}

#[test]
fn collect_rule_hits_deduplicates_equivalent_hits() {
    let mut lex = Lexicon::new();
    lex.add_word("नेपाली");
    let hits = collect_rule_hits("नेपालि", &lex);
    assert_eq!(
        hits.len(),
        1,
        "Equivalent duplicate hits should be collapsed for नेपालि, got: {hits:?}"
    );
    assert_eq!(hits[0].prakriya.output, "नेपाली");
}

#[test]
fn pattern_rules_sorted_by_priority() {
    let rules = pattern_rules();
    for window in rules.windows(2) {
        assert!(
            window[0].spec.priority <= window[1].spec.priority,
            "Rules out of order: {} (priority {}) before {} (priority {})",
            window[0].spec.id,
            window[0].spec.priority,
            window[1].spec.id,
            window[1].spec.priority,
        );
    }
}

#[test]
fn pattern_rules_have_unique_ids() {
    let rules = pattern_rules();
    for (i, a) in rules.iter().enumerate() {
        for b in rules.iter().skip(i + 1) {
            assert_ne!(a.spec.id, b.spec.id, "Duplicate rule id: {}", a.spec.id,);
        }
    }
}

#[test]
fn registry_holds_the_implemented_rules_in_order() {
    let ids: Vec<&str> = pattern_rules().iter().map(|r| r.spec.id).collect();
    assert_eq!(
        ids,
        vec![
            "struct-shri",
            "struct-redundant-suffix",
            "struct-panchham",
            "hd-suffix-nu",
            "hd-suffix-eli",
            "hd-suffix-preserves",
            "hd-tadbhav",
            "hd-dirgha-endings",
            "hd-kinship",
            "hd-kosha-backed",
            "ortho-chandrabindu",
            "ortho-sibilant",
            "ortho-ba-va",
            "ortho-ri-kri",
            "ortho-halanta",
            "ortho-ya-e",
            "ortho-ksha-chhya",
            "ortho-gya-gyan",
        ]
    );
}

#[test]
fn table_hit_comes_first_with_table_metadata() {
    let lex = Lexicon::new();
    let hits = collect_rule_hits("अत्याधिक", &lex);
    assert_eq!(hits[0].priority, 0);
    assert_eq!(hits[0].spec_id, None);
    assert_eq!(hits[0].category, RuleCategory::ShuddhaTable);
    assert_eq!(hits[0].prakriya.output, "अत्यधिक");
    assert_eq!(hits[0].prakriya.category, Some(RuleCategory::ShuddhaTable));
    assert!(!hits[0].prakriya.is_correct);
}

#[test]
fn derive_uses_table_correction() {
    let lex = Lexicon::new();
    let p = varnavinyas::engine::derive("धैर्यता", &lex);
    assert_eq!(p.output, "धीरता");
}

#[test]
fn word_without_hits_is_correct() {
    let lex = Lexicon::new();
    let p = varnavinyas::engine::derive("घर", &lex);
    assert!(p.is_correct);
    assert_eq!(p.output, "घर");
    assert!(p.steps.is_empty());
    assert!(collect_rule_hits("घर", &lex).is_empty());
    assert!(collect_rule_hits("", &lex).is_empty());
    assert!(varnavinyas::engine::derive("", &lex).is_correct);
}

#[test]
fn hits_are_sorted_and_carry_rule_metadata() {
    let mut lex = Lexicon::new();
    lex.add_origin("रजिष्टर", Origin::Aagantuk);
    lex.add_word("रजिस्टर");
    let hits = collect_rule_hits("रजिष्टर", &lex);
    assert!(!hits.is_empty());
    for w in hits.windows(2) {
        assert!(w[0].priority <= w[1].priority);
    }
    let sib = hits.iter().find(|h| h.spec_id == Some("ortho-sibilant")).expect("sibilant hit");
    assert_eq!(sib.priority, 310);
    assert_eq!(sib.kind, DiagnosticKind::Error);
    assert_eq!(sib.prakriya.output, "रजिस्टर");
    assert_eq!(sib.prakriya.kind, DiagnosticKind::Error);
}

#[test]
fn every_hit_records_one_step_on_the_word() {
    let mut lex = Lexicon::new();
    lex.add_origin("संकेत", Origin::Tatsam);
    for w in ["संघीय", "संकेत", "श्रृङ्गार", "भनि", "अत्याधिक"] {
        for h in collect_rule_hits(w, &lex) {
            assert_eq!(h.prakriya.steps.len(), 1);
            assert_eq!(h.prakriya.input, w);
            assert_eq!(h.prakriya.steps[0].before, w);
        }
    }
    assert!(!collect_rule_hits("संघीय", &lex).is_empty());
}
