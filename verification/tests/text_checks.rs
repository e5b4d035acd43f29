use varnavinyas::checker::{check_text, check_word};
use varnavinyas::diagnostic::{Diagnostic, DiagnosticCategory};
use varnavinyas::lexicon::{Lexicon, Origin};
use varnavinyas::rule::DiagnosticKind;

fn lex_of(words: &[&str]) -> Lexicon {
    let mut lex = Lexicon::new();
    for w in words {
        lex.add_word(w);
    }
    lex
}

fn with_case_markers(mut lex: Lexicon) -> Lexicon {
    for c in ["ले", "मा", "लाई", "का", "को", "की", "बाट"] {
        lex.case_markers.push(c.to_string());
    }
    lex
}

fn run(text: &str, lex: &Lexicon) -> Vec<Diagnostic> {
    check_text(text, lex, &vec![])
}

fn has(diags: &[Diagnostic], incorrect: &str, correction: &str) -> bool {
    diags.iter().any(|d| d.incorrect == incorrect && d.correction == correction)
}

#[test]
fn unknown_simple_word_remains_unflagged() {
    assert!(check_word("झ्क्ष्ट्र्व्ङ", &Lexicon::new()).is_none());
}

#[test]
fn numeric_tokens_do_not_trigger_spelling_suggestions() {
    let lex = lex_of(&["२०८२", "७३"]);
    for word in ["२०८३", "२००४", "72", "७२%", "२०८३-०८-१४"] {
        let diag = check_word(word, &lex);
        assert!(diag.is_none(), "{word}: {diag:?}");
    }
}

#[test]
fn abbreviation_number_marker_does_not_trigger_spelling_suggestion() {
    let diag = check_word("नं", &lex_of(&["न"]));
    assert!(diag.is_none(), "{diag:?}");
}

#[test]
fn text_with_devanagari_numbers_remains_unflagged() {
    let diags = run("बैठक २०८३-०८-१४ मा ७२% उपस्थितिसहित सम्पन्न भयो।", &Lexicon::new());
    assert!(diags.is_empty(), "{diags:?}");
}

#[test]
fn punctuation_boundaries_do_not_merge_words_into_false_suggestions() {
    let diags = run("नेकपा (माओवादी केन्द्र)को बैठक", &lex_of(&["केन्द्रको"]));
    assert!(diags.iter().all(|d| d.incorrect != "केन्द्र)को"), "{diags:?}");
}

#[test]
fn unicode_dash_after_quote_verb_does_not_trigger_false_suggestion() {
    let diags = run("राम भने– ‘घर जाऔँ।’", &lex_of(&["भन्ने"]));
    assert!(diags.iter().all(|d| d.incorrect != "भने–"), "{diags:?}");
}

#[test]
fn tiryak_joined_phrase_correction_applies_to_split_kri_danta_plus_case() {
    let diags = run("भएको मा निर्णय गरियो।", &with_case_markers(lex_of(&["भएको", "भएकामा"])));
    assert!(has(&diags, "भएको मा", "भएकामा"), "{diags:?}");
}

#[test]
fn tiryak_direct_pronoun_case_correction_applies_to_split_form() {
    let diags = run("यो ले सही सन्देश दियो।", &with_case_markers(lex_of(&["यसले"])));
    assert!(has(&diags, "यो ले", "यसले"), "{diags:?}");
}

#[test]
fn tiryak_irregular_split_pronoun_forms_keep_kha_rule_attribution() {
    let diags = run("म ले भनें। तँ ले सुनिस्।", &with_case_markers(Lexicon::new()));
    let m_le = diags.iter().find(|d| d.incorrect == "म ले" && d.correction == "मैले").expect("म ले");
    assert!(m_le.explanation.contains("७(ख)"), "{m_le:?}");
    let tan_le = diags.iter().find(|d| d.incorrect == "तँ ले" && d.correction == "तैँले").expect("तँ ले");
    assert!(tan_le.explanation.contains("७(ख)"), "{tan_le:?}");
}

#[test]
fn tiryak_determiner_correction_applies_before_inflected_head_noun() {
    let lex = with_case_markers(lex_of(&["प्रसारण", "प्रमुख", "समाचार"]));
    let diags = run("अब यो प्रसारणका प्रमुख समाचारहरू सुन्नुहोस्।", &lex);
    assert!(has(&diags, "यो", "यस"), "{diags:?}");
}

#[test]
fn tiryak_does_not_overcorrect_non_trigger_suffixes() {
    let diag = check_word("गर्नुको", &with_case_markers(lex_of(&["गर्नु"])));
    assert!(diag.is_none(), "{diag:?}");
}

#[test]
fn tiryak_subrule_ga_applies_to_possessive_determiners_with_inflected_heads() {
    let mut lex = lex_of(&["भाइ"]);
    lex.plural_markers.push("हरू".to_string());
    let diags = run("मेरो भाइहरू आए।", &lex);
    assert!(has(&diags, "मेरो", "मेरा"), "{diags:?}");
}

#[test]
fn tiryak_subrule_ga_skips_uninflected_head_nouns() {
    let diags = run("मेरो भाइ आए।", &lex_of(&["भाइ"]));
    assert!(diags.iter().all(|d| d.incorrect != "मेरो"), "{diags:?}");
}

#[test]
fn padayog_phrase_multiple_detected() {
    let diags = run("आज्ञा अनुसार काम गर। तिमी भन्दा ऊ छिटो आयो।", &Lexicon::new());
    assert!(has(&diags, "आज्ञा अनुसार", "आज्ञाअनुसार"), "{diags:?}");
    assert!(has(&diags, "तिमी भन्दा", "तिमीभन्दा"), "{diags:?}");
}

#[test]
fn padayog_ota_varga_sambandhi_detected() {
    let diags = run("तीन ओटा शिक्षक वर्ग र ज्ञान सम्बन्धी छलफल भयो।", &Lexicon::new());
    assert!(has(&diags, "तीन ओटा", "तीनओटा"), "{diags:?}");
    assert!(has(&diags, "शिक्षक वर्ग", "शिक्षकवर्ग"), "{diags:?}");
    assert!(has(&diags, "ज्ञान सम्बन्धी", "ज्ञानसम्बन्धी"), "{diags:?}");
}

#[test]
fn sarah_join_rule_still_applies() {
    let diags = run("बुद्धि सरह सोच राख।", &Lexicon::new());
    assert!(has(&diags, "बुद्धि सरह", "बुद्धिसरह"), "{diags:?}");
}

#[test]
fn padayog_padabiyog_notice_subrules_sampled() {
    let lex = lex_of(&["रामले", "देशको", "चार"]);
    let diags = run("राम ले देश को कुरा गर्‍यो, किन भने देशकालागि चारजना थिए र पढ्नुनैपर्छ भन्यो।", &lex);
    assert!(has(&diags, "राम ले", "रामले"), "{diags:?}");
    assert!(has(&diags, "देश को", "देशको"), "{diags:?}");
    assert!(has(&diags, "किन भने", "किनभने"), "{diags:?}");
    assert!(has(&diags, "देशकालागि", "देशका लागि"), "{diags:?}");
    assert!(has(&diags, "चारजना", "चार जना"), "{diags:?}");
    assert!(has(&diags, "पढ्नुनैपर्छ", "पढ्नु नै पर्छ"), "{diags:?}");
}

#[test]
fn generalized_padayog_namayogi_join_handles_panchham_variant_before_vibhakti() {
    let lex = lex_of(&["सरकार", "सँगको", "सरकारसँगको"]);
    let diags = run("सरकार सङ को निर्णय आयो।", &lex);
    assert!(has(&diags, "सरकार सङ को", "सरकारसँगको"), "{diags:?}");
}

#[test]
fn chandrabindu_word_gets_chandrabindu_category() {
    let diag = check_word("आउछ", &lex_of(&["आउँछ"])).expect("आउछ");
    assert_eq!(diag.correction, "आउँछ");
    assert_eq!(diag.category, DiagnosticCategory::Chandrabindu);
}

#[test]
fn halanta_word_gets_halanta_category() {
    let mut lex = lex_of(&["महान्"]);
    lex.add_origin("महान", Origin::Tatsam);
    let diag = check_word("महान", &lex).expect("महान");
    assert_eq!(diag.correction, "महान्");
    assert_eq!(diag.category, DiagnosticCategory::Halanta);
}

#[test]
fn ba_va_word_gets_ba_va_category() {
    let diag = check_word("बिकास", &lex_of(&["विकास"])).expect("बिकास");
    assert_eq!(diag.correction, "विकास");
    assert_eq!(diag.category, DiagnosticCategory::BaVa);
}

#[test]
fn ba_va_o_class_does_not_rewrite_supported_u_initial_verb_form() {
    let diag = check_word("उठे", &lex_of(&["उठे", "उठ्नु"]));
    assert!(diag.is_none(), "{diag:?}");
}

#[test]
fn ya_e_correction_gets_ya_e_category() {
    let diag = check_word("यकता", &lex_of(&["एकता"])).expect("यकता");
    assert_eq!(diag.correction, "एकता");
    assert_eq!(diag.category, DiagnosticCategory::YaE);
}

#[test]
fn ri_kri_correction_gets_ri_kri_category() {
    let diag = check_word("रिषि", &lex_of(&["ऋषि"])).expect("रिषि");
    assert_eq!(diag.correction, "ऋषि");
    assert_eq!(diag.category, DiagnosticCategory::RiKri);
}

#[test]
fn attested_non_derivative_word_is_not_flagged_by_aadhi_vriddhi() {
    let diag = check_word("अधिक", &lex_of(&["अधिक"]));
    assert!(diag.is_none(), "{diag:?}");
}

fn with_affixes(mut lex: Lexicon) -> Lexicon {
    for c in ["ले", "मा", "लाई", "का", "को", "की", "बाट", "सँग", "सम्म", "तिर"] {
        lex.case_markers.push(c.to_string());
    }
    for p in ["पनि", "नै", "कै", "सँगै"] {
        lex.particles.push(p.to_string());
    }
    lex
}

#[test]
fn attested_sibling_inflection_allows_unlisted_case_form() {
    let lex = with_affixes(lex_of(&["मच्छिन्द्रनाथ", "मच्छिन्द्रनाथले", "मन्दिर"]));
    let diags = run("मच्छिन्द्रनाथको मन्दिर", &lex);
    assert!(diags.is_empty(), "{diags:?}");
}

#[test]
fn check_word_accepts_unlisted_case_form_backed_by_sibling_entries() {
    let lex = with_affixes(lex_of(&["मच्छिन्द्रनाथ", "मच्छिन्द्रनाथले"]));
    assert!(check_word("मच्छिन्द्रनाथको", &lex).is_none());
}

#[test]
fn check_word_accepts_prefix_plus_case_form() {
    let lex = with_affixes(lex_of(&["निराशा"]));
    assert!(check_word("निराशाबाट", &lex).is_none());
}

#[test]
fn check_word_propagates_correction_table_base_through_case_suffix() {
    let lex = with_affixes(Lexicon::new());
    let diag = check_word("रुपमा", &lex).expect("रुपमा");
    assert_eq!(diag.incorrect, "रुपमा");
    assert_eq!(diag.correction, "रूपमा");
}

#[test]
fn check_word_applies_tiryak_to_joined_nu_plus_case_form() {
    let lex = with_affixes(lex_of(&["गर्नु"]));
    let diag = check_word("गर्नुले", &lex).expect("गर्नुले");
    assert_eq!(diag.incorrect, "गर्नुले");
    assert_eq!(diag.correction, "गर्नाले");
}

#[test]
fn check_word_applies_tiryak_to_additional_pronoun_surface_forms() {
    let lex = with_affixes(Lexicon::new());
    let diag = check_word("मले", &lex).expect("मले");
    assert_eq!(diag.incorrect, "मले");
    assert_eq!(diag.correction, "मैले");
}

#[test]
fn c1_paragraph_with_errors() {
    let diags = run("अत्याधिक राजनैतिक प्रशाशन भयो।", &Lexicon::new());
    assert!(!diags.is_empty());
    let corrections: Vec<&str> = diags.iter().map(|d| d.correction.as_str()).collect();
    assert!(corrections.contains(&"अत्यधिक"), "{corrections:?}");
}

#[test]
fn c2_correct_paragraph() {
    let lex = lex_of(&["नेपाल", "राम्रो", "देश", "हो", "यहाँ", "हिमाल", "छ"]);
    let diags = run("नेपाल राम्रो देश हो। यहाँ हिमाल छ।", &lex);
    assert!(diags.is_empty(), "{diags:?}");
}

#[test]
fn c3_diagnostic_fields() {
    let diag = check_word("अत्याधिक", &Lexicon::new()).expect("अत्याधिक");
    assert_eq!(diag.incorrect, "अत्याधिक");
    assert_eq!(diag.correction, "अत्यधिक");
    assert!(!diag.explanation.is_empty());
    assert_eq!(diag.span.0, 0);
    assert_eq!(diag.span.1, "अत्याधिक".len());
}

#[test]
fn c4_multi_paragraph() {
    let diags = run("अत्याधिक काम भयो।\n\nउल्लेखित कुरा छ।", &Lexicon::new());
    assert!(diags.len() >= 2, "{diags:?}");
}

#[test]
fn c5_performance() {
    let text = std::iter::repeat("नेपाल").take(100).collect::<Vec<_>>().join(" ");
    let lex = lex_of(&["नेपाल"]);
    let start = std::time::Instant::now();
    let _ = run(&text, &lex);
    assert!(start.elapsed().as_millis() < 5000);
}

#[test]
fn c6_no_false_positives_on_correct() {
    let words = ["अत्यधिक", "राजनीतिक", "उल्लिखित", "प्रशासन", "नेपाल", "भाषा", "शिक्षा", "विकास"];
    let lex = lex_of(&words);
    for word in words {
        let diag = check_word(word, &lex);
        assert!(diag.is_none(), "{word}: {diag:?}");
    }
}

#[test]
fn productive_yo_verb_forms_do_not_trigger_nearby_fallback() {
    let diags = run("हिँड्यो हिँड्यो।", &lex_of(&["हिँड्नु"]));
    assert!(diags.is_empty(), "{diags:?}");
}

#[test]
fn rules_override_lexicon_rajnaitik() {
    let diag = check_word("राजनैतिक", &lex_of(&["राजनैतिक"])).expect("राजनैतिक");
    assert_eq!(diag.correction, "राजनीतिक");
}

#[test]
fn lexicon_present_misspellings_still_caught() {
    let cases = [
        ("राजनैतिक", "राजनीतिक"),
        ("अत्याधिक", "अत्यधिक"),
        ("उल्लेखित", "उल्लिखित"),
        ("व्यवहारिक", "व्यावहारिक"),
        ("पुनरावलोकन", "पुनरवलोकन"),
    ];
    let lex = lex_of(&["राजनैतिक", "अत्याधिक", "उल्लेखित", "व्यवहारिक", "पुनरावलोकन"]);
    for (incorrect, expected) in cases {
        let diag = check_word(incorrect, &lex).unwrap_or_else(|| panic!("{incorrect}"));
        assert_eq!(diag.correction, expected);
    }
}
