use varnavinyas::checker::check_text;
use varnavinyas::common::whitespace_segments;
use varnavinyas::diagnostic::{Diagnostic, DiagnosticCategory};
use varnavinyas::generalized::{
    add_generalized_padayog_padabiyog_diagnostics, has_same_rewrite, normalize_joined_word,
};
use varnavinyas::lexicon::Lexicon;
use varnavinyas::particles::suffix_left_candidates;
use varnavinyas::rule::{DiagnosticKind, Rule};

fn lex_of(words: &[&str]) -> Lexicon {
    let mut lex = Lexicon::new();
    for w in words {
        lex.add_word(w);
    }
    lex
}

fn with_names(mut lex: Lexicon, names: &[&str]) -> Lexicon {
    for n in names {
        lex.add_entry(n, Some("ना."));
    }
    lex
}

fn run(text: &str, lex: &Lexicon) -> Vec<Diagnostic> {
    check_text(text, lex, &vec![])
}

fn has(diags: &[Diagnostic], incorrect: &str, correction: &str) -> bool {
    diags.iter().any(|d| d.incorrect == incorrect && d.correction == correction)
}

fn find<'a>(diags: &'a [Diagnostic], incorrect: &str, correction: &str) -> &'a Diagnostic {
    diags
        .iter()
        .find(|d| d.incorrect == incorrect && d.correction == correction)
        .unwrap_or_else(|| panic!("expected {incorrect} -> {correction}, got: {diags:?}"))
}

// ----- segments -----

#[test]
fn segments_split_at_white_space_and_trim_punctuation() {
    let text = "म जान्नँ, किन   भने (समय) थिएन।";
    let segs = whitespace_segments(text);
    let words: Vec<&str> = segs.iter().map(|t| t.text.as_str()).collect();
    assert_eq!(words, vec!["म", "जान्नँ", "किन", "भने", "समय", "थिएन"]);
    for t in &segs {
        assert_eq!(&text[t.start..t.end], t.text);
    }
}

#[test]
fn segments_of_punctuation_only_pieces_are_dropped() {
    let segs = whitespace_segments("। , राम ।");
    assert_eq!(segs.len(), 1);
    assert_eq!(segs[0].text, "राम");
    assert_eq!(segs[0].start, 6);
    assert_eq!(segs[0].end, 15);
}

// ----- normal forms -----

#[test]
fn normalize_joined_word_keeps_attested_words() {
    let lex = lex_of(&["विद्यालयमा"]);
    assert_eq!(normalize_joined_word("विद्यालयमा", &lex), Some("विद्यालयमा".to_string()));
    assert_eq!(normalize_joined_word("अज्ञातशब्द", &lex), None);
}

#[test]
fn normalize_joined_word_respells_sang_variant() {
    let lex = lex_of(&["सँगको"]);
    assert_eq!(normalize_joined_word("संगको", &lex), Some("सँगको".to_string()));
}

#[test]
fn normalize_joined_word_takes_word_check_correction() {
    let lex = Lexicon::new();
    assert_eq!(normalize_joined_word("राजनैतिक", &lex), Some("राजनीतिक".to_string()));
}

#[test]
fn same_rewrite_needs_span_and_correction() {
    let lex = Lexicon::new();
    let diags = run("उनी खेल्दैछन्", &lex);
    let d = find(&diags, "खेल्दैछन्", "खेल्दै छन्");
    assert!(has_same_rewrite(&diags, d.span, "खेल्दै छन्"));
    assert!(!has_same_rewrite(&diags, d.span, "खेल्दैछन्"));
    assert!(!has_same_rewrite(&diags, (0, 1), "खेल्दै छन्"));
}

// ----- joins -----

#[test]
fn generalized_padayog_vibhakti_join_applies_beyond_fixed_pairs() {
    let lex = lex_of(&["विद्यालय", "विद्यालयमा", "कार्यक्रम", "छ"]);
    let diags = run("विद्यालय मा कार्यक्रम छ।", &lex);
    assert!(has(&diags, "विद्यालय मा", "विद्यालयमा"), "got: {diags:?}");
}

#[test]
fn generalized_padayog_vibhakti_join_skips_numeric_date_segments() {
    let lex = lex_of(&["फागुन", "२१मा", "कार्यक्रम"]);
    let diags = run("फागुन २१ मा कार्यक्रम छ।", &lex);
    assert!(diags.iter().all(|d| d.incorrect != "२१ मा"), "got: {diags:?}");
}

#[test]
fn generalized_padayog_namayogi_join_handles_following_vibhakti() {
    let lex = lex_of(&["सरकार", "सँगको", "सरकारसँगको", "निर्णय"]);
    let diags = run("सरकार संग को निर्णय आयो।", &lex);
    assert!(has(&diags, "सरकार संग को", "सरकारसँगको"), "got: {diags:?}");
}

#[test]
fn generalized_padayog_namayogi_join_handles_prati() {
    let lex = lex_of(&["अवसर", "अवसरप्रति", "आस्था"]);
    let diags = run("अवसर प्रति आस्था देखियो।", &lex);
    assert!(has(&diags, "अवसर प्रति", "अवसरप्रति"), "got: {diags:?}");
}

#[test]
fn generalized_padayog_namayogi_join_skips_non_headword_adverb_hosts() {
    let lex = lex_of(&["छिटै", "भित्र"]);
    let diags = run("छिटै भित्र पस्ने किसिमले।", &lex);
    assert!(diags.iter().all(|d| d.incorrect != "छिटै भित्र"), "got: {diags:?}");
}

#[test]
fn generalized_padayog_namayogi_plus_vibhakti_join_handles_partially_joined_prati() {
    let lex = lex_of(&["मप्रतिको", "धारणा"]);
    let diags = run("म प्रतिको धारणा प्रष्ट छ।", &lex);
    assert!(has(&diags, "म प्रतिको", "मप्रतिको"), "got: {diags:?}");
}

#[test]
fn generalized_padayog_pratyaya_join_handles_juu_after_known_name() {
    let lex = with_names(lex_of(&["राम"]), &["शाह"]);
    let diags = run("राम शाह ज्यू आए।", &lex);
    assert!(has(&diags, "शाह ज्यू", "शाहज्यू"), "got: {diags:?}");
    assert!(diags.iter().all(|d| d.incorrect != "शाह"), "got: {diags:?}");
}

#[test]
fn pratyaya_join_needs_an_attested_host() {
    let diags = run("अज्ञात ज्यू आए।", &Lexicon::new());
    assert!(diags.iter().all(|d| d.correction != "अज्ञातज्यू"), "got: {diags:?}");
}

#[test]
fn generalized_padayog_conjunction_join_handles_variable_spacing() {
    let diags = run("म जान्नँ, किन   भने समय थिएन।", &Lexicon::new());
    let d = find(&diags, "किन   भने", "किनभने");
    assert_eq!(d.confidence_permille, 940);
    assert_eq!(d.rule.code(), "3(घ)");
}

#[test]
fn saishanik_swarup_join_applies() {
    let lex = lex_of(&["फल", "फलस्वरूप", "नतिजा"]);
    let diags = run("फल स्वरूप यो नतिजा आयो।", &lex);
    let d = find(&diags, "फल स्वरूप", "फलस्वरूप");
    assert!(d.explanation.contains("पदयोग (ङ)"), "got: {d:?}");
}

#[test]
fn saishanik_middle_name_join_applies_when_joined_name_is_attested() {
    let lex = with_names(Lexicon::new(), &["लक्ष्मी", "प्रसाद", "लक्ष्मीप्रसाद", "देवकोटा"]);
    let diags = run("लक्ष्मी प्रसाद देवकोटा नेपाली साहित्यका महत्त्वपूर्ण व्यक्तित्व हुन्।", &lex);
    let d = find(&diags, "लक्ष्मी प्रसाद देवकोटा", "लक्ष्मीप्रसाद देवकोटा");
    assert!(d.explanation.contains("पदयोग (ञ)"), "got: {d:?}");
    assert_eq!(d.confidence_permille, 880);
}

#[test]
fn saishanik_middle_name_join_does_not_overfire_on_generic_lexical_triples() {
    let lex = with_names(Lexicon::new(), &["शुभ", "यात्रा", "शुभयात्रा", "शिक्षा"]);
    let diags = run("शुभ यात्रा\nशिक्षा", &lex);
    assert!(diags.iter().all(|d| d.correction != "शुभयात्रा शिक्षा"), "got: {diags:?}");
}

#[test]
fn saishanik_ekarthi_joins_apply_conservatively() {
    let lex = lex_of(&[
        "प्रधान",
        "प्रधानमन्त्री",
        "शिक्षा",
        "शिक्षामन्त्री",
        "शुभ",
        "शुभकामना",
        "शुभयात्रा",
        "कीर्ति",
        "कीर्तिपुर",
        "ललित",
        "ललितपुर",
    ]);
    let diags = run("प्रधान मन्त्री, शिक्षा मन्त्री, शुभ कामना, शुभ यात्रा, कीर्ति पुर, ललित पुर।", &lex);
    for (incorrect, correction) in [
        ("प्रधान मन्त्री", "प्रधानमन्त्री"),
        ("शिक्षा मन्त्री", "शिक्षामन्त्री"),
        ("शुभ कामना", "शुभकामना"),
        ("शुभ यात्रा", "शुभयात्रा"),
        ("कीर्ति पुर", "कीर्तिपुर"),
        ("ललित पुर", "ललितपुर"),
    ] {
        let d = find(&diags, incorrect, correction);
        assert!(d.explanation.contains("पदयोग (ट)"), "got: {d:?}");
    }
}

#[test]
fn ekarthi_join_needs_an_attested_joined_form() {
    let lex = lex_of(&["प्रधान"]);
    let diags = run("प्रधान मन्त्री", &lex);
    assert!(diags.iter().all(|d| d.correction != "प्रधानमन्त्री"), "got: {diags:?}");
}

// ----- splits -----

#[test]
fn generalized_padabiyog_vibhakti_split_applies_beyond_fixed_pairs() {
    let diags = run("हाम्रालागि यो समाजकानिम्ति राम्रो हो।", &Lexicon::new());
    assert!(has(&diags, "हाम्रालागि", "हाम्रा लागि"), "got: {diags:?}");
    assert!(has(&diags, "समाजकानिम्ति", "समाजका निम्ति"), "got: {diags:?}");
}

#[test]
fn padabiyog_split_cases_detected() {
    let diags = run("देशकालागि काम गरियो। मेरानिम्ति खबर छ। रामकामा लेखिएको छ।", &Lexicon::new());
    assert!(has(&diags, "देशकालागि", "देशका लागि"), "got: {diags:?}");
    assert!(has(&diags, "मेरानिम्ति", "मेरा निम्ति"), "got: {diags:?}");
    assert!(has(&diags, "रामकामा", "रामका मा"), "got: {diags:?}");
}

#[test]
fn generalized_padabiyog_verb_complex_split_applies_beyond_fixed_pairs() {
    let diags = run("उनी खेल्दैछन् र भोलि हिँड्नेछन् ।", &Lexicon::new());
    let aspect = find(&diags, "खेल्दैछन्", "खेल्दै छन्");
    assert!(aspect.explanation.contains("पदवियोग-६"), "got: {aspect:?}");
    let future = find(&diags, "हिँड्नेछन्", "हिँड्ने छन्");
    assert!(future.explanation.contains("पदवियोग-७"), "got: {future:?}");
    assert_eq!(future.confidence_permille, 900);
}

#[test]
fn generalized_padabiyog_ne_cha_split_handles_longer_future_form() {
    let diags = run("उठाइरहनेछु", &Lexicon::new());
    assert!(has(&diags, "उठाइरहनेछु", "उठाइरहने छु"), "got: {diags:?}");
}

#[test]
fn generalized_padabiyog_ne_cha_split_handles_trailing_comma() {
    let diags = run("लागिरहनेछु,", &Lexicon::new());
    assert!(has(&diags, "लागिरहनेछु", "लागिरहने छु"), "got: {diags:?}");
}

#[test]
fn modal_after_infinitive_is_split() {
    let diags = run("गर्नसक्छ", &Lexicon::new());
    let d = find(&diags, "गर्नसक्छ", "गर्न सक्छ");
    assert!(d.explanation.contains("पदवियोग-९"), "got: {d:?}");
}

#[test]
fn past_auxiliary_after_aspect_participle_is_split() {
    let diags = run("गर्दैथियो", &Lexicon::new());
    assert!(has(&diags, "गर्दैथियो", "गर्दै थियो"), "got: {diags:?}");
}

#[test]
fn auxiliary_without_participle_is_not_split() {
    let diags = run("थियो आइपुग्छ", &Lexicon::new());
    assert!(diags.iter().all(|d| !d.correction.contains(' ')), "got: {diags:?}");
}

#[test]
fn saishanik_comparison_particles_are_split_not_joined() {
    let lex = lex_of(&["उनी", "डोल्मा", "बताए"]);
    let diags = run("उनीजस्तै आए, डोल्माजस्तो देखियो, बताएजसरी गरियो।", &lex);
    assert!(has(&diags, "उनीजस्तै", "उनी जस्तै"), "got: {diags:?}");
    assert!(has(&diags, "डोल्माजस्तो", "डोल्मा जस्तो"), "got: {diags:?}");
    assert!(has(&diags, "बताएजसरी", "बताए जसरी"), "got: {diags:?}");
}

#[test]
fn saishanik_namik_kriya_splits_apply() {
    let lex = lex_of(&["थाहा", "मन", "माया"]);
    let diags = run("थाहापाउनु राम्रो हो। मनपर्नु सजिलो छैन। मायागर्नु आवश्यक छ।", &lex);
    for (incorrect, correction) in [
        ("थाहापाउनु", "थाहा पाउनु"),
        ("मनपर्नु", "मन पर्नु"),
        ("मायागर्नु", "माया गर्नु"),
    ] {
        let d = find(&diags, incorrect, correction);
        assert!(d.explanation.contains("पदवियोग (घ)"), "got: {d:?}");
    }
}

#[test]
fn saishanik_gari_splits_apply() {
    let lex = lex_of(&["बुझिने", "ढिलो"]);
    let diags = run("बुझिनेगरी सम्झाऊ। ढिलोगरी नआऊ।", &lex);
    for (incorrect, correction) in [("बुझिनेगरी", "बुझिने गरी"), ("ढिलोगरी", "ढिलो गरी")] {
        let d = find(&diags, incorrect, correction);
        assert!(d.explanation.contains("पदवियोग (ङ)"), "got: {d:?}");
    }
}

#[test]
fn saishanik_institutional_phrase_splits_apply() {
    let lex = lex_of(&["नेपाल", "सरकार", "परराष्ट्र", "मन्त्रालयले"]);
    let diags = run("नेपालसरकार र परराष्ट्रमन्त्रालयले विज्ञप्ति जारी गरे।", &lex);
    for (incorrect, prefix) in [("नेपालसरकार", "नेपाल सरकार"), ("परराष्ट्रमन्त्रालयले", "परराष्ट्र मन्त्रालय")] {
        let d = diags
            .iter()
            .find(|d| d.incorrect == incorrect && d.correction.starts_with(prefix))
            .unwrap_or_else(|| panic!("expected {incorrect}, got: {diags:?}"));
        assert!(d.explanation.contains("पदवियोग (ख)"), "got: {d:?}");
    }
}

#[test]
fn saishanik_title_name_splits_apply() {
    let lex = lex_of(&["मुगु", "जिल्ला", "रारा", "ताल"]);
    let diags = run("मुगुजिल्ला र राराताल नेपालको परिचित नाम हुन्।", &lex);
    for (incorrect, correction) in [("मुगुजिल्ला", "मुगु जिल्ला"), ("राराताल", "रारा ताल")] {
        let d = find(&diags, incorrect, correction);
        assert!(d.explanation.contains("पदवियोग (ञ)"), "got: {d:?}");
    }
}

#[test]
fn saishanik_title_name_split_requires_terminal_suffix_boundary() {
    let lex = lex_of(&["वर्गका", "राजा", "देवता"]);
    let diags = run("स्वर्गका राजा; देवताका राजा।", &lex);
    assert!(diags.iter().all(|d| d.incorrect != "स्वर्गका"), "got: {diags:?}");
}

#[test]
fn saishanik_multiword_samasa_splits_apply() {
    let lex = lex_of(&[
        "नेपाल",
        "पत्रकार",
        "महासङ्घ",
        "प्रज्ञा",
        "प्रतिष्ठान",
        "मानव",
        "अधिकार",
        "आयोग",
        "लोक",
        "सेवा",
        "अख्तियार",
        "दुरुपयोग",
        "अनुसन्धान",
        "विद्युत्",
        "प्राधिकरण",
    ]);
    let diags = run(
        "नेपालपत्रकारमहासङ्घ, नेपालप्रज्ञाप्रतिष्ठान, मानवअधिकारआयोग, लोकसेवाआयोग, अख्तियारदुरुपयोगअनुसन्धानआयोग, नेपालविद्युत्प्राधिकरण।",
        &lex,
    );
    for (incorrect, correction) in [
        ("नेपालपत्रकारमहासङ्घ", "नेपाल पत्रकार महासङ्घ"),
        ("नेपालप्रज्ञाप्रतिष्ठान", "नेपाल प्रज्ञा-प्रतिष्ठान"),
        ("मानवअधिकारआयोग", "मानव अधिकार आयोग"),
        ("लोकसेवाआयोग", "लोक सेवा आयोग"),
        ("अख्तियारदुरुपयोगअनुसन्धानआयोग", "अख्तियार दुरुपयोग अनुसन्धान आयोग"),
        ("नेपालविद्युत्प्राधिकरण", "नेपाल विद्युत् प्राधिकरण"),
    ] {
        let d = find(&diags, incorrect, correction);
        assert!(d.explanation.contains("पदवियोग (ट)"), "got: {d:?}");
    }
}

#[test]
fn two_part_compound_is_not_split_word_by_word() {
    let lex = lex_of(&["लोक", "आयोग"]);
    let diags = run("लोकआयोग", &lex);
    assert!(diags.iter().all(|d| d.correction != "लोक आयोग"), "got: {diags:?}");
}

#[test]
fn saishanik_vibhakti_pachhi_namayogi_splits_apply() {
    let diags = run("दीपेशकानिम्ति, सोनमकालागि, बाटोदेखिमाथि, मामाकोसमेत, उसकोभन्दा।", &Lexicon::new());
    for (incorrect, correction) in [
        ("दीपेशकानिम्ति", "दीपेशका निम्ति"),
        ("सोनमकालागि", "सोनमका लागि"),
        ("बाटोदेखिमाथि", "बाटोदेखि माथि"),
        ("मामाकोसमेत", "मामाको समेत"),
        ("उसकोभन्दा", "उसको भन्दा"),
    ] {
        let d = find(&diags, incorrect, correction);
        assert!(
            d.explanation.contains("पदवियोग-३") || d.explanation.contains("पदवियोग (क)"),
            "got: {d:?}"
        );
    }
}

#[test]
fn generalized_vibhakti_pachhi_namayogi_split_requires_actual_vibhakti_on_left() {
    let diags = run("वास्तविकताभन्दा आफूभन्दा तिमीभन्दा।", &Lexicon::new());
    for incorrect in ["वास्तविकताभन्दा", "आफूभन्दा", "तिमीभन्दा"] {
        assert!(diags.iter().all(|d| d.incorrect != incorrect), "got: {diags:?}");
    }
}

#[test]
fn saishanik_sarthak_dwitva_splits_apply_generally() {
    let lex = lex_of(&["जहाँ", "जो", "के", "वन", "सडक", "राम्रो", "हुन्छ", "बस्नु", "हिँड्नु"]);
    let diags = run(
        "जहाँजहाँ, जोजो, केके, वनवन, सडकसडक, राम्रोराम्रो, हुन्छहुन्छ, बस्योबस्यो, हिँड्योहिँड्यो।",
        &lex,
    );
    for (incorrect, correction) in [
        ("जहाँजहाँ", "जहाँ जहाँ"),
        ("जोजो", "जो जो"),
        ("केके", "के के"),
        ("वनवन", "वन वन"),
        ("सडकसडक", "सडक सडक"),
        ("राम्रोराम्रो", "राम्रो राम्रो"),
        ("हुन्छहुन्छ", "हुन्छ हुन्छ"),
        ("बस्योबस्यो", "बस्यो बस्यो"),
        ("हिँड्योहिँड्यो", "हिँड्यो हिँड्यो"),
    ] {
        let d = find(&diags, incorrect, correction);
        assert!(d.explanation.contains("पदवियोग (ग)"), "got: {d:?}");
    }
}

#[test]
fn lexicalized_reduplication_headword_is_not_forced_apart() {
    let lex = lex_of(&["हिक्कहिक्क", "आवाज"]);
    let diags = run("वातविकार आदिका कारणले घाँटीबाट हिक्कहिक्क निस्कने आवाज।", &lex);
    assert!(diags.iter().all(|d| d.incorrect != "हिक्कहिक्क"), "got: {diags:?}");
}

#[test]
fn saishanik_jana_split_applies_beyond_fixed_examples() {
    let lex = lex_of(&["आठ", "दश", "पाँच", "विद्यार्थी"]);
    let diags = run("आठजना विद्यार्थी, दशजना मान्छे, पाँचजना केटा आए।", &lex);
    for (incorrect, correction) in [("आठजना", "आठ जना"), ("दशजना", "दश जना"), ("पाँचजना", "पाँच जना")] {
        let d = find(&diags, incorrect, correction);
        assert!(d.explanation.contains("पदवियोग (छ)"), "got: {d:?}");
    }
}

#[test]
fn saishanik_jana_split_does_not_split_lexicalized_yojana() {
    let diags = run("अब योजना, सामग्री", &lex_of(&["योजना"]));
    assert!(diags.iter().all(|d| d.incorrect != "योजना"), "got: {diags:?}");
}

#[test]
fn saishanik_divisive_na_is_not_generalized_without_coordination_context() {
    let lex = lex_of(&["राम", "श्याम", "रामले", "नराम", "नश्याम", "नरामले", "नभाको"]);
    let diags = run("नराम नश्याम आए। नरामले गीत गाई। केहीँ नभाको जात्रा हाडी गाउँमा !", &lex);
    assert!(
        diags.iter().all(|d| {
            !matches!(
                (d.incorrect.as_str(), d.correction.as_str()),
                ("नराम", "न राम") | ("नश्याम", "न श्याम") | ("नरामले", "न रामले") | ("नभाको", "न भाको")
            )
        }),
        "got: {diags:?}"
    );
}

#[test]
fn divisive_na_splits_before_a_noun_headword() {
    let lex = with_names(Lexicon::new(), &["घर"]);
    let diags = run("नघर", &lex);
    let d = find(&diags, "नघर", "न घर");
    assert_eq!(d.confidence_permille, 890);
}

#[test]
fn nipat_split_separates_a_particle_after_an_attested_host() {
    let lex = lex_of(&["राम", "बहिनी", "हरि", "दीपक"]);
    let diags = run("रामनै चिकित्सक हो। बहिनीपो आई। हरिझैँ देखियो। दीपकचाहिँ रिसायो।", &lex);
    for (incorrect, correction) in [
        ("रामनै", "राम नै"),
        ("बहिनीपो", "बहिनी पो"),
        ("हरिझैँ", "हरि झैँ"),
        ("दीपकचाहिँ", "दीपक चाहिँ"),
    ] {
        let d = find(&diags, incorrect, correction);
        assert!(d.explanation.contains("पदवियोग (च)"), "got: {d:?}");
        assert_eq!(d.confidence_permille, 900);
    }
}

#[test]
fn short_particle_split_has_lower_confidence() {
    let lex = lex_of(&["त्यो"]);
    let diags = run("त्योत गयो।", &lex);
    let d = find(&diags, "त्योत", "त्यो त");
    assert_eq!(d.confidence_permille, 860);
}

#[test]
fn saishanik_nipat_split_does_not_split_lexicalized_kunai() {
    let diags = run("कुनै व्यक्ति आएन।", &lex_of(&["कुनै", "कु"]));
    assert!(diags.iter().all(|d| d.incorrect != "कुनै"), "got: {diags:?}");
}

#[test]
fn general_pass_keeps_earlier_findings_and_blocks_its_own() {
    let text = "उनी खेल्दैछन् र भोलि हिँड्नेछन् ।";
    let earlier = Diagnostic {
        span: (0, 9),
        incorrect: "उनी".to_string(),
        correction: "उनि".to_string(),
        rule: Rule::VarnaVinyasNiyam("3(ई)"),
        explanation: "x".to_string(),
        category: DiagnosticCategory::HrasvaDirgha,
        kind: DiagnosticKind::Variant,
        confidence_permille: 500,
        alternate_reasons: Vec::new(),
    };
    let mut diags = vec![earlier];
    let mut blocked = vec![(0usize, 9usize)];
    add_generalized_padayog_padabiyog_diagnostics(text, &Lexicon::new(), &mut blocked, &mut diags);
    assert_eq!(diags[0].incorrect, "उनी");
    assert_eq!(diags[0].correction, "उनि");
    assert_eq!(blocked[0], (0, 9));
    assert_eq!(diags.len(), 3);
    for d in &diags[1..] {
        assert_eq!(d.rule.code(), "3(घ)");
        assert_eq!(d.kind, DiagnosticKind::Error);
        assert!(blocked.contains(&d.span));
        assert_eq!(&text[d.span.0..d.span.1], d.incorrect);
    }
}

#[test]
fn saishanik_nipat_split_applies_to_school_grammar_examples() {
    let lex = lex_of(&[
        "त्यो", "ऊ", "राम", "बहिनी", "हरि", "दीपक", "आउँछ", "पढ", "जाऊ", "आयो", "गयो",
    ]);
    let diags = run(
        "त्योत गयो। ऊनि जान्छ। रामनै चिकित्सक हो। बहिनीपो आई। हरिझैँ देखियो। दीपकचाहिँ मसँग रिसायो। केटोमात्र चौरमा दौड्यो। ऊ कहिले आउँछखै? यति पाठ पढल। तिमी घर जाऊत। आयोअरे। गयोक्या?",
        &lex,
    );
    for (incorrect, correction, fragment) in [
        ("त्योत", "त्यो त", "शब्दाश्रित"),
        ("ऊनि", "ऊ नि", "शब्दाश्रित"),
        ("रामनै", "राम नै", "शब्दाश्रित"),
        ("बहिनीपो", "बहिनी पो", "शब्दाश्रित"),
        ("हरिझैँ", "हरि झैँ", "शब्दाश्रित"),
        ("दीपकचाहिँ", "दीपक चाहिँ", "शब्दाश्रित"),
        ("आउँछखै", "आउँछ खै", "वाक्याश्रित"),
        ("पढल", "पढ ल", "शब्दाश्रित"),
        ("जाऊत", "जाऊ त", "शब्दाश्रित"),
        ("आयोअरे", "आयो अरे", "वाक्याश्रित"),
        ("गयोक्या", "गयो क्या", "वाक्याश्रित"),
    ] {
        let d = find(&diags, incorrect, correction);
        assert!(d.explanation.contains("पदवियोग (च)"), "got: {d:?}");
        assert!(d.explanation.contains(fragment), "got: {d:?}");
    }
    assert!(
        diags.iter().all(|d| d.incorrect != "ऊनि" || d.explanation.contains("पदवियोग (च)")),
        "got: {diags:?}"
    );
}

#[test]
fn saishanik_nipat_split_handles_contracted_nai_after_n_stem() {
    let diags = run("समस्या सुधार्नै पर्छ।", &lex_of(&["सुधार्न"]));
    let d = find(&diags, "सुधार्नै", "सुधार्न नै");
    assert!(d.explanation.contains("पदवियोग (च)"), "got: {d:?}");
}

#[test]
fn sentence_particle_split_has_its_own_confidence() {
    let diags = run("आयोअरे", &lex_of(&["आयो"]));
    let d = find(&diags, "आयोअरे", "आयो अरे");
    assert_eq!(d.confidence_permille, 880);
}

#[test]
fn shared_onset_host_candidates() {
    assert_eq!(suffix_left_candidates("सुधार्नै", "नै"), vec!["सुधार्".to_string(), "सुधार्न".to_string()]);
    assert_eq!(suffix_left_candidates("रामनै", "नै"), vec!["राम".to_string(), "रामन".to_string()]);
    assert!(suffix_left_candidates("नै", "नै").is_empty());
}
