use varnavinyas::checker::{check_text, check_text_with_options, CheckOptions};
use varnavinyas::diagnostic::Diagnostic;
use varnavinyas::lexicon::Lexicon;
use varnavinyas::rule::{DiagnosticKind, Rule};

fn grammar(text: &str) -> Vec<Diagnostic> {
    let options = CheckOptions { grammar: true, ..CheckOptions::default() };
    check_text_with_options(text, &Lexicon::new(), options, &vec![])
}

fn is_style(d: &Diagnostic) -> bool {
    d.rule == Rule::Vyakaran("section4-phrase-style")
}

fn is_inferred(d: &Diagnostic) -> bool {
    d.rule == Rule::Vyakaran("section4-phrase-style-inferred-ko-ka")
}

#[test]
fn section4_style_variants_are_opt_in() {
    let text = "कार्यक्रमको सम्बन्धमा छलफल भयो।";
    let off = check_text(text, &Lexicon::new(), &vec![]);
    assert!(off.iter().all(|d| !is_style(d)), "got: {off:?}");
    let on = grammar(text);
    assert!(
        on.iter().any(|d| is_style(d)
            && d.correction == "कार्यक्रमका सम्बन्धमा"
            && d.kind == DiagnosticKind::Variant),
        "got: {on:?}"
    );
}

#[test]
fn inferred_ko_ka_variants_cover_the_listed_followers() {
    let text = "विषयको सम्बन्धमा तथ्यको आधारमा रोगको बारेमा।";
    let off = check_text(text, &Lexicon::new(), &vec![]);
    assert!(off.iter().all(|d| !is_inferred(d)), "got: {off:?}");
    let on = grammar(text);
    for (incorrect, correction) in [
        ("विषयको सम्बन्धमा", "विषयका सम्बन्धमा"),
        ("तथ्यको आधारमा", "तथ्यका आधारमा"),
        ("रोगको बारेमा", "रोगका बारेमा"),
    ] {
        assert!(
            on.iter().any(|d| is_inferred(d)
                && d.incorrect == incorrect
                && d.correction == correction
                && d.kind == DiagnosticKind::Variant
                && d.explanation.contains("अनुमित")),
            "expected {incorrect} -> {correction}, got: {on:?}"
        );
    }
}

#[test]
fn section4_inferred_ko_ka_style_variants_require_exact_follower_word() {
    let diags = grammar("घरको लागिरहने कुरा र विषयको सम्बन्धमात्र फरक छन्।");
    assert!(diags.iter().all(|d| !is_inferred(d)), "got: {diags:?}");
}

#[test]
fn inferred_ko_ka_variant_needs_white_space_between_the_words() {
    let diags = grammar("(रोगको बारेमा,) तर रोगको,बारेमा होइन।");
    assert!(
        diags.iter().any(|d| is_inferred(d)
            && d.incorrect == "रोगको बारेमा"
            && d.correction == "रोगका बारेमा"
            && d.kind == DiagnosticKind::Variant),
        "got: {diags:?}"
    );
    assert!(diags.iter().all(|d| d.incorrect != "रोगको,बारेमा"), "got: {diags:?}");
}

#[test]
fn section4_sentence_style_variant_detected() {
    let diags = grammar("यहाँको सहयोगप्रति म कृतघ्न छु।");
    assert!(
        diags.iter().any(|d| is_style(d)
            && d.correction == "यहाँको सहयोगप्रति म कृतज्ञ छु"
            && d.kind == DiagnosticKind::Variant),
        "got: {diags:?}"
    );
}

#[test]
fn section4_phrase_variant_marmahat() {
    let diags = grammar("उनी मर्माहित भएको देखिन्थ्यो।");
    let d = diags
        .iter()
        .find(|d| is_style(d) && d.correction == "मर्माहत भएको")
        .unwrap_or_else(|| panic!("got: {diags:?}"));
    assert_eq!(d.confidence_permille, 780);
    assert_eq!(d.explanation, "Section 4 शैली सुझाव: शब्द-रूपगत प्रयोगमा मर्माहत रूप उपयुक्त हुन्छ");
}

#[test]
fn section4_sentence_word_order_variant_detected() {
    let diags = grammar("म अब कार्यक्रम सञ्चालन गर्न गइरहेको छु वा जाँदै छु।");
    assert!(
        diags.iter().any(|d| is_style(d)
            && d.correction == "म अब कार्यक्रम सञ्चालन गर्दै छु"
            && d.kind == DiagnosticKind::Variant),
        "got: {diags:?}"
    );
}

#[test]
fn section4_complex_sentence_variant_detected() {
    let diags = grammar("स्थानीय जनशक्तिको श्रमदानबाट दश किलोमिटर लामो गाडी गुड्न सक्ने सडक निर्माण गरियो।");
    assert!(
        diags.iter().any(|d| is_style(d)
            && d.correction == "स्थानीय जनशक्तिको श्रमदानबाट गाडी गुड्न सक्ने दश किलोमिटर लामो सडक निर्माण गरियो"
            && d.kind == DiagnosticKind::Variant),
        "got: {diags:?}"
    );
}

#[test]
fn style_variant_needs_whole_words() {
    let diags = grammar("अमर्माहित भएको");
    assert!(diags.iter().all(|d| !is_style(d)), "got: {diags:?}");
}

#[test]
fn inferred_variant_offset_is_exact() {
    let text = "रोगको बारेमा";
    let diags = grammar(text);
    let d = diags.iter().find(|d| is_inferred(d)).unwrap_or_else(|| panic!("got: {diags:?}"));
    assert_eq!(d.span, (0, text.len()));
    assert_eq!(d.confidence_permille, 700);
}
