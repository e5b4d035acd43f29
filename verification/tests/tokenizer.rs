use varnavinyas::affix::tokenize_analyzed;
use varnavinyas::lexicon::Lexicon;
use varnavinyas::tokenizer::{has_devanagari, is_punctuation, tokenize};

fn affix_lexicon() -> Lexicon {
    let mut lex = Lexicon::new();
    for w in ["राम", "घर", "नेपाल", "निराशा", "प्रसारण"] {
        lex.add_word(w);
    }
    for p in ["पनि", "नै", "पो"] {
        lex.particles.push(p.to_string());
    }
    for c in ["लाई", "को", "का", "की", "मा", "ले", "बाट", "देखि", "भित्र", "सँग"] {
        lex.case_markers.push(c.to_string());
    }
    for p in ["हरु", "हरू"] {
        lex.plural_markers.push(p.to_string());
    }
    lex
}

#[test]
fn simple_tokenization() {
    let tokens = tokenize("नेपाल राम्रो देश हो।");
    assert_eq!(tokens.len(), 4);
    assert_eq!(tokens[0].text, "नेपाल");
    assert_eq!(tokens[3].text, "हो");
}

#[test]
fn strips_trailing_danda() {
    let tokens = tokenize("देश हो।");
    assert_eq!(tokens.len(), 2);
    assert_eq!(tokens[1].text, "हो");
}

#[test]
fn strips_smart_quotes() {
    let tokens = tokenize("“अत्याधिक”");
    assert_eq!(tokens.len(), 1);
    assert_eq!(tokens[0].text, "अत्याधिक");
}

#[test]
fn splits_on_internal_punctuation_boundaries() {
    let tokens = tokenize("नेकपा (माओवादी केन्द्र)को");
    let words: Vec<_> = tokens.iter().map(|t| t.text.as_str()).collect();
    assert_eq!(words, vec!["नेकपा", "माओवादी", "केन्द्र", "को"]);
}

#[test]
fn splits_on_unicode_dash_boundaries() {
    let tokens = tokenize("राम भने– ‘घर जाऔँ।’");
    let words: Vec<_> = tokens.iter().map(|t| t.text.as_str()).collect();
    assert_eq!(words, vec!["राम", "भने", "घर", "जाऔँ"]);
}

#[test]
fn empty_input() {
    assert!(tokenize("").is_empty());
    assert!(tokenize("   ").is_empty());
}

#[test]
fn skips_english_tokens() {
    let tokens = tokenize("hello नेपाल world");
    assert_eq!(tokens.len(), 1);
    assert_eq!(tokens[0].text, "नेपाल");
}

#[test]
fn preserves_byte_offsets() {
    let text = "नेपाल राम्रो";
    let tokens = tokenize(text);
    assert_eq!(tokens.len(), 2);
    assert_eq!(&text[tokens[0].start..tokens[0].end], "नेपाल");
    assert_eq!(&text[tokens[1].start..tokens[1].end], "राम्रो");
}

#[test]
fn o8_1_detach_laai() {
    let lex = affix_lexicon();
    let tokens = tokenize_analyzed("रामलाई", &lex);
    assert_eq!(tokens.len(), 1);
    assert_eq!(tokens[0].stem, "राम");
    assert_eq!(tokens[0].suffix.as_deref(), Some("लाई"));
}

#[test]
fn o8_2_detach_haru() {
    let lex = affix_lexicon();
    let tokens = tokenize_analyzed("घरहरु", &lex);
    assert_eq!(tokens.len(), 1);
    assert_eq!(tokens[0].stem, "घर");
    assert_eq!(tokens[0].suffix.as_deref(), Some("हरु"));
}

#[test]
fn o8_3_detach_maa() {
    let lex = affix_lexicon();
    let tokens = tokenize_analyzed("नेपालमा", &lex);
    assert_eq!(tokens.len(), 1);
    assert_eq!(tokens[0].stem, "नेपाल");
    assert_eq!(tokens[0].suffix.as_deref(), Some("मा"));
}

#[test]
fn o8_4_unknown_stem_unsplit() {
    let lex = affix_lexicon();
    let tokens = tokenize_analyzed("ज्ञपतमा", &lex);
    assert_eq!(tokens.len(), 1);
    assert_eq!(tokens[0].stem, "ज्ञपतमा");
    assert_eq!(tokens[0].suffix, None);
}

#[test]
fn o8_5_longest_suffix_wins() {
    let lex = affix_lexicon();
    let tokens = tokenize_analyzed("घरभित्र", &lex);
    assert_eq!(tokens.len(), 1);
    assert_eq!(tokens[0].stem, "घर");
    assert_eq!(tokens[0].suffix.as_deref(), Some("भित्र"));
}

#[test]
fn o8_6_tokenize_unchanged() {
    let tokens = tokenize("रामलाई नेपालमा");
    assert_eq!(tokens.len(), 2);
    assert_eq!(tokens[0].text, "रामलाई");
    assert_eq!(tokens[1].text, "नेपालमा");
}

#[test]
fn o8_7_returns_analyzed_tokens() {
    let lex = affix_lexicon();
    let tokens = tokenize_analyzed("राम नेपाल", &lex);
    assert_eq!(tokens.len(), 2);
}

#[test]
fn o8_8_byte_offsets_cover_full_token() {
    let lex = affix_lexicon();
    let text = "रामलाई नेपालमा";
    let tokens = tokenize_analyzed(text, &lex);
    assert_eq!(tokens.len(), 2);
    assert_eq!(&text[tokens[0].start..tokens[0].end], "रामलाई");
    assert_eq!(&text[tokens[1].start..tokens[1].end], "नेपालमा");
}

#[test]
fn detaches_stacked_suffixes_via_shared_analysis() {
    let lex = affix_lexicon();
    let tokens = tokenize_analyzed("रामकोपनि", &lex);
    assert_eq!(tokens.len(), 1);
    assert_eq!(tokens[0].stem, "राम");
    assert_eq!(tokens[0].suffix.as_deref(), Some("कोपनि"));
}

#[test]
fn preserves_prefix_in_stem_when_detaching_case_suffix() {
    let lex = affix_lexicon();
    let tokens = tokenize_analyzed("निराशाबाट", &lex);
    assert_eq!(tokens.len(), 1);
    assert_eq!(tokens[0].stem, "निराशा");
    assert_eq!(tokens[0].suffix.as_deref(), Some("बाट"));
}

#[test]
fn token_offsets_are_exact_bytes() {
    let tokens = tokenize("ab घर, (नदी)");
    assert_eq!(tokens.len(), 2);
    assert_eq!((tokens[0].start, tokens[0].end), (3, 9));
    assert_eq!((tokens[1].start, tokens[1].end), (12, 21));
}

#[test]
fn tab_and_no_break_space_separate_words() {
    let tokens = tokenize("घर\tवन\u{00A0}नदी");
    let words: Vec<_> = tokens.iter().map(|t| t.text.as_str()).collect();
    assert_eq!(words, vec!["घर", "वन", "नदी"]);
}

#[test]
fn attested_whole_word_is_not_split() {
    let mut lex = affix_lexicon();
    lex.add_word("रामलाई");
    let tokens = tokenize_analyzed("रामलाई", &lex);
    assert_eq!(tokens[0].stem, "रामलाई");
    assert_eq!(tokens[0].suffix, None);
}

#[test]
fn punctuation_and_devanagari_predicates() {
    assert!(is_punctuation('।'));
    assert!(is_punctuation('“'));
    assert!(!is_punctuation('क'));
    assert!(has_devanagari("abc क"));
    assert!(!has_devanagari("abc"));
}

#[test]
fn analyzed_tokens_rejoin_to_plain_tokens() {
    let lex = affix_lexicon();
    let text = "रामलाई घरहरुमा नेपालमा ज्ञपतमा निराशा";
    let plain = tokenize(text);
    let analyzed = tokenize_analyzed(text, &lex);
    assert_eq!(plain.len(), analyzed.len());
    for (p, a) in plain.iter().zip(analyzed.iter()) {
        assert_eq!((p.start, p.end), (a.start, a.end));
        assert_eq!(a.surface(), p.text);
        if let Some(s) = &a.suffix {
            assert!(!s.is_empty());
        }
    }
    assert!(analyzed.iter().any(|a| a.suffix.is_some()));
}

#[test]
fn analysed_form_splits_at_its_stem() {
    let mut lex = Lexicon::new();
    lex.add_analysis("घरहरूमा", "घर");
    let tokens = tokenize_analyzed("घरहरूमा", &lex);
    assert_eq!(tokens.len(), 1);
    assert_eq!(tokens[0].stem, "घर");
    assert_eq!(tokens[0].suffix.as_deref(), Some("हरूमा"));
}

#[test]
fn analysis_comes_before_the_lexicon() {
    let mut lex = affix_lexicon();
    lex.add_word("नेपालमा");
    let whole = tokenize_analyzed("नेपालमा", &lex);
    assert_eq!(whole[0].stem, "नेपालमा");
    assert_eq!(whole[0].suffix, None);
    lex.add_analysis("नेपालमा", "नेपाल");
    let split = tokenize_analyzed("नेपालमा", &lex);
    assert_eq!(split[0].stem, "नेपाल");
    assert_eq!(split[0].suffix.as_deref(), Some("मा"));
}

#[test]
fn analysis_without_suffix_or_prefix_stem_leaves_token_whole() {
    let mut lex = Lexicon::new();
    lex.add_analysis("किताब", "किताब");
    lex.add_analysis("केटालाई", "केटो");
    let tokens = tokenize_analyzed("किताब केटालाई", &lex);
    assert_eq!(tokens[0].stem, "किताब");
    assert_eq!(tokens[0].suffix, None);
    assert_eq!(tokens[1].stem, "केटालाई");
    assert_eq!(tokens[1].suffix, None);
}
