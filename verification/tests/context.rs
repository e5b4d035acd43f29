use varnavinyas::affix::tokenize_analyzed;
use varnavinyas::checker::{check_text, check_text_with_options, CheckOptions};
use varnavinyas::context::{looks_like_final_predicate_context, sentence_spans};
use varnavinyas::lexicon::Lexicon;
use varnavinyas::rule::{DiagnosticKind, Rule};

fn hos_lexicon() -> Lexicon {
    let mut lex = Lexicon::new();
    for w in ["नेपाल", "आमाको", "जय", "होस", "जय होस्", "सबैको", "भलो", "उसको", "हरायो"] {
        lex.add_word(w);
    }
    lex
}

#[test]
fn sentence_spans_split_on_terminal_punctuation() {
    let lex = Lexicon::new();
    let text = "नेपाल राम्रो हो। यहाँ शान्ति होस";
    let tokens = tokenize_analyzed(text, &lex);
    let spans = sentence_spans(text, &tokens);
    assert_eq!(spans.len(), 2);
    assert_eq!(spans[0].0, 0);
    assert_eq!(spans[0].1, 3);
    assert_eq!(spans[1].0, 3);
    assert_eq!(spans[1].1, 6);
}

#[test]
fn sentence_spans_of_text_without_tokens_are_empty() {
    let lex = Lexicon::new();
    let tokens = tokenize_analyzed("123 .", &lex);
    assert!(sentence_spans("123 .", &tokens).is_empty());
}

#[test]
fn structural_final_hos_rejects_possessive_nominal_context() {
    let diags = check_text("उसको होस", &hos_lexicon(), &vec![]);
    assert!(diags.iter().all(|d| d.correction != "होस्"), "got: {diags:?}");
    assert!(!looks_like_final_predicate_context("उसको"));
    assert!(!looks_like_final_predicate_context("गर्छ"));
    assert!(looks_like_final_predicate_context("भलो"));
}

#[test]
fn sentence_context_phrase_backed_hos_correction_applies_in_blessing_sentence() {
    let diags = check_text("नेपाल आमाको जय होस ।", &hos_lexicon(), &vec![]);
    let d = diags
        .iter()
        .find(|d| d.incorrect == "होस" && d.correction == "होस्")
        .unwrap_or_else(|| panic!("got: {diags:?}"));
    assert_eq!(d.rule, Rule::VarnaVinyasNiyam("3(ङ)-context-होस्"));
    assert_eq!(d.confidence_permille, 970);
}

#[test]
fn sentence_context_phrase_backed_hos_correction_applies_at_end_of_input() {
    let diags = check_text("नेपाल आमाको जय होस", &hos_lexicon(), &vec![]);
    assert!(diags.iter().any(|d| d.incorrect == "होस" && d.correction == "होस्"), "got: {diags:?}");
}

#[test]
fn sentence_context_structural_hos_correction_applies_for_final_benedictive_predicate() {
    let diags = check_text("सबैको भलो होस ।", &hos_lexicon(), &vec![]);
    let d = diags
        .iter()
        .find(|d| d.incorrect == "होस" && d.correction == "होस्")
        .unwrap_or_else(|| panic!("got: {diags:?}"));
    assert_eq!(d.confidence_permille, 890);
    assert_eq!(d.kind, DiagnosticKind::Error);
}

#[test]
fn sentence_context_does_not_overcorrect_nominal_hos_usage() {
    let diags = check_text("उसको होस हरायो ।", &hos_lexicon(), &vec![]);
    assert!(diags.iter().all(|d| d.incorrect != "होस"), "got: {diags:?}");
}

#[test]
fn hos_alone_is_no_sentence_context() {
    let diags = check_text("होस ।", &hos_lexicon(), &vec![]);
    assert!(diags.iter().all(|d| d.correction != "होस्"), "got: {diags:?}");
}

#[test]
fn context_pass_runs_with_grammar_options_too() {
    let options = CheckOptions { grammar: true, ..CheckOptions::default() };
    let diags = check_text_with_options("सबैको भलो होस ।", &hos_lexicon(), options, &vec![]);
    assert!(diags.iter().any(|d| d.correction == "होस्"), "got: {diags:?}");
}
