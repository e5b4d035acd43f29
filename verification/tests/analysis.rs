use varnavinyas::analysis::{analyze, generate_correct_notes, marker_matches, NoteMarker};
use varnavinyas::lexicon::{Lexicon, Origin};
use varnavinyas::rule::Rule;

#[test]
fn tatsam_templates_emit_expected_notes() {
    let mut notes = Vec::new();
    generate_correct_notes("कृतीषशक्षज्ञण्", Origin::Tatsam, &mut notes);

    assert_eq!(notes.len(), 9);
    assert_eq!(notes[0].rule, Rule::VarnaVinyasNiyam("3(क)"));
    assert_eq!(notes[1].rule, Rule::VarnaVinyasNiyam("3(ग)-ऋ"));
    assert_eq!(notes[2].rule, Rule::VarnaVinyasNiyam("3(ग)(अ)"));
    assert_eq!(notes[3].rule, Rule::VarnaVinyasNiyam("3(ग)(अ)"));
    assert_eq!(notes[4].rule, Rule::VarnaVinyasNiyam("3(क)(ई)"));
    assert_eq!(notes[5].rule, Rule::VarnaVinyasNiyam("3(छ)-क्ष"));
    assert_eq!(notes[6].rule, Rule::VarnaVinyasNiyam("3(छ)-ज्ञ"));
    assert_eq!(notes[7].rule, Rule::VarnaVinyasNiyam("3(ख)-पञ्चम"));
    assert_eq!(notes[8].rule, Rule::VarnaVinyasNiyam("3(ङ)"));
}

#[test]
fn tadbhav_templates_emit_expected_notes() {
    let mut notes = Vec::new();
    generate_correct_notes("हिँड्नु", Origin::Tadbhav, &mut notes);

    assert_eq!(notes.len(), 3);
    assert_eq!(notes[0].rule, Rule::VarnaVinyasNiyam("3(क)"));
    assert_eq!(notes[1].rule, Rule::VarnaVinyasNiyam("3(क)-12"));
    assert_eq!(notes[2].rule, Rule::VarnaVinyasNiyam("3(ख)"));
}

#[test]
fn aagantuk_sa_note_requires_no_sha_or_ssa() {
    let mut notes = Vec::new();
    generate_correct_notes("साबुन", Origin::Aagantuk, &mut notes);
    assert_eq!(notes.len(), 2);

    let mut notes_with_sha = Vec::new();
    generate_correct_notes("शहर", Origin::Aagantuk, &mut notes_with_sha);
    assert_eq!(notes_with_sha.len(), 1);
}

#[test]
fn markers() {
    assert!(marker_matches("कृपा", NoteMarker::ContainsAny("ऋृ")));
    assert!(!marker_matches("कपा", NoteMarker::ContainsAny("ऋृ")));
    assert!(marker_matches("सत्", NoteMarker::EndsWith('्')));
    assert!(!marker_matches("", NoteMarker::EndsWith('्')));
    assert!(marker_matches("लक्ष्य", NoteMarker::ContainsStr("क्ष")));
}

#[test]
fn analyze_wrong_word_explains_with_steps() {
    let lex = Lexicon::new();
    let a = analyze("अत्याधिक", &lex);
    assert!(!a.is_correct);
    assert_eq!(a.correction.as_deref(), Some("अत्यधिक"));
    assert_eq!(a.rule_notes.len(), 1);
    assert_eq!(a.rule_notes[0].rule, Rule::ShuddhaAshuddha("Section 4"));
}

#[test]
fn analyze_correct_word_explains_by_origin() {
    let mut lex = Lexicon::new();
    lex.add_origin("साबुन", Origin::Aagantuk);
    let a = analyze("साबुन", &lex);
    assert!(a.is_correct);
    assert_eq!(a.correction, None);
    assert_eq!(a.origin, Some(Origin::Aagantuk));
    assert_eq!(a.rule_notes.len(), 2);
    let empty = analyze("", &lex);
    assert!(empty.is_correct);
    assert_eq!(empty.origin, Some(Origin::Deshaj));
}
