use varnavinyas::ba_va::rule_ba_va;
use varnavinyas::chandrabindu::rule_chandrabindu;
use varnavinyas::correction_table::{contains, lookup};
use varnavinyas::halanta::rule_halanta;
use varnavinyas::hrasva_dirgha::{
    kosha_backed_dirgha_correction, rule_dirgha_endings, rule_kinship_tadbhav,
    rule_suffix_eli_hrasva, rule_suffix_nu_hrasva, rule_suffix_preserves_dirgha,
    rule_tadbhav_hrasva,
};
use varnavinyas::lexicon::{Lexicon, Origin};
use varnavinyas::rule::Rule;
use varnavinyas::sibilant::rule_sibilant;
use varnavinyas::structural::{
    get_panchham_for, rule_panchham_varna, rule_redundant_suffix, rule_shri_correction,
    write_panchham,
};
use varnavinyas::ustai::{rule_gya_gyan, rule_ksha_chhya, rule_ri_kri, rule_ya_e};

fn with(words: &[&str]) -> Lexicon {
    let mut lex = Lexicon::new();
    for w in words {
        lex.add_word(w);
    }
    lex
}

fn out(p: Option<varnavinyas::rule::Prakriya>) -> Option<(String, Rule)> {
    p.map(|p| (p.output, p.steps[0].rule))
}

#[test]
fn structural_rules() {
    assert_eq!(rule_shri_correction("श्रृङ्गार").unwrap().output, "शृङ्गार");
    assert!(rule_shri_correction("शृङ्गार").is_none());
    assert_eq!(rule_redundant_suffix("सौन्दर्यता").unwrap().output, "सौन्दर्य");
    assert_eq!(rule_redundant_suffix("औचित्यता").unwrap().output, "औचित्य");
    assert!(rule_redundant_suffix("सुन्दरता").is_none());
    let mut lex = Lexicon::new();
    lex.add_origin("संकेत", Origin::Tatsam);
    assert_eq!(rule_panchham_varna("संकेत", &lex).unwrap().output, "सङ्केत");
    assert!(rule_panchham_varna("संकेत", &Lexicon::new()).is_none());
}

#[test]
fn hrasva_dirgha_rules() {
    assert_eq!(rule_suffix_nu_hrasva("स्वीकार्नु").unwrap().output, "स्विकार्नु");
    assert_eq!(rule_suffix_eli_hrasva("पूर्वेली").unwrap().output, "पुर्वेली");
    assert_eq!(rule_suffix_preserves_dirgha("पुर्वी").unwrap().output, "पूर्वी");
    assert_eq!(rule_suffix_preserves_dirgha("पुर्वीय").unwrap().output, "पूर्वीय");
    let lex = with(&["मिठो"]);
    assert_eq!(rule_tadbhav_hrasva("मीठो", &lex).unwrap().output, "मिठो");
    assert!(rule_tadbhav_hrasva("मीठो", &Lexicon::new()).is_none());
    assert_eq!(rule_dirgha_endings("भनि", &Lexicon::new()).unwrap().output, "भनी");
    assert_eq!(rule_dirgha_endings("गरि", &Lexicon::new()).unwrap().output, "गरी");
    let lex = with(&["नेपाली"]);
    assert_eq!(
        out(kosha_backed_dirgha_correction("नेपालि", &lex)),
        Some(("नेपाली".to_string(), Rule::VarnaVinyasNiyam("3(क)(ई)")))
    );
    let mut lex = Lexicon::new();
    lex.add_origin("दाजू", Origin::Tadbhav);
    assert_eq!(rule_kinship_tadbhav("दाजू", &lex).unwrap().output, "दाजु");
}

#[test]
fn chandrabindu_rule() {
    let mut lex = Lexicon::new();
    lex.add_origin("सिँह", Origin::Tatsam);
    assert_eq!(rule_chandrabindu("सिँह", &lex).unwrap().output, "सिंह");
    let mut lex = Lexicon::new();
    lex.add_origin("गाउं", Origin::Tadbhav);
    lex.add_word("गाउँ");
    assert_eq!(rule_chandrabindu("गाउं", &lex).unwrap().output, "गाउँ");
}

#[test]
fn sibilant_rule() {
    let mut lex = Lexicon::new();
    lex.add_origin("रजिष्टर", Origin::Aagantuk);
    lex.add_word("रजिस्टर");
    assert_eq!(
        out(rule_sibilant("रजिष्टर", &lex)),
        Some(("रजिस्टर".to_string(), Rule::VarnaVinyasNiyam("3(ग)(अ)-9")))
    );
    let mut lex = Lexicon::new();
    lex.add_origin("कसट", Origin::Tatsam);
    lex.add_origin("कस्ट", Origin::Tatsam);
    lex.add_word("कषट");
    lex.add_word("कष्ट");
    assert_eq!(
        out(rule_sibilant("कसट", &lex)),
        Some(("कषट".to_string(), Rule::VarnaVinyasNiyam("3(ग)(अ)-ष-1")))
    );
    assert!(rule_sibilant("कस्ट", &lex).is_none(), "the sibilant must stand right before ट");
}

#[test]
fn ba_va_rule() {
    let lex = with(&["विदेश"]);
    assert_eq!(
        out(rule_ba_va("बिदेश", &lex)),
        Some(("विदेश".to_string(), Rule::VarnaVinyasNiyam("3(ग)(आ)-व-1")))
    );
    assert_eq!(
        out(rule_ba_va("जाऊ", &Lexicon::new())),
        Some(("जाओ".to_string(), Rule::VarnaVinyasNiyam("3(ग)(आ)-ओ-2")))
    );
    assert!(rule_ba_va("विदेश", &lex).is_none());
    assert!(rule_ba_va("", &lex).is_none());
}

#[test]
fn ri_kri_rule() {
    let mut lex = Lexicon::new();
    lex.add_origin("रिषि", Origin::Tatsam);
    lex.add_origin("क्रिति", Origin::Tatsam);
    lex.add_word("ऋषि");
    lex.add_word("कृति");
    assert_eq!(
        out(rule_ri_kri("रिषि", &lex)),
        Some(("ऋषि".to_string(), Rule::VarnaVinyasNiyam("3(ग)(ई)-ऋ-1")))
    );
    assert_eq!(rule_ri_kri("क्रिति", &lex).unwrap().output, "कृति");
    lex.add_word("रिषि");
    assert!(rule_ri_kri("रिषि", &lex).is_none(), "attested input is left alone");
}

#[test]
fn ya_e_rule() {
    let lex = with(&["यथार्थ"]);
    assert_eq!(rule_ya_e("एथार्थ", &lex).unwrap().output, "यथार्थ");
    let lex = with(&["एकता"]);
    assert_eq!(
        out(rule_ya_e("यकता", &lex)),
        Some(("एकता".to_string(), Rule::VarnaVinyasNiyam("3(ग)(इ)-ए-5")))
    );
}

#[test]
fn ksha_chhya_rule() {
    let lex = with(&["लक्ष्य"]);
    assert_eq!(
        out(rule_ksha_chhya("लछ्य", &lex)),
        Some(("लक्ष्य".to_string(), Rule::VarnaVinyasNiyam("3(ग)(उ)-क्ष-1")))
    );
    let lex = with(&["क्षेत्र"]);
    assert_eq!(rule_ksha_chhya("छेत्र", &lex).unwrap().output, "क्षेत्र");
}

#[test]
fn gya_gyan_rule() {
    let lex = with(&["अज्ञान"]);
    assert_eq!(
        out(rule_gya_gyan("अग्यान", &lex)),
        Some(("अज्ञान".to_string(), Rule::VarnaVinyasNiyam("3(ग)(ऊ)-3")))
    );
    let lex = with(&["प्रज्ञा"]);
    assert_eq!(rule_gya_gyan("प्रग्या", &lex).unwrap().output, "प्रज्ञा");
}

#[test]
fn halanta_rule() {
    let mut lex = Lexicon::new();
    lex.add_origin("बुद्धिमान", Origin::Tatsam);
    assert_eq!(
        out(rule_halanta("बुद्धिमान", &lex)),
        Some(("बुद्धिमान्".to_string(), Rule::VarnaVinyasNiyam("3(ङ)-मान्")))
    );
    let lex = with(&["गर्छन्"]);
    assert_eq!(rule_halanta("गर्छन", &lex).unwrap().output, "गर्छन्");
    let lex = with(&["छ"]);
    assert!(rule_halanta("छ्", &lex).is_some());
}

#[test]
fn correction_table_lookup() {
    assert!(contains("अत्याधिक"));
    assert!(!contains("अत्यधिक"));
    let e = lookup("बिद्वान").unwrap();
    assert_eq!(e.correct, "विद्वान्");
    assert_eq!(e.rule, Rule::VarnaVinyasNiyam("3(ग)-बव"));
}

#[test]
fn panchham_for_each_stop_class() {
    assert_eq!(get_panchham_for('क'), Some('ङ'));
    assert_eq!(get_panchham_for('झ'), Some('ञ'));
    assert_eq!(get_panchham_for('ट'), Some('ण'));
    assert_eq!(get_panchham_for('ण'), Some('ण'));
    assert_eq!(get_panchham_for('त'), Some('न'));
    assert_eq!(get_panchham_for('म'), Some('म'));
    assert_eq!(get_panchham_for('य'), None);
    assert_eq!(write_panchham("कंटक"), "कण्टक");
    assert_eq!(write_panchham("संचार"), "सञ्चार");
    assert_eq!(write_panchham("संसार"), "संसार");
}

#[test]
fn shri_correction_leaves_nothing_to_correct() {
    let first = rule_shri_correction("श्रृङ्खला र श्रृङ्गार").unwrap();
    assert_eq!(first.output, "शृङ्खला र शृङ्गार");
    assert!(!first.output.contains("श्रृ"));
    assert!(rule_shri_correction(&first.output).is_none());
}

#[test]
fn empty_word_is_not_in_the_table() {
    assert!(lookup("").is_none());
    assert!(!contains(""));
}
