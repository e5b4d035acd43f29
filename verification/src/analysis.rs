//! Word analysis: the correction of a word, with notes that explain why a
//! word is wrong — or, by its origin class, why it is right.
use vstd::prelude::*;

use crate::engine::derivation;
use crate::lexicon::{Lexicon, Origin};
use crate::rule::{Rule, RuleView, StepView, steps_view};
use crate::text::{char_count, contains, contains_char, has_sub, last_char, owned};

verus! {

broadcast use vstd::string::group_string_axioms;

/// A note explaining why a word is right or wrong.
#[derive(Debug, Clone)]
pub struct RuleNote {
    /// The cited Academy rule.
    pub rule: Rule,
    /// Readable explanation.
    pub explanation: String,
}

/// The content of a [`RuleNote`].
pub ghost struct RuleNoteView {
    pub rule: RuleView,
    pub explanation: Seq<char>,
}

impl View for RuleNote {
    type V = RuleNoteView;

    open spec fn view(&self) -> RuleNoteView {
        RuleNoteView { rule: self.rule@, explanation: self.explanation@ }
    }
}

/// Notes by content.
pub open spec fn notes_view(v: Seq<RuleNote>) -> Seq<RuleNoteView> {
    v.map_values(|n: RuleNote| n@)
}

/// What a note template looks for in a word.
#[derive(Debug, Clone, Copy)]
pub enum NoteMarker {
    Always,
    ContainsChar(char),
    /// Any of the chars of the string.
    ContainsAny(&'static str),
    ContainsStr(&'static str),
    EndsWith(char),
    /// स without श or ष.
    DentyaSaOnly,
}

/// `word` contains one of the chars of `cs`.
pub open spec fn contains_any(word: Seq<char>, cs: Seq<char>) -> bool {
    exists|i: int| 0 <= i < cs.len() && word.contains(#[trigger] cs[i])
}

/// `word` shows the marker `m`.
pub open spec fn marker_holds(word: Seq<char>, m: NoteMarker) -> bool {
    match m {
        NoteMarker::Always => true,
        NoteMarker::ContainsChar(c) => word.contains(c),
        NoteMarker::ContainsAny(cs) => contains_any(word, cs@),
        NoteMarker::ContainsStr(s) => has_sub(word, s@),
        NoteMarker::EndsWith(c) => word.len() > 0 && word.last() == c,
        NoteMarker::DentyaSaOnly => word.contains('स') && !word.contains('श') && !word.contains('ष'),
    }
}

/// Whether `word` shows the marker `m`.
pub fn marker_matches(word: &str, m: NoteMarker) -> (r: bool)
    ensures
        r == marker_holds(word@, m),
{
    match m {
        NoteMarker::Always => true,
        NoteMarker::ContainsChar(c) => contains_char(word, c),
        NoteMarker::ContainsAny(cs) => {
            let v = crate::text::chars_of(cs);
            let mut i: usize = 0;
            while i < v.len()
                invariant
                    v@ == cs@,
                    m == NoteMarker::ContainsAny(cs),
                    i <= v.len(),
                    forall|j: int| 0 <= j < i ==> !word@.contains(#[trigger] cs@[j]),
                decreases v.len() - i,
            {
                if contains_char(word, v[i]) {
                    assert(cs@[i as int] == v@[i as int]);
                    assert(word@.contains(cs@[i as int]));
                    assert(contains_any(word@, cs@));
                    return true;
                }
                i = i + 1;
            }
            false
        },
        NoteMarker::ContainsStr(s) => contains(word, s),
        NoteMarker::EndsWith(c) => match last_char(word) {
            Some(l) => l == c,
            None => false,
        },
        NoteMarker::DentyaSaOnly => contains_char(word, 'स') && !contains_char(word, 'श')
            && !contains_char(word, 'ष'),
    }
}

/// A note that words of an origin class showing a marker receive.
#[derive(Debug, Clone, Copy)]
pub struct NoteTemplate {
    pub origin: Origin,
    pub marker: NoteMarker,
    pub rule: Rule,
    pub explanation: &'static str,
}

/// The note templates, in order.
pub open spec fn note_templates() -> Seq<NoteTemplate> {
    seq![
        NoteTemplate { origin: Origin::Tatsam, marker: NoteMarker::Always, rule: Rule::VarnaVinyasNiyam("3(क)"), explanation: "तत्सम (tatsam) शब्द: संस्कृतको मूल वर्णविन्यास कायम राख्नुपर्छ" },
        NoteTemplate { origin: Origin::Tatsam, marker: NoteMarker::ContainsAny("ऋृ"), rule: Rule::VarnaVinyasNiyam("3(ग)-ऋ"), explanation: "तत्सम शब्दमा ऋ/ृ संस्कृतबाट कायम" },
        NoteTemplate { origin: Origin::Tatsam, marker: NoteMarker::ContainsChar('ष'), rule: Rule::VarnaVinyasNiyam("3(ग)(अ)"), explanation: "तत्सम शब्दमा मूर्धन्य ष कायम" },
        NoteTemplate { origin: Origin::Tatsam, marker: NoteMarker::ContainsChar('श'), rule: Rule::VarnaVinyasNiyam("3(ग)(अ)"), explanation: "तत्सम शब्दमा तालव्य श कायम" },
        NoteTemplate { origin: Origin::Tatsam, marker: NoteMarker::ContainsAny("ीई"), rule: Rule::VarnaVinyasNiyam("3(क)(ई)"), explanation: "तत्सम शब्दमा दीर्घ ई/ी संस्कृतबाट कायम" },
        NoteTemplate { origin: Origin::Tatsam, marker: NoteMarker::ContainsAny("ूऊ"), rule: Rule::VarnaVinyasNiyam("3(क)(ऊ)"), explanation: "तत्सम शब्दमा दीर्घ ऊ/ू संस्कृतबाट कायम" },
        NoteTemplate { origin: Origin::Tatsam, marker: NoteMarker::ContainsStr("क्ष"), rule: Rule::VarnaVinyasNiyam("3(छ)-क्ष"), explanation: "तत्सम शब्दमा क्ष संयुक्त व्यञ्जन कायम" },
        NoteTemplate { origin: Origin::Tatsam, marker: NoteMarker::ContainsStr("ज्ञ"), rule: Rule::VarnaVinyasNiyam("3(छ)-ज्ञ"), explanation: "तत्सम शब्दमा ज्ञ संयुक्त व्यञ्जन कायम" },
        NoteTemplate { origin: Origin::Tatsam, marker: NoteMarker::ContainsAny("ङञण"), rule: Rule::VarnaVinyasNiyam("3(ख)-पञ्चम"), explanation: "तत्सम शब्दमा स्पर्श व्यञ्जन अघि पञ्चम वर्ण प्रयोग (Academy 3(ख)(अ))" },
        NoteTemplate { origin: Origin::Tatsam, marker: NoteMarker::EndsWith('्'), rule: Rule::VarnaVinyasNiyam("3(ङ)"), explanation: "तत्सम शब्दमा हलन्त चिह्न आवश्यक" },
        NoteTemplate { origin: Origin::Tadbhav, marker: NoteMarker::Always, rule: Rule::VarnaVinyasNiyam("3(क)"), explanation: "तद्भव (tadbhav) शब्द: संस्कृतबाट परिवर्तित, नेपाली ध्वनि नियम लागू" },
        NoteTemplate { origin: Origin::Tadbhav, marker: NoteMarker::ContainsAny("िु"), rule: Rule::VarnaVinyasNiyam("3(क)-12"), explanation: "तद्भव शब्दमा ह्रस्व स्वर प्रयोग हुन्छ" },
        NoteTemplate { origin: Origin::Tadbhav, marker: NoteMarker::ContainsChar('ँ'), rule: Rule::VarnaVinyasNiyam("3(ख)"), explanation: "तद्भव शब्दमा चन्द्रबिन्दु (ँ) प्रयोग हुन्छ" },
        NoteTemplate { origin: Origin::Deshaj, marker: NoteMarker::Always, rule: Rule::VarnaVinyasNiyam("3(क)"), explanation: "देशज (deshaj) शब्द: मूल नेपाली शब्द, ह्रस्व नियम लागू" },
        NoteTemplate { origin: Origin::Aagantuk, marker: NoteMarker::Always, rule: Rule::VarnaVinyasNiyam("3(ग)(अ)-9"), explanation: "आगन्तुक (aagantuk) शब्द: विदेशी शब्दमा 'स' मात्र प्रयोग हुन्छ" },
        NoteTemplate { origin: Origin::Aagantuk, marker: NoteMarker::DentyaSaOnly, rule: Rule::VarnaVinyasNiyam("3(ग)(अ)-9"), explanation: "आगन्तुक शब्दमा दन्त्य स को शुद्ध प्रयोग" },
    ]
}

fn note_template(k: usize) -> (t: NoteTemplate)
    requires
        k < 16,
    ensures
        t == note_templates()[k as int],
{
    match k {
        0 => NoteTemplate { origin: Origin::Tatsam, marker: NoteMarker::Always, rule: Rule::VarnaVinyasNiyam("3(क)"), explanation: "तत्सम (tatsam) शब्द: संस्कृतको मूल वर्णविन्यास कायम राख्नुपर्छ" },
        1 => NoteTemplate { origin: Origin::Tatsam, marker: NoteMarker::ContainsAny("ऋृ"), rule: Rule::VarnaVinyasNiyam("3(ग)-ऋ"), explanation: "तत्सम शब्दमा ऋ/ृ संस्कृतबाट कायम" },
        2 => NoteTemplate { origin: Origin::Tatsam, marker: NoteMarker::ContainsChar('ष'), rule: Rule::VarnaVinyasNiyam("3(ग)(अ)"), explanation: "तत्सम शब्दमा मूर्धन्य ष कायम" },
        3 => NoteTemplate { origin: Origin::Tatsam, marker: NoteMarker::ContainsChar('श'), rule: Rule::VarnaVinyasNiyam("3(ग)(अ)"), explanation: "तत्सम शब्दमा तालव्य श कायम" },
        4 => NoteTemplate { origin: Origin::Tatsam, marker: NoteMarker::ContainsAny("ीई"), rule: Rule::VarnaVinyasNiyam("3(क)(ई)"), explanation: "तत्सम शब्दमा दीर्घ ई/ी संस्कृतबाट कायम" },
        5 => NoteTemplate { origin: Origin::Tatsam, marker: NoteMarker::ContainsAny("ूऊ"), rule: Rule::VarnaVinyasNiyam("3(क)(ऊ)"), explanation: "तत्सम शब्दमा दीर्घ ऊ/ू संस्कृतबाट कायम" },
        6 => NoteTemplate { origin: Origin::Tatsam, marker: NoteMarker::ContainsStr("क्ष"), rule: Rule::VarnaVinyasNiyam("3(छ)-क्ष"), explanation: "तत्सम शब्दमा क्ष संयुक्त व्यञ्जन कायम" },
        7 => NoteTemplate { origin: Origin::Tatsam, marker: NoteMarker::ContainsStr("ज्ञ"), rule: Rule::VarnaVinyasNiyam("3(छ)-ज्ञ"), explanation: "तत्सम शब्दमा ज्ञ संयुक्त व्यञ्जन कायम" },
        8 => NoteTemplate { origin: Origin::Tatsam, marker: NoteMarker::ContainsAny("ङञण"), rule: Rule::VarnaVinyasNiyam("3(ख)-पञ्चम"), explanation: "तत्सम शब्दमा स्पर्श व्यञ्जन अघि पञ्चम वर्ण प्रयोग (Academy 3(ख)(अ))" },
        9 => NoteTemplate { origin: Origin::Tatsam, marker: NoteMarker::EndsWith('्'), rule: Rule::VarnaVinyasNiyam("3(ङ)"), explanation: "तत्सम शब्दमा हलन्त चिह्न आवश्यक" },
        10 => NoteTemplate { origin: Origin::Tadbhav, marker: NoteMarker::Always, rule: Rule::VarnaVinyasNiyam("3(क)"), explanation: "तद्भव (tadbhav) शब्द: संस्कृतबाट परिवर्तित, नेपाली ध्वनि नियम लागू" },
        11 => NoteTemplate { origin: Origin::Tadbhav, marker: NoteMarker::ContainsAny("िु"), rule: Rule::VarnaVinyasNiyam("3(क)-12"), explanation: "तद्भव शब्दमा ह्रस्व स्वर प्रयोग हुन्छ" },
        12 => NoteTemplate { origin: Origin::Tadbhav, marker: NoteMarker::ContainsChar('ँ'), rule: Rule::VarnaVinyasNiyam("3(ख)"), explanation: "तद्भव शब्दमा चन्द्रबिन्दु (ँ) प्रयोग हुन्छ" },
        13 => NoteTemplate { origin: Origin::Deshaj, marker: NoteMarker::Always, rule: Rule::VarnaVinyasNiyam("3(क)"), explanation: "देशज (deshaj) शब्द: मूल नेपाली शब्द, ह्रस्व नियम लागू" },
        14 => NoteTemplate { origin: Origin::Aagantuk, marker: NoteMarker::Always, rule: Rule::VarnaVinyasNiyam("3(ग)(अ)-9"), explanation: "आगन्तुक (aagantuk) शब्द: विदेशी शब्दमा 'स' मात्र प्रयोग हुन्छ" },
        _ => NoteTemplate { origin: Origin::Aagantuk, marker: NoteMarker::DentyaSaOnly, rule: Rule::VarnaVinyasNiyam("3(ग)(अ)-9"), explanation: "आगन्तुक शब्दमा दन्त्य स को शुद्ध प्रयोग" },
    }
}

/// The notes that a correct word of origin `origin` receives from the first `k` templates.
pub open spec fn correct_notes_upto(word: Seq<char>, origin: Origin, k: int) -> Seq<RuleNoteView>
    decreases k,
{
    if k <= 0 {
        seq![]
    } else {
        let prev = correct_notes_upto(word, origin, k - 1);
        let t = note_templates()[k - 1];
        if t.origin == origin && marker_holds(word, t.marker) {
            prev.push(RuleNoteView { rule: t.rule@, explanation: t.explanation@ })
        } else {
            prev
        }
    }
}

/// The notes that a correct word of origin `origin` receives, in template order.
pub open spec fn correct_notes(word: Seq<char>, origin: Origin) -> Seq<RuleNoteView> {
    correct_notes_upto(word, origin, 16)
}

/// The notes from the first `k` templates cite `r` exactly when one of those
/// templates for `origin` whose marker the word shows cites `r`.
proof fn lemma_notes_upto_cite(word: Seq<char>, origin: Origin, k: int, r: RuleView)
    requires
        0 <= k <= 16,
    ensures
        (exists|i: int|
            0 <= i < correct_notes_upto(word, origin, k).len() && (#[trigger] correct_notes_upto(
                word,
                origin,
                k,
            )[i]).rule == r) <==> (exists|j: int|
            0 <= j < k && (#[trigger] note_templates()[j]).origin == origin && marker_holds(
                word,
                note_templates()[j].marker,
            ) && note_templates()[j].rule@ == r),
    decreases k,
{
    if k > 0 {
        lemma_notes_upto_cite(word, origin, k - 1, r);
        let prev = correct_notes_upto(word, origin, k - 1);
        let cur = correct_notes_upto(word, origin, k);
        let t = note_templates()[k - 1];
        if exists|i: int| 0 <= i < cur.len() && (#[trigger] cur[i]).rule == r {
            let i = choose|i: int| 0 <= i < cur.len() && (#[trigger] cur[i]).rule == r;
            if i < prev.len() {
                assert(cur[i] == prev[i]);
                let j = choose|j: int|
                    0 <= j < k - 1 && (#[trigger] note_templates()[j]).origin == origin && marker_holds(
                        word,
                        note_templates()[j].marker,
                    ) && note_templates()[j].rule@ == r;
                assert(0 <= j < k);
            } else {
                assert(note_templates()[k - 1].origin == origin);
            }
        }
        if exists|j: int|
            0 <= j < k && (#[trigger] note_templates()[j]).origin == origin && marker_holds(
                word,
                note_templates()[j].marker,
            ) && note_templates()[j].rule@ == r {
            let j = choose|j: int|
                0 <= j < k && (#[trigger] note_templates()[j]).origin == origin && marker_holds(
                    word,
                    note_templates()[j].marker,
                ) && note_templates()[j].rule@ == r;
            if j < k - 1 {
                let i = choose|i: int| 0 <= i < prev.len() && (#[trigger] prev[i]).rule == r;
                assert(cur[i] == prev[i]);
            } else {
                assert(cur[cur.len() - 1].rule == r);
            }
        }
    }
}

/// A tatsam word gets the halanta note (3(ङ)) exactly when it ends in a
/// halanta; a halanta inside the word earns no such note.
pub proof fn lemma_halanta_note_only_for_final_halanta(word: Seq<char>)
    ensures
        (exists|i: int|
            0 <= i < correct_notes(word, Origin::Tatsam).len() && (#[trigger] correct_notes(
                word,
                Origin::Tatsam,
            )[i]).rule == RuleView::VarnaVinyasNiyam("3(ङ)"@)) <==> (word.len() > 0 && word.last()
            == '्'),
{
    reveal_strlit("3(क)");
    reveal_strlit("3(ग)-ऋ");
    reveal_strlit("3(ग)(अ)");
    reveal_strlit("3(क)(ई)");
    reveal_strlit("3(क)(ऊ)");
    reveal_strlit("3(छ)-क्ष");
    reveal_strlit("3(छ)-ज्ञ");
    reveal_strlit("3(ख)-पञ्चम");
    reveal_strlit("3(ङ)");
    reveal_strlit("3(क)-12");
    reveal_strlit("3(ख)");
    reveal_strlit("3(ग)(अ)-9");
    let r = RuleView::VarnaVinyasNiyam("3(ङ)"@);
    lemma_notes_upto_cite(word, Origin::Tatsam, 16, r);
    assert forall|j: int| 0 <= j < 16 && (#[trigger] note_templates()[j]).rule@ == r implies j == 9 by {
        if j == 0 {
            assert(note_templates()[0].rule@ == RuleView::VarnaVinyasNiyam("3(क)"@));
            assert("3(क)"@[2] != "3(ङ)"@[2]);
        } else if j == 1 {
            assert(note_templates()[1].rule@ == RuleView::VarnaVinyasNiyam("3(ग)-ऋ"@));
            assert("3(ग)-ऋ"@[2] != "3(ङ)"@[2]);
        } else if j == 2 {
            assert(note_templates()[2].rule@ == RuleView::VarnaVinyasNiyam("3(ग)(अ)"@));
            assert("3(ग)(अ)"@[2] != "3(ङ)"@[2]);
        } else if j == 3 {
            assert(note_templates()[3].rule@ == RuleView::VarnaVinyasNiyam("3(ग)(अ)"@));
            assert("3(ग)(अ)"@[2] != "3(ङ)"@[2]);
        } else if j == 4 {
            assert(note_templates()[4].rule@ == RuleView::VarnaVinyasNiyam("3(क)(ई)"@));
            assert("3(क)(ई)"@[2] != "3(ङ)"@[2]);
        } else if j == 5 {
            assert(note_templates()[5].rule@ == RuleView::VarnaVinyasNiyam("3(क)(ऊ)"@));
            assert("3(क)(ऊ)"@[2] != "3(ङ)"@[2]);
        } else if j == 6 {
            assert(note_templates()[6].rule@ == RuleView::VarnaVinyasNiyam("3(छ)-क्ष"@));
            assert("3(छ)-क्ष"@[2] != "3(ङ)"@[2]);
        } else if j == 7 {
            assert(note_templates()[7].rule@ == RuleView::VarnaVinyasNiyam("3(छ)-ज्ञ"@));
            assert("3(छ)-ज्ञ"@[2] != "3(ङ)"@[2]);
        } else if j == 8 {
            assert(note_templates()[8].rule@ == RuleView::VarnaVinyasNiyam("3(ख)-पञ्चम"@));
            assert("3(ख)-पञ्चम"@[2] != "3(ङ)"@[2]);
        } else if j == 9 {
            assert(note_templates()[9].rule@ == RuleView::VarnaVinyasNiyam("3(ङ)"@));
        } else if j == 10 {
            assert(note_templates()[10].rule@ == RuleView::VarnaVinyasNiyam("3(क)"@));
            assert("3(क)"@[2] != "3(ङ)"@[2]);
        } else if j == 11 {
            assert(note_templates()[11].rule@ == RuleView::VarnaVinyasNiyam("3(क)-12"@));
            assert("3(क)-12"@[2] != "3(ङ)"@[2]);
        } else if j == 12 {
            assert(note_templates()[12].rule@ == RuleView::VarnaVinyasNiyam("3(ख)"@));
            assert("3(ख)"@[2] != "3(ङ)"@[2]);
        } else if j == 13 {
            assert(note_templates()[13].rule@ == RuleView::VarnaVinyasNiyam("3(क)"@));
            assert("3(क)"@[2] != "3(ङ)"@[2]);
        } else if j == 14 {
            assert(note_templates()[14].rule@ == RuleView::VarnaVinyasNiyam("3(ग)(अ)-9"@));
            assert("3(ग)(अ)-9"@[2] != "3(ङ)"@[2]);
        } else if j == 15 {
            assert(note_templates()[15].rule@ == RuleView::VarnaVinyasNiyam("3(ग)(अ)-9"@));
            assert("3(ग)(अ)-9"@[2] != "3(ङ)"@[2]);
        }
    }
    assert(note_templates()[9].marker == NoteMarker::EndsWith('्'));
    assert(note_templates()[9].origin == Origin::Tatsam);
    if word.len() > 0 && word.last() == '्' {
        assert(note_templates()[9].rule@ == r);
        assert(marker_holds(word, note_templates()[9].marker));
    }
}

/// A word shows the marker "ends with `c`" exactly when it is some word
/// followed by `c`.
pub proof fn lemma_ends_with_marker(word: Seq<char>, c: char)
    ensures
        marker_holds(word, NoteMarker::EndsWith(c)) <==> exists|p: Seq<char>| #[trigger] p.push(c) == word,
{
    if word.len() > 0 && word.last() == c {
        assert(word.drop_last().push(c) =~= word);
    }
    if exists|p: Seq<char>| #[trigger] p.push(c) == word {
        let p = choose|p: Seq<char>| #[trigger] p.push(c) == word;
        assert(word.last() == c);
    }
}

/// Append the explanatory notes for a word that is already correct.
pub fn generate_correct_notes(word: &str, origin: Origin, notes: &mut Vec<RuleNote>)
    ensures
        notes_view(final(notes)@) == notes_view(old(notes)@) + correct_notes(word@, origin),
{
    let ghost base = notes_view(notes@);
    let mut k: usize = 0;
    assert(base + Seq::<RuleNoteView>::empty() =~= base);
    while k < 16
        invariant
            k <= 16,
            notes_view(notes@) == base + correct_notes_upto(word@, origin, k as int),
        decreases 16 - k,
    {
        let t = note_template(k);
        if t.origin == origin && marker_matches(word, t.marker) {
            let ghost n0 = notes@;
            notes.push(RuleNote { rule: t.rule, explanation: owned(t.explanation) });
            assert(notes_view(notes@) =~= notes_view(n0).push(RuleNoteView { rule: t.rule@, explanation: t.explanation@ }));
        }
        k = k + 1;
    }
}

/// The analysis of a word.
#[derive(Debug, Clone)]
pub struct WordAnalysis {
    /// The input word.
    pub word: String,
    /// The origin class of the word, when the lexicon records one.
    pub origin: Option<Origin>,
    /// Whether the word is spelled correctly.
    pub is_correct: bool,
    /// The suggested correction, if any.
    pub correction: Option<String>,
    /// Notes citing the Academy rules.
    pub rule_notes: Vec<RuleNote>,
}

/// The notes that the steps of a derivation give.
pub open spec fn step_notes(steps: Seq<StepView>) -> Seq<RuleNoteView> {
    steps.map_values(|s: StepView| RuleNoteView { rule: s.rule, explanation: s.description })
}

/// The notes of the analysis of `w`.
pub open spec fn analysis_notes(w: Seq<char>, lex: Lexicon) -> Seq<RuleNoteView> {
    if w.len() == 0 {
        seq![]
    } else if derivation(w, lex).is_correct {
        match lex.origin_of(w) {
            Some(o) => correct_notes(w, o),
            None => seq![],
        }
    } else {
        step_notes(derivation(w, lex).steps)
    }
}

/// Analyse a word: derive its correction and explain the verdict with rule
/// notes — the derivation's steps for a wrong word, the notes of its origin
/// class for a correct one.
pub fn analyze(input: &str, lex: &Lexicon) -> (a: WordAnalysis)
    ensures
        a.word@ == input@,
        input@.len() == 0 ==> a.origin == Some(Origin::Deshaj) && a.is_correct && a.correction is None,
        input@.len() > 0 ==> a.origin == lex.origin_of(input@),
        input@.len() > 0 ==> a.is_correct == derivation(input@, *lex).is_correct,
        input@.len() > 0 && derivation(input@, *lex).is_correct ==> a.correction is None,
        input@.len() > 0 && !derivation(input@, *lex).is_correct ==> (a.correction matches Some(c)
            && c@ == derivation(input@, *lex).output),
        notes_view(a.rule_notes@) == analysis_notes(input@, *lex),
{
    if char_count(input) == 0 {
        let a = WordAnalysis {
            word: owned(input),
            origin: Some(Origin::Deshaj),
            is_correct: true,
            correction: None,
            rule_notes: Vec::new(),
        };
        assert(notes_view(a.rule_notes@) =~= Seq::<RuleNoteView>::empty());
        return a;
    }
    let origin = lex.classify(input);
    let p = crate::engine::derive(input, lex);
    let mut notes: Vec<RuleNote> = Vec::new();
    if p.is_correct {
        match origin {
            Some(o) => {
                generate_correct_notes(input, o, &mut notes);
                assert(notes_view(notes@) =~= correct_notes(input@, o));
            },
            None => {
                assert(notes_view(notes@) =~= Seq::<RuleNoteView>::empty());
            },
        }
    } else {
        let mut i: usize = 0;
        while i < p.steps.len()
            invariant
                i <= p.steps.len(),
                notes_view(notes@) == step_notes(steps_view(p.steps@).take(i as int)),
            decreases p.steps.len() - i,
        {
            let ghost n0 = notes@;
            let s = &p.steps[i];
            notes.push(RuleNote { rule: s.rule, explanation: owned(s.description.as_str()) });
            proof {
                assert(steps_view(p.steps@)[i as int] == s@);
                assert(steps_view(p.steps@).take(i + 1) =~= steps_view(p.steps@).take(i as int).push(s@));
                assert(notes_view(notes@) =~= notes_view(n0).push(RuleNoteView { rule: s.rule@, explanation: s.description@ }));
                assert(notes_view(notes@) =~= step_notes(steps_view(p.steps@).take(i + 1)));
            }
            i = i + 1;
        }
        assert(steps_view(p.steps@).take(i as int) =~= steps_view(p.steps@));
    }
    let correction = if p.is_correct {
        None
    } else {
        Some(owned(p.output.as_str()))
    };
    WordAnalysis { word: owned(input), origin, is_correct: p.is_correct, correction, rule_notes: notes }
}

} // verus!
