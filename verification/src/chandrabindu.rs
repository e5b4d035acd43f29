//! Academy 3(ख): chandrabindu (ँ) and shirbindu (ं) by word origin.
use vstd::prelude::*;

use crate::lexicon::{Lexicon, Origin};
use crate::rule::{Fix, Prakriya, Rule, one_step, realizes, vfix};
use crate::text::{chars_of, contains_char, lemma_replace_one_char, replace, replace_all, string_of};

verus! {

broadcast use vstd::string::group_string_axioms;

/// A stop consonant (स्पर्श व्यञ्जन), including the class nasals.
pub open spec fn is_stop(c: char) -> bool {
    c == 'क' || c == 'ख' || c == 'ग' || c == 'घ' || c == 'ङ' || c == 'च' || c == 'छ' || c == 'ज'
        || c == 'झ' || c == 'ञ' || c == 'ट' || c == 'ठ' || c == 'ड' || c == 'ढ' || c == 'ण'
        || c == 'त' || c == 'थ' || c == 'द' || c == 'ध' || c == 'न' || c == 'प' || c == 'फ'
        || c == 'ब' || c == 'भ' || c == 'म'
}

/// Whether `c` is a stop consonant.
pub fn is_stop_consonant(c: char) -> (r: bool)
    ensures
        r == is_stop(c),
{
    c == 'क' || c == 'ख' || c == 'ग' || c == 'घ' || c == 'ङ' || c == 'च' || c == 'छ' || c == 'ज'
        || c == 'झ' || c == 'ञ' || c == 'ट' || c == 'ठ' || c == 'ड' || c == 'ढ' || c == 'ण'
        || c == 'त' || c == 'थ' || c == 'द' || c == 'ध' || c == 'न' || c == 'प' || c == 'फ'
        || c == 'ब' || c == 'भ' || c == 'म'
}

/// The shirbindu at index `i` of `s` should become a chandrabindu: it is
/// final after े/ौ, or the word is unattested and the chandrabindu form is attested.
pub open spec fn should_replace(s: Seq<char>, i: int, lex: Lexicon) -> bool {
    if i + 1 == s.len() && i > 0 && (s[i - 1] == 'े' || s[i - 1] == 'ौ') {
        true
    } else {
        !lex.has_word(s) && lex.has_word(s.update(i, 'ँ'))
    }
}

/// `s` with each shirbindu that is not before a stop and should be replaced
/// written as chandrabindu.
pub open spec fn chandrabindu_form(s: Seq<char>, lex: Lexicon) -> Seq<char> {
    Seq::new(
        s.len(),
        |i: int|
            if s[i] == 'ं' && !(i + 1 < s.len() && is_stop(s[i + 1])) && should_replace(s, i, lex) {
                'ँ'
            } else {
                s[i]
            },
    )
}

/// The chandrabindu rule only trades one nasal sign for the other: in a
/// tatsam word every ँ becomes ं and nothing else changes; in any other word
/// some ं become ँ, never one before a stop consonant, and nothing else
/// changes. A tadbhav or deshaj word ending in ं after े or ौ always gets
/// its final ँ.
pub proof fn lemma_chandrabindu_trades_nasal_signs(w: Seq<char>, lex: Lexicon)
    ensures
        chandrabindu_fix(w, lex) matches Some(f) ==> {
            &&& f.output.len() == w.len()
            &&& lex.origin_of(w) == Some(Origin::Tatsam) ==> (forall|i: int|
                0 <= i < w.len() ==> #[trigger] f.output[i] == if w[i] == 'ँ' {
                    'ं'
                } else {
                    w[i]
                })
            &&& lex.origin_of(w) != Some(Origin::Tatsam) ==> (forall|i: int|
                0 <= i < w.len() ==> #[trigger] f.output[i] == w[i] || (w[i] == 'ं' && f.output[i]
                    == 'ँ' && !(i + 1 < w.len() && is_stop(w[i + 1]))))
        },
        ((lex.origin_of(w) == Some(Origin::Tadbhav) || lex.origin_of(w) == Some(Origin::Deshaj))
            && w.len() >= 2 && w.last() == 'ं' && (w[w.len() - 2] == 'े' || w[w.len() - 2] == 'ौ'))
            ==> (chandrabindu_fix(w, lex) matches Some(f) && f.output.last() == 'ँ'),
{
    lemma_replace_one_char(w, 'ँ', 'ं');
    if w.len() >= 2 && w.last() == 'ं' {
        let n = w.len() as int;
        let c = chandrabindu_form(w, lex);
        assert(c[n - 1] == 'ँ' <== (w[n - 2] == 'े' || w[n - 2] == 'ौ'));
    }
}

/// Decision of Academy 3(ख): tatsam words write ं, not ँ; tadbhav, deshaj and
/// aagantuk words write ँ for nasalisation.
pub open spec fn chandrabindu_fix(input: Seq<char>, lex: Lexicon) -> Option<Fix> {
    match lex.origin_of(input) {
        Some(Origin::Tatsam) => if input.contains('ँ') {
            vfix(
                replace_all(input, seq!['ँ'], seq!['ं']),
                "3(ख)"@,
                "तत्सम शब्दमा शिरबिन्दु (ं) प्रयोग हुन्छ, चन्द्रबिन्दु (ँ) होइन"@,
            )
        } else {
            None
        },
        Some(Origin::Tadbhav) | Some(Origin::Deshaj) => if chandrabindu_form(input, lex) != input {
            vfix(
                chandrabindu_form(input, lex),
                "3(ख)"@,
                "तद्भव/देशज शब्दमा चन्द्रबिन्दु (ँ) प्रयोग हुन्छ, शिरबिन्दु (ं) होइन"@,
            )
        } else {
            None
        },
        Some(Origin::Aagantuk) => if chandrabindu_form(input, lex) != input {
            vfix(
                chandrabindu_form(input, lex),
                "3(ख)"@,
                "आगन्तुक शब्दमा अनुनासिकमा चन्द्रबिन्दु (ँ) प्रयोग हुन्छ"@,
            )
        } else {
            None
        },
        None => None,
    }
}

fn should_replace_shirbindu(input: &str, chars: &Vec<char>, idx: usize, lex: &Lexicon) -> (r: bool)
    requires
        chars@ == input@,
        idx < chars.len(),
    ensures
        r == should_replace(input@, idx as int, *lex),
{
    if idx + 1 == chars.len() && idx > 0 && (chars[idx - 1] == 'े' || chars[idx - 1] == 'ौ') {
        return true;
    }
    if lex.contains(input) {
        return false;
    }
    let mut candidate = chars.clone();
    candidate.set(idx, 'ँ');
    let cand = string_of(&candidate);
    lex.contains(cand.as_str())
}

/// The chandrabindu form of a word, and whether it differs from the word.
fn chandrabindu_rewrite(input: &str, lex: &Lexicon) -> (r: (Vec<char>, bool))
    ensures
        r.0@ == chandrabindu_form(input@, *lex),
        r.1 == (chandrabindu_form(input@, *lex) != input@),
{
    let chars = chars_of(input);
    let ghost form = chandrabindu_form(input@, *lex);
    let mut out: Vec<char> = Vec::new();
    let mut changed = false;
    let mut i: usize = 0;
    while i < chars.len()
        invariant
            chars@ == input@,
            i <= chars.len(),
            form == chandrabindu_form(input@, *lex),
            out@ == form.take(i as int),
            changed == (exists|j: int| 0 <= j < i && #[trigger] form[j] != input@[j]),
        decreases chars.len() - i,
    {
        let mut c = chars[i];
        if chars[i] == 'ं' {
            let before_stop = i + 1 < chars.len() && is_stop_consonant(chars[i + 1]);
            if !before_stop && should_replace_shirbindu(input, &chars, i, lex) {
                c = 'ँ';
                changed = true;
            }
        }
        proof {
            assert(form[i as int] == c);
            if form[i as int] != input@[i as int] {
                assert(form[i as int] != input@[i as int]);
            }
            assert(changed == (exists|j: int| 0 <= j < i + 1 && #[trigger] form[j] != input@[j]));
        }
        out.push(c);
        i = i + 1;
        assert(out@ =~= form.take(i as int));
    }
    assert(out@ =~= chandrabindu_form(input@, *lex));
    proof {
        if !changed {
            assert(chandrabindu_form(input@, *lex) =~= input@);
        }
    }
    (out, changed)
}

/// Academy 3(ख): chandrabindu/shirbindu by word origin.
pub fn rule_chandrabindu(input: &str, lex: &Lexicon) -> (r: Option<Prakriya>)
    ensures
        realizes(r, input@, chandrabindu_fix(input@, *lex)),
{
    match lex.classify(input) {
        Some(Origin::Tatsam) => {
            if contains_char(input, 'ँ') {
                proof {
                    reveal_strlit("ँ");
                    reveal_strlit("ं");
                    assert("ँ"@ =~= seq!['ँ']);
                    assert("ं"@ =~= seq!['ं']);
                }
                let output = replace(input, "ँ", "ं");
                return Some(
                    one_step(
                        input,
                        output.as_str(),
                        Rule::VarnaVinyasNiyam("3(ख)"),
                        "तत्सम शब्दमा शिरबिन्दु (ं) प्रयोग हुन्छ, चन्द्रबिन्दु (ँ) होइन",
                    ),
                );
            }
            None
        },
        Some(Origin::Tadbhav) | Some(Origin::Deshaj) => {
            let (out, changed) = chandrabindu_rewrite(input, lex);
            if changed {
                let output = string_of(&out);
                return Some(
                    one_step(
                        input,
                        output.as_str(),
                        Rule::VarnaVinyasNiyam("3(ख)"),
                        "तद्भव/देशज शब्दमा चन्द्रबिन्दु (ँ) प्रयोग हुन्छ, शिरबिन्दु (ं) होइन",
                    ),
                );
            }
            None
        },
        Some(Origin::Aagantuk) => {
            let (out, changed) = chandrabindu_rewrite(input, lex);
            if changed {
                let output = string_of(&out);
                return Some(
                    one_step(
                        input,
                        output.as_str(),
                        Rule::VarnaVinyasNiyam("3(ख)"),
                        "आगन्तुक शब्दमा अनुनासिकमा चन्द्रबिन्दु (ँ) प्रयोग हुन्छ",
                    ),
                );
            }
            None
        },
        None => None,
    }
}

} // verus!
