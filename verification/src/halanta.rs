//! Academy 3(ङ): halanta (्) on verb endings and tatsam suffixes.
use vstd::prelude::*;

use crate::lexicon::Lexicon;
use crate::rule::{Fix, Prakriya, Rule, one_step, realizes, vfix};
use crate::text::{char_count, ends_with, is_suffix, replace_tail, strip_suffix};

verus! {

broadcast use vstd::string::group_string_axioms;

/// `input` with the suffix `wrong` replaced by `right`.
pub open spec fn swap_suffix(input: Seq<char>, wrong: Seq<char>, right: Seq<char>) -> Seq<char> {
    strip_suffix(input, wrong) + right
}

/// A finite verb in …छ् is written without the halanta when the plain form
/// is attested and the halanta form is not.
pub open spec fn finite_chha_fix(input: Seq<char>, lex: Lexicon) -> Option<Fix> {
    if is_suffix("छ्"@, input) && lex.has_word(swap_suffix(input, "छ्"@, "छ"@)) && !lex.has_word(
        input,
    ) {
        vfix(
            swap_suffix(input, "छ्"@, "छ"@),
            "3(ङ)-अजन्त-5"@,
            "समापक क्रियापदको अन्त्यमा हलन्त लेखिँदैन (…छ)"@,
        )
    } else {
        None
    }
}

/// A verb ending `wrong` takes the halanta form `right` when that form is attested.
pub open spec fn verb_ending_fix(
    input: Seq<char>,
    lex: Lexicon,
    wrong: Seq<char>,
    right: Seq<char>,
    code: Seq<char>,
    desc: Seq<char>,
) -> Option<Fix> {
    if is_suffix(wrong, input) && lex.has_word(swap_suffix(input, wrong, right)) {
        vfix(swap_suffix(input, wrong, right), code, desc)
    } else {
        None
    }
}

/// A tatsam suffix `wrong` takes its halanta form `right`, unless the word is
/// attested as written and the halanta form is not.
pub open spec fn tatsam_suffix_fix(
    input: Seq<char>,
    lex: Lexicon,
    wrong: Seq<char>,
    right: Seq<char>,
    code: Seq<char>,
    desc: Seq<char>,
) -> Option<Fix> {
    if lex.has_word(input) && !lex.has_word(swap_suffix(input, wrong, right)) {
        None
    } else {
        vfix(swap_suffix(input, wrong, right), code, desc)
    }
}

/// Decision of Academy 3(ङ): the first of the halanta corrections that applies.
pub open spec fn halanta_fix(input: Seq<char>, lex: Lexicon) -> Option<Fix> {
    if finite_chha_fix(input, lex) is Some {
        finite_chha_fix(input, lex)
    } else if verb_ending_fix(input, lex, "छस"@, "छस्"@, "3(ङ)-2"@, "क्रियापदमा हलन्त: छस -> छस्"@) is Some {
        verb_ending_fix(input, lex, "छस"@, "छस्"@, "3(ङ)-2"@, "क्रियापदमा हलन्त: छस -> छस्"@)
    } else if verb_ending_fix(input, lex, "छन"@, "छन्"@, "3(ङ)-3"@, "क्रियापदमा हलन्त: छन -> छन्"@) is Some {
        verb_ending_fix(input, lex, "छन"@, "छन्"@, "3(ङ)-3"@, "क्रियापदमा हलन्त: छन -> छन्"@)
    } else if verb_ending_fix(input, lex, "इस"@, "इस्"@, "3(ङ)-2"@, "क्रियापदमा हलन्त: इस -> इस्"@) is Some {
        verb_ending_fix(input, lex, "इस"@, "इस्"@, "3(ङ)-2"@, "क्रियापदमा हलन्त: इस -> इस्"@)
    } else if !lex.is_tatsam(input) {
        None
    } else if is_suffix("मान"@, input) {
        tatsam_suffix_fix(
            input,
            lex,
            "मान"@,
            "मान्"@,
            "3(ङ)-मान्"@,
            "तत्सम प्रत्ययमा हलन्त हुन्छ: मान -> मान्"@,
        )
    } else if is_suffix("वान"@, input) {
        tatsam_suffix_fix(
            input,
            lex,
            "वान"@,
            "वान्"@,
            "3(ङ)-वान्"@,
            "तत्सम प्रत्ययमा हलन्त हुन्छ: वान -> वान्"@,
        )
    } else if is_suffix("वत"@, input) {
        tatsam_suffix_fix(
            input,
            lex,
            "वत"@,
            "वत्"@,
            "3(ङ)-वत्"@,
            "तत्सम प्रत्ययमा हलन्त हुन्छ: वत -> वत्"@,
        )
    } else {
        None
    }
}

proof fn lemma_suffix_chars(w: Seq<char>, suf: Seq<char>)
    requires
        is_suffix(suf, w),
    ensures
        forall|k: int| 0 <= k < suf.len() ==> #[trigger] w[w.len() - suf.len() + k] == suf[k],
{
    assert forall|k: int| 0 <= k < suf.len() implies #[trigger] w[w.len() - suf.len() + k] == suf[k] by {
        assert(w.subrange(w.len() - suf.len(), w.len() as int)[k] == w[w.len() - suf.len() + k]);
    }
}

proof fn lemma_swap_adds_halanta(w: Seq<char>, wrong: Seq<char>, right: Seq<char>)
    requires
        is_suffix(wrong, w),
        right == wrong.push('्'),
    ensures
        swap_suffix(w, wrong, right) == w.push('्'),
{
    assert(w.take(w.len() - wrong.len()) + wrong =~= w) by {
        lemma_suffix_chars(w, wrong);
    }
    assert(swap_suffix(w, wrong, right) =~= w.push('्'));
}

/// The halanta rule only ever adds a final halanta, or drops the final
/// halanta of a finite verb in …छ्; and a tatsam word ending in -मान, -वान
/// or -वत always gets its halanta, unless it is attested as written and the
/// halanta form is not.
pub proof fn lemma_halanta_adds_or_drops_final_halanta(w: Seq<char>, lex: Lexicon)
    ensures
        halanta_fix(w, lex) matches Some(f) ==> (f.output == w.push('्') || (w.len() > 0 && w.last()
            == '्' && f.output == w.drop_last())),
        (lex.is_tatsam(w) && (is_suffix("मान"@, w) || is_suffix("वान"@, w) || is_suffix("वत"@, w))
            && !(lex.has_word(w) && !lex.has_word(w.push('्')))) ==> (halanta_fix(w, lex) matches Some(f)
            && f.output == w.push('्')),
{
    reveal_strlit("छ्");
    reveal_strlit("छ");
    reveal_strlit("छस");
    reveal_strlit("छस्");
    reveal_strlit("छन");
    reveal_strlit("छन्");
    reveal_strlit("इस");
    reveal_strlit("इस्");
    reveal_strlit("मान");
    reveal_strlit("मान्");
    reveal_strlit("वान");
    reveal_strlit("वान्");
    reveal_strlit("वत");
    reveal_strlit("वत्");
    let n = w.len() as int;
    if is_suffix("मान"@, w) || is_suffix("वान"@, w) || is_suffix("वत"@, w) {
        if is_suffix("मान"@, w) {
            lemma_suffix_chars(w, "मान"@);
            assert(w[n - 3 + 2] == 'न' && w[n - 3 + 1] == 'ा');
        }
        if is_suffix("वान"@, w) {
            lemma_suffix_chars(w, "वान"@);
            assert(w[n - 3 + 2] == 'न' && w[n - 3 + 1] == 'ा');
        }
        if is_suffix("वत"@, w) {
            lemma_suffix_chars(w, "वत"@);
            assert(w[n - 2 + 1] == 'त');
        }
        if is_suffix("छ्"@, w) {
            lemma_suffix_chars(w, "छ्"@);
            assert(w[n - 2 + 1] == '्');
        }
        if is_suffix("छस"@, w) {
            lemma_suffix_chars(w, "छस"@);
            assert(w[n - 2 + 1] == 'स');
        }
        if is_suffix("इस"@, w) {
            lemma_suffix_chars(w, "इस"@);
            assert(w[n - 2 + 1] == 'स');
        }
        if is_suffix("छन"@, w) {
            lemma_suffix_chars(w, "छन"@);
            assert(w[n - 2 + 0] == 'छ');
            assert(w[n - 2 + 1] == 'न');
        }
    }
    if is_suffix("छ्"@, w) {
        lemma_suffix_chars(w, "छ्"@);
        assert(swap_suffix(w, "छ्"@, "छ"@) =~= w.drop_last());
    }
    if is_suffix("छस"@, w) {
        assert("छस्"@ =~= "छस"@.push('्'));
        lemma_swap_adds_halanta(w, "छस"@, "छस्"@);
        lemma_suffix_chars(w, "छस"@);
    }
    if is_suffix("छन"@, w) {
        assert("छन्"@ =~= "छन"@.push('्'));
        lemma_swap_adds_halanta(w, "छन"@, "छन्"@);
        lemma_suffix_chars(w, "छन"@);
    }
    if is_suffix("इस"@, w) {
        assert("इस्"@ =~= "इस"@.push('्'));
        lemma_swap_adds_halanta(w, "इस"@, "इस्"@);
        lemma_suffix_chars(w, "इस"@);
    }
    if is_suffix("मान"@, w) {
        assert("मान्"@ =~= "मान"@.push('्'));
        lemma_swap_adds_halanta(w, "मान"@, "मान्"@);
        lemma_suffix_chars(w, "मान"@);
    }
    if is_suffix("वान"@, w) {
        assert("वान्"@ =~= "वान"@.push('्'));
        lemma_swap_adds_halanta(w, "वान"@, "वान्"@);
        lemma_suffix_chars(w, "वान"@);
    }
    if is_suffix("वत"@, w) {
        assert("वत्"@ =~= "वत"@.push('्'));
        lemma_swap_adds_halanta(w, "वत"@, "वत्"@);
        lemma_suffix_chars(w, "वत"@);
    }
}

/// `input` with its suffix `wrong` (which it has) replaced by `right`.
fn swap_suffix_exec(input: &str, wrong: &str, right: &str) -> (r: String)
    requires
        is_suffix(wrong@, input@),
    ensures
        r@ == swap_suffix(input@, wrong@, right@),
{
    replace_tail(input, char_count(wrong), right)
}

/// The verb-ending correction for `wrong` → `right`, when it applies.
fn verb_ending(input: &str, lex: &Lexicon, wrong: &str, right: &str, code: &'static str, desc: &str) -> (r: Option<Prakriya>)
    ensures
        realizes(r, input@, verb_ending_fix(input@, *lex, wrong@, right@, code@, desc@)),
{
    if !ends_with(input, wrong) {
        return None;
    }
    let output = swap_suffix_exec(input, wrong, right);
    if !lex.contains(output.as_str()) {
        return None;
    }
    Some(one_step(input, output.as_str(), Rule::VarnaVinyasNiyam(code), desc))
}

/// The tatsam-suffix correction for `wrong` → `right`, for a word ending in `wrong`.
fn tatsam_suffix(input: &str, lex: &Lexicon, wrong: &str, right: &str, code: &'static str, desc: &str) -> (r: Option<Prakriya>)
    requires
        is_suffix(wrong@, input@),
    ensures
        realizes(r, input@, tatsam_suffix_fix(input@, *lex, wrong@, right@, code@, desc@)),
{
    let output = swap_suffix_exec(input, wrong, right);
    if lex.contains(input) && !lex.contains(output.as_str()) {
        return None;
    }
    Some(one_step(input, output.as_str(), Rule::VarnaVinyasNiyam(code), desc))
}

/// Academy 3(ङ): halanta on finite verbs and tatsam suffixes.
pub fn rule_halanta(input: &str, lex: &Lexicon) -> (r: Option<Prakriya>)
    ensures
        realizes(r, input@, halanta_fix(input@, *lex)),
{
    if ends_with(input, "छ्") {
        let output = swap_suffix_exec(input, "छ्", "छ");
        if lex.contains(output.as_str()) && !lex.contains(input) {
            return Some(
                one_step(
                    input,
                    output.as_str(),
                    Rule::VarnaVinyasNiyam("3(ङ)-अजन्त-5"),
                    "समापक क्रियापदको अन्त्यमा हलन्त लेखिँदैन (…छ)",
                ),
            );
        }
    }
    let r = verb_ending(input, lex, "छस", "छस्", "3(ङ)-2", "क्रियापदमा हलन्त: छस -> छस्");
    if r.is_some() {
        return r;
    }
    let r = verb_ending(input, lex, "छन", "छन्", "3(ङ)-3", "क्रियापदमा हलन्त: छन -> छन्");
    if r.is_some() {
        return r;
    }
    let r = verb_ending(input, lex, "इस", "इस्", "3(ङ)-2", "क्रियापदमा हलन्त: इस -> इस्");
    if r.is_some() {
        return r;
    }
    if !lex.tatsam(input) {
        return None;
    }
    if ends_with(input, "मान") {
        return tatsam_suffix(
            input,
            lex,
            "मान",
            "मान्",
            "3(ङ)-मान्",
            "तत्सम प्रत्ययमा हलन्त हुन्छ: मान -> मान्",
        );
    }
    if ends_with(input, "वान") {
        return tatsam_suffix(
            input,
            lex,
            "वान",
            "वान्",
            "3(ङ)-वान्",
            "तत्सम प्रत्ययमा हलन्त हुन्छ: वान -> वान्",
        );
    }
    if ends_with(input, "वत") {
        return tatsam_suffix(
            input,
            lex,
            "वत",
            "वत्",
            "3(ङ)-वत्",
            "तत्सम प्रत्ययमा हलन्त हुन्छ: वत -> वत्",
        );
    }
    None
}

} // verus!
