//! Academy 3(ग)(आ): ब, व and ओ.
use vstd::prelude::*;

use crate::lexicon::Lexicon;
use crate::rule::{Fix, Prakriya, Rule, one_step, or_else, realizes, vfix};
use crate::text::{
    chars_of, contains, ends_with, has_sub, is_prefix, is_suffix, replace_first, replacen1,
    starts_with, str_eq, string_of,
};
use crate::varna::{is_matra, matra};

verus! {

broadcast use vstd::string::group_string_axioms;

/// The explanation of the ओ sub-rules.
pub open spec fn o_desc() -> Seq<char> {
    "'ओ' उच्चारण हुने शब्दमा ओ-रूप प्रयोग हुन्छ"@
}

/// The explanation of the ओ verb sub-rule.
pub open spec fn o_verb_desc() -> Seq<char> {
    "ओ-श्रेणीका क्रियापदमा ओ-लेखन हुन्छ"@
}

/// The explanation of the ब/व sub-rules.
pub open spec fn ba_va_desc() -> Seq<char> {
    "ब/व भेद: सन्दर्भअनुसार ब वा व प्रयोग हुन्छ"@
}

/// Sub-rule cited for a word that now starts with ओ.
pub open spec fn o_code(out: Seq<char>) -> Seq<char> {
    if is_prefix("ओज"@, out) || is_prefix("ओम्"@, out) {
        "3(ग)(आ)-ओ-3"@
    } else {
        "3(ग)(आ)-ओ-1"@
    }
}

/// A word starting with `first` is written with initial ओ when that form is attested.
pub open spec fn initial_o_fix(s: Seq<char>, lex: Lexicon, first: char) -> Option<Fix> {
    if s.len() > 0 && s[0] == first && lex.has_word(s.update(0, 'ओ')) {
        vfix(s.update(0, 'ओ'), o_code(s.update(0, 'ओ')), o_desc())
    } else {
        None
    }
}

/// The listed ओ-class verb forms and their spelling.
pub open spec fn o_verb_form(s: Seq<char>) -> Option<Seq<char>> {
    if s == "जाऊ"@ {
        Some("जाओ"@)
    } else if s == "खाऊ"@ {
        Some("खाओ"@)
    } else if s == "गाऊ"@ {
        Some("गाओ"@)
    } else if s == "बनाऊस्"@ {
        Some("बनाओस्"@)
    } else if s == "देऊस्"@ {
        Some("देओस्"@)
    } else {
        None
    }
}

/// The first ाउ written ाओ, when that form is attested.
pub open spec fn aau_fix(s: Seq<char>, lex: Lexicon) -> Option<Fix> {
    if has_sub(s, "ाउ"@) && lex.has_word(replace_first(s, "ाउ"@, "ाओ"@)) {
        vfix(replace_first(s, "ाउ"@, "ाओ"@), "3(ग)(आ)-ओ-2"@, o_verb_desc())
    } else {
        None
    }
}

/// The first char at or after `j` that is not a vowel sign.
pub open spec fn next_base_from(s: Seq<char>, j: int) -> Option<char>
    decreases s.len() - j,
{
    if j < 0 || j >= s.len() {
        None
    } else if !is_matra(s[j]) {
        Some(s[j])
    } else {
        next_base_from(s, j + 1)
    }
}

/// `out` ends with one of the listed endings of ब-4.
pub open spec fn ba4_ending(out: Seq<char>) -> bool {
    is_suffix("ुवा"@, out) || is_suffix("ेर्नु"@, out) || is_suffix("ाङ्गो"@, out) || is_suffix(
        "ुढो"@,
        out,
    ) || is_suffix("िटुलो"@, out) || is_suffix("ुच्चो"@, out) || is_suffix("ौलाहा"@, out)
        || is_suffix("लियो"@, out)
}

/// `out` is one of the words listed in ब-5.
pub open spec fn ba5_word(out: Seq<char>) -> bool {
    out == "अब"@ || out == "तब"@ || out == "जब"@ || out == "बजे"@ || out == "बरु"@ || out == "बर्र"@
        || out == "बेर"@ || out == "ब्यारे"@
}

/// `out` ends with one of the verb endings of ब-6.
pub open spec fn ba6_ending(out: Seq<char>) -> bool {
    is_suffix("ग्नु"@, out) || is_suffix("र्चनु"@, out) || is_suffix("स्नु"@, out) || is_suffix(
        "ेर्नु"@,
        out,
    ) || is_suffix("ँच्नु"@, out) || is_suffix("िर्सनु"@, out)
}

/// Sub-rule cited when व at index `i` of `s` is corrected to ब, giving `out`.
pub open spec fn ba_code(s: Seq<char>, i: int, out: Seq<char>) -> Seq<char> {
    if next_base_from(s, i + 1) matches Some(c) && (c == 'द' || c == 'ध' || c == 'ल' || c == 'ह' || c
        == 'म') {
        "3(ग)(आ)-ब-1"@
    } else if i > 0 && s[i - 1] == 'म' {
        "3(ग)(आ)-ब-2"@
    } else if i == 0 && (is_prefix("बे"@, out) || is_prefix("बद"@, out) || is_prefix("बि"@, out)) {
        "3(ग)(आ)-ब-7"@
    } else if ba4_ending(out) {
        "3(ग)(आ)-ब-4"@
    } else if ba5_word(out) {
        "3(ग)(आ)-ब-5"@
    } else if ba6_ending(out) {
        "3(ग)(आ)-ब-6"@
    } else {
        "3(ग)(आ)-ब-3"@
    }
}

/// `out` holds one of the clusters listed in the second व-2 group.
pub open spec fn va2_cluster(out: Seq<char>) -> bool {
    has_sub(out, "र्ष"@) || has_sub(out, "र्ग"@) || has_sub(out, "र्ण"@) || has_sub(out, "वृक्ष"@)
        || has_sub(out, "वृष्टि"@) || has_sub(out, "वृद्धि"@)
}

/// `out` shows one of the suffix groups of व-3.
pub open spec fn va3_suffix(out: Seq<char>) -> bool {
    is_suffix("वर"@, out) || has_sub(out, "तव्य"@) || has_sub(out, "त्व"@) || has_sub(out, "वत"@)
        || has_sub(out, "वान"@) || has_sub(out, "वती"@)
}

/// `out` ends with one of the endings of व-10.
pub open spec fn va10_ending(out: Seq<char>) -> bool {
    is_suffix("ावट"@, out) || is_suffix("ुवा"@, out) || is_suffix("वाला"@, out) || is_suffix(
        "वार"@,
        out,
    ) || is_suffix("वारी"@, out)
}

/// `out` is one of the words listed in व-9.
pub open spec fn va9_word(out: Seq<char>) -> bool {
    out == "वर"@ || out == "वरिपरि"@ || out == "वारपार"@ || out == "वाल्ल"@ || out == "प्वाक्क"@
        || out == "ट्वाक्क"@ || out == "ह्वात्त"@ || out == "छ्वाल्ल"@
}

/// `out` ends with one of the verb endings of व-8.
pub open spec fn va8_ending(out: Seq<char>) -> bool {
    is_suffix("वाउनु"@, out) || is_suffix("वायो"@, out) || is_suffix("वाउँछ"@, out)
}

/// `out` ends with one of the endings of व-7.
pub open spec fn va7_ending(out: Seq<char>) -> bool {
    is_suffix("ुवा"@, out) || is_suffix("ाडे"@, out) || is_suffix("ादार"@, out) || is_suffix(
        "ोलवाला"@,
        out,
    )
}

/// Sub-rule cited when ब at index `i` of `s` is corrected to व, giving `out`.
pub open spec fn va_code(s: Seq<char>, i: int, out: Seq<char>) -> Seq<char> {
    if i == 0 && is_prefix("बि"@, s) {
        "3(ग)(आ)-व-1"@
    } else if has_sub(out, "वै"@) || has_sub(out, "ृ"@) || va2_cluster(out) {
        "3(ग)(आ)-व-2"@
    } else if va3_suffix(out) {
        "3(ग)(आ)-व-3"@
    } else if is_prefix("संव"@, out) {
        "3(ग)(आ)-व-4"@
    } else if is_suffix("व"@, out) {
        "3(ग)(आ)-व-5"@
    } else if va10_ending(out) {
        "3(ग)(आ)-व-10"@
    } else if va9_word(out) {
        "3(ग)(आ)-व-9"@
    } else if va8_ending(out) {
        "3(ग)(आ)-व-8"@
    } else if va7_ending(out) {
        "3(ग)(आ)-व-7"@
    } else {
        "3(ग)(आ)-व-6"@
    }
}

/// The other letter of the ब/व pair.
pub open spec fn ba_va_other(c: char) -> char {
    if c == 'ब' {
        'व'
    } else {
        'ब'
    }
}

/// The first ब or व at or after `i` whose swap gives an attested word.
pub open spec fn ba_va_swap_from(s: Seq<char>, lex: Lexicon, i: int) -> Option<Fix>
    decreases s.len() - i,
{
    if i < 0 || i >= s.len() {
        None
    } else if (s[i] == 'ब' || s[i] == 'व') && lex.has_word(s.update(i, ba_va_other(s[i]))) {
        let out = s.update(i, ba_va_other(s[i]));
        vfix(out, if s[i] == 'व' { ba_code(s, i, out) } else { va_code(s, i, out) }, ba_va_desc())
    } else {
        ba_va_swap_from(s, lex, i + 1)
    }
}

/// Decision of Academy 3(ग)(आ) for an unattested word: the ओ sub-rules, then
/// the first attested ब/व swap.
pub open spec fn ba_va_fix(s: Seq<char>, lex: Lexicon) -> Option<Fix> {
    if s.len() == 0 || lex.has_word(s) {
        None
    } else {
        or_else(
            initial_o_fix(s, lex, 'औ'),
            or_else(
                initial_o_fix(s, lex, 'उ'),
                or_else(
                    match o_verb_form(s) {
                        Some(out) => vfix(out, "3(ग)(आ)-ओ-2"@, o_verb_desc()),
                        None => None,
                    },
                    or_else(aau_fix(s, lex), ba_va_swap_from(s, lex, 0)),
                ),
            ),
        )
    }
}

proof fn lemma_swap_from_finds(s: Seq<char>, lex: Lexicon, i: int, k: int)
    requires
        0 <= i <= k < s.len(),
        s[k] == 'ब' || s[k] == 'व',
        lex.has_word(s.update(k, ba_va_other(s[k]))),
    ensures
        ba_va_swap_from(s, lex, i) is Some,
    decreases k - i,
{
    if !((s[i] == 'ब' || s[i] == 'व') && lex.has_word(s.update(i, ba_va_other(s[i])))) {
        lemma_swap_from_finds(s, lex, i + 1, k);
    }
}

proof fn lemma_swap_from_attested(s: Seq<char>, lex: Lexicon, i: int)
    ensures
        ba_va_swap_from(s, lex, i) matches Some(f) ==> lex.has_word(f.output) && exists|k: int|
            0 <= k < s.len() && (s[k] == 'ब' || s[k] == 'व') && #[trigger] s.update(k, ba_va_other(s[k]))
                == f.output,
    decreases s.len() - i,
{
    if !(i < 0 || i >= s.len()) {
        if !((s[i] == 'ब' || s[i] == 'व') && lex.has_word(s.update(i, ba_va_other(s[i])))) {
            lemma_swap_from_attested(s, lex, i + 1);
        }
    }
}

/// The ब/व rule corrects only an unattested word, and only to an attested
/// spelling, except for the listed verb forms (जाऊ, खाऊ, गाऊ, बनाऊस्, देऊस्),
/// which take their ओ spelling; an unattested word in which trading one ब
/// for व, or one व for ब, gives an attested word always gets a correction,
/// and a trade of ब and व changes that one letter only.
pub proof fn lemma_ba_va_reaches_attested_words(w: Seq<char>, lex: Lexicon)
    ensures
        ba_va_fix(w, lex) matches Some(f) ==> !lex.has_word(w) && (lex.has_word(f.output) || (
        w == "जाऊ"@ && f.output == "जाओ"@) || (w == "खाऊ"@ && f.output == "खाओ"@) || (w == "गाऊ"@
            && f.output == "गाओ"@) || (w == "बनाऊस्"@ && f.output == "बनाओस्"@) || (w == "देऊस्"@
            && f.output == "देओस्"@)),
        forall|k: int|
            0 <= k < w.len() && !lex.has_word(w) && w[k] == 'ब' && lex.has_word(#[trigger] w.update(k, 'व'))
                ==> ba_va_fix(w, lex) is Some,
        forall|k: int|
            0 <= k < w.len() && !lex.has_word(w) && w[k] == 'व' && lex.has_word(#[trigger] w.update(k, 'ब'))
                ==> ba_va_fix(w, lex) is Some,
        ba_va_swap_from(w, lex, 0) matches Some(f) ==> exists|k: int|
            0 <= k < w.len() && ((w[k] == 'ब' && #[trigger] w.update(k, 'व') == f.output) || (w[k] == 'व'
                && w.update(k, 'ब') == f.output)),
{
    lemma_swap_from_attested(w, lex, 0);
    assert forall|k: int|
        0 <= k < w.len() && !lex.has_word(w) && w[k] == 'ब' && lex.has_word(#[trigger] w.update(k, 'व'))
        implies ba_va_fix(w, lex) is Some by {
        lemma_swap_from_finds(w, lex, 0, k);
    }
    assert forall|k: int|
        0 <= k < w.len() && !lex.has_word(w) && w[k] == 'व' && lex.has_word(#[trigger] w.update(k, 'ब'))
        implies ba_va_fix(w, lex) is Some by {
        lemma_swap_from_finds(w, lex, 0, k);
    }
    if ba_va_swap_from(w, lex, 0) is Some {
        let f = ba_va_swap_from(w, lex, 0)->Some_0;
        let k = choose|k: int|
            0 <= k < w.len() && (w[k] == 'ब' || w[k] == 'व') && #[trigger] w.update(k, ba_va_other(w[k]))
                == f.output;
        if w[k] == 'ब' {
            assert(w.update(k, 'व') == f.output);
        } else {
            assert(w.update(k, 'ब') == f.output);
            let _t = w.update(k, 'व');
        }
    }
}

fn o_citation(out: &str) -> (r: &'static str)
    ensures
        r@ == o_code(out@),
{
    if starts_with(out, "ओज") || starts_with(out, "ओम्") {
        "3(ग)(आ)-ओ-3"
    } else {
        "3(ग)(आ)-ओ-1"
    }
}

/// The initial-ओ correction for a word starting with `first`.
fn initial_o(input: &str, v: &Vec<char>, lex: &Lexicon, first: char) -> (r: Option<Prakriya>)
    requires
        v@ == input@,
    ensures
        realizes(r, input@, initial_o_fix(input@, *lex, first)),
{
    if v.len() == 0 || v[0] != first {
        return None;
    }
    let mut w = v.clone();
    w.set(0, 'ओ');
    let output = string_of(&w);
    if !lex.contains(output.as_str()) {
        return None;
    }
    let code = o_citation(output.as_str());
    Some(
        one_step(
            input,
            output.as_str(),
            Rule::VarnaVinyasNiyam(code),
            "'ओ' उच्चारण हुने शब्दमा ओ-रूप प्रयोग हुन्छ",
        ),
    )
}

fn o_verb(input: &str) -> (r: Option<&'static str>)
    ensures
        match r {
            Some(o) => o_verb_form(input@) == Some(o@),
            None => o_verb_form(input@) is None,
        },
{
    if str_eq(input, "जाऊ") {
        Some("जाओ")
    } else if str_eq(input, "खाऊ") {
        Some("खाओ")
    } else if str_eq(input, "गाऊ") {
        Some("गाओ")
    } else if str_eq(input, "बनाऊस्") {
        Some("बनाओस्")
    } else if str_eq(input, "देऊस्") {
        Some("देओस्")
    } else {
        None
    }
}

/// The first char of `v` at or after `j` that is not a vowel sign.
fn next_base(v: &Vec<char>, j: usize) -> (r: Option<char>)
    ensures
        r == next_base_from(v@, j as int),
{
    let mut k = j;
    while k < v.len()
        invariant
            j <= k,
            next_base_from(v@, j as int) == next_base_from(v@, k as int),
        decreases v.len() - k,
    {
        if !matra(v[k]) {
            return Some(v[k]);
        }
        k = k + 1;
    }
    None
}

fn ba_citation(v: &Vec<char>, i: usize, out: &str) -> (r: &'static str)
    requires
        i < v.len(),
    ensures
        r@ == ba_code(v@, i as int, out@),
{
    let nb = next_base(v, i + 1);
    if let Some(c) = nb {
        if c == 'द' || c == 'ध' || c == 'ल' || c == 'ह' || c == 'म' {
            return "3(ग)(आ)-ब-1";
        }
    }
    if i > 0 && v[i - 1] == 'म' {
        "3(ग)(आ)-ब-2"
    } else if i == 0 && (starts_with(out, "बे") || starts_with(out, "बद") || starts_with(out, "बि")) {
        "3(ग)(आ)-ब-7"
    } else if ends_with(out, "ुवा") || ends_with(out, "ेर्नु") || ends_with(out, "ाङ्गो") || ends_with(
        out,
        "ुढो",
    ) || ends_with(out, "िटुलो") || ends_with(out, "ुच्चो") || ends_with(out, "ौलाहा")
        || ends_with(out, "लियो") {
        "3(ग)(आ)-ब-4"
    } else if str_eq(out, "अब") || str_eq(out, "तब") || str_eq(out, "जब") || str_eq(out, "बजे")
        || str_eq(out, "बरु") || str_eq(out, "बर्र") || str_eq(out, "बेर") || str_eq(out, "ब्यारे") {
        "3(ग)(आ)-ब-5"
    } else if ends_with(out, "ग्नु") || ends_with(out, "र्चनु") || ends_with(out, "स्नु") || ends_with(
        out,
        "ेर्नु",
    ) || ends_with(out, "ँच्नु") || ends_with(out, "िर्सनु") {
        "3(ग)(आ)-ब-6"
    } else {
        "3(ग)(आ)-ब-3"
    }
}

fn va_citation(input: &str, i: usize, out: &str) -> (r: &'static str)
    ensures
        r@ == va_code(input@, i as int, out@),
{
    if i == 0 && starts_with(input, "बि") {
        "3(ग)(आ)-व-1"
    } else if contains(out, "वै") || contains(out, "ृ") || contains(out, "र्ष") || contains(out, "र्ग")
        || contains(out, "र्ण") || contains(out, "वृक्ष") || contains(out, "वृष्टि") || contains(
        out,
        "वृद्धि",
    ) {
        "3(ग)(आ)-व-2"
    } else if ends_with(out, "वर") || contains(out, "तव्य") || contains(out, "त्व") || contains(
        out,
        "वत",
    ) || contains(out, "वान") || contains(out, "वती") {
        "3(ग)(आ)-व-3"
    } else if starts_with(out, "संव") {
        "3(ग)(आ)-व-4"
    } else if ends_with(out, "व") {
        "3(ग)(आ)-व-5"
    } else if ends_with(out, "ावट") || ends_with(out, "ुवा") || ends_with(out, "वाला") || ends_with(
        out,
        "वार",
    ) || ends_with(out, "वारी") {
        "3(ग)(आ)-व-10"
    } else if str_eq(out, "वर") || str_eq(out, "वरिपरि") || str_eq(out, "वारपार") || str_eq(
        out,
        "वाल्ल",
    ) || str_eq(out, "प्वाक्क") || str_eq(out, "ट्वाक्क") || str_eq(out, "ह्वात्त") || str_eq(
        out,
        "छ्वाल्ल",
    ) {
        "3(ग)(आ)-व-9"
    } else if ends_with(out, "वाउनु") || ends_with(out, "वायो") || ends_with(out, "वाउँछ") {
        "3(ग)(आ)-व-8"
    } else if ends_with(out, "ुवा") || ends_with(out, "ाडे") || ends_with(out, "ादार") || ends_with(
        out,
        "ोलवाला",
    ) {
        "3(ग)(आ)-व-7"
    } else {
        "3(ग)(आ)-व-6"
    }
}

/// The first attested ब/व swap, scanning left to right.
fn ba_va_swap(input: &str, v: &Vec<char>, lex: &Lexicon) -> (r: Option<Prakriya>)
    requires
        v@ == input@,
    ensures
        realizes(r, input@, ba_va_swap_from(input@, *lex, 0)),
{
    let mut i: usize = 0;
    while i < v.len()
        invariant
            v@ == input@,
            i <= v.len(),
            ba_va_swap_from(input@, *lex, 0) == ba_va_swap_from(input@, *lex, i as int),
        decreases v.len() - i,
    {
        let c = v[i];
        if c == 'ब' || c == 'व' {
            let swapped = if c == 'ब' {
                'व'
            } else {
                'ब'
            };
            let mut w = v.clone();
            w.set(i, swapped);
            let output = string_of(&w);
            if lex.contains(output.as_str()) {
                let code = if c == 'व' {
                    ba_citation(v, i, output.as_str())
                } else {
                    va_citation(input, i, output.as_str())
                };
                return Some(
                    one_step(
                        input,
                        output.as_str(),
                        Rule::VarnaVinyasNiyam(code),
                        "ब/व भेद: सन्दर्भअनुसार ब वा व प्रयोग हुन्छ",
                    ),
                );
            }
        }
        i = i + 1;
    }
    None
}

/// Academy 3(ग)(आ): ओ-forms, then a single attested ब/व swap.
pub fn rule_ba_va(input: &str, lex: &Lexicon) -> (r: Option<Prakriya>)
    ensures
        realizes(r, input@, ba_va_fix(input@, *lex)),
{
    let v = chars_of(input);
    if v.len() == 0 || lex.contains(input) {
        return None;
    }
    let r = initial_o(input, &v, lex, 'औ');
    if r.is_some() {
        return r;
    }
    let r = initial_o(input, &v, lex, 'उ');
    if r.is_some() {
        return r;
    }
    if let Some(correct) = o_verb(input) {
        return Some(
            one_step(
                input,
                correct,
                Rule::VarnaVinyasNiyam("3(ग)(आ)-ओ-2"),
                "ओ-श्रेणीका क्रियापदमा ओ-लेखन हुन्छ",
            ),
        );
    }
    if contains(input, "ाउ") {
        let output = replacen1(input, "ाउ", "ाओ");
        if lex.contains(output.as_str()) {
            return Some(
                one_step(
                    input,
                    output.as_str(),
                    Rule::VarnaVinyasNiyam("3(ग)(आ)-ओ-2"),
                    "ओ-श्रेणीका क्रियापदमा ओ-लेखन हुन्छ",
                ),
            );
        }
    }
    ba_va_swap(input, &v, lex)
}

} // verus!
