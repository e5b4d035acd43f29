//! Academy 3(ग): letters that sound alike — ऋ/रि, ए/य, क्ष/छ, ज्ञ/ग्या.
//!
//! Each correction here is guarded by the lexicon: a candidate spelling is
//! proposed only when it is attested and the input is not.
use vstd::prelude::*;

use crate::lexicon::Lexicon;
use crate::rule::{Fix, Prakriya, Rule, one_step, or_else, realizes, vfix};
use crate::text::{
    char_count, chars_of, contains, has_sub, is_prefix, is_suffix, matches_at, replace, replace_all, str_eq,
    string_of, ends_with, starts_with,
};

verus! {

broadcast use vstd::string::group_string_axioms;

/// The correction to `output`, when it differs from `input` and is attested.
pub open spec fn attested_fix(
    input: Seq<char>,
    output: Seq<char>,
    lex: Lexicon,
    code: Seq<char>,
    desc: Seq<char>,
) -> Option<Fix> {
    if output == input || !lex.has_word(output) {
        None
    } else {
        vfix(output, code, desc)
    }
}

/// Proposes `output` for `input` when it differs from it and is attested.
pub fn corrected_if_attested(
    input: &str,
    output: &str,
    lex: &Lexicon,
    code: &'static str,
    desc: &str,
) -> (r: Option<Prakriya>)
    ensures
        realizes(r, input@, attested_fix(input@, output@, *lex, code@, desc@)),
{
    if str_eq(output, input) || !lex.contains(output) {
        return None;
    }
    Some(one_step(input, output, Rule::VarnaVinyasNiyam(code), desc))
}

/// Replacing every `from` by `to` gives a different, attested word.
pub open spec fn sub_fix(
    input: Seq<char>,
    lex: Lexicon,
    from: Seq<char>,
    to: Seq<char>,
    code: Seq<char>,
    desc: Seq<char>,
) -> Option<Fix> {
    if from.len() > 0 && has_sub(input, from) {
        attested_fix(input, replace_all(input, from, to), lex, code, desc)
    } else {
        None
    }
}

/// The correction that replaces every `from` by `to`, when it applies.
fn try_sub(input: &str, lex: &Lexicon, from: &str, to: &str, code: &'static str, desc: &str) -> (r:
    Option<Prakriya>)
    ensures
        realizes(r, input@, sub_fix(input@, *lex, from@, to@, code@, desc@)),
{
    if char_count(from) == 0 || !contains(input, from) {
        return None;
    }
    let candidate = replace(input, from, to);
    corrected_if_attested(input, candidate.as_str(), lex, code, desc)
}

// ----- (ई) ऋ / रि -----

/// Decision of 3(ग)(ई): an unattested tatsam word written with रि or क्रि
/// takes the attested ऋ or कृ form.
pub open spec fn ri_kri_fix(s: Seq<char>, lex: Lexicon) -> Option<Fix> {
    if !lex.is_tatsam(s) || lex.has_word(s) {
        None
    } else if s.len() > 2 && s[0] == 'र' && s[1] == 'ि' && (s[2] == 'ष' || s[2] == 'त')
        && lex.has_word(seq!['ऋ'] + s.skip(2)) {
        vfix(seq!['ऋ'] + s.skip(2), "3(ग)(ई)-ऋ-1"@, "तत्सम शब्दमा ऋ हुन्छ (रि होइन)"@)
    } else {
        sub_fix(s, lex, "क्रि"@, "कृ"@, "3(ग)(ई)-ऋ-1"@, "तत्सम शब्दमा कृ हुन्छ (क्रि होइन)"@)
    }
}

/// Academy 3(ग)(ई): tatsam ऋ/कृ forms.
pub fn rule_ri_kri(input: &str, lex: &Lexicon) -> (r: Option<Prakriya>)
    ensures
        realizes(r, input@, ri_kri_fix(input@, *lex)),
{
    if !lex.tatsam(input) || lex.contains(input) {
        return None;
    }
    let v = chars_of(input);
    if v.len() > 2 && v[0] == 'र' && v[1] == 'ि' && (v[2] == 'ष' || v[2] == 'त') {
        let mut out: Vec<char> = Vec::new();
        out.push('ऋ');
        let mut i: usize = 2;
        while i < v.len()
            invariant
                2 <= i <= v.len(),
                v@ == input@,
                out@ == seq!['ऋ'] + input@.subrange(2, i as int),
            decreases v.len() - i,
        {
            out.push(v[i]);
            i = i + 1;
            assert(out@ =~= seq!['ऋ'] + input@.subrange(2, i as int));
        }
        assert(input@.subrange(2, i as int) =~= input@.skip(2));
        let output = string_of(&out);
        if lex.contains(output.as_str()) {
            return Some(
                one_step(
                    input,
                    output.as_str(),
                    Rule::VarnaVinyasNiyam("3(ग)(ई)-ऋ-1"),
                    "तत्सम शब्दमा ऋ हुन्छ (रि होइन)",
                ),
            );
        }
    }
    try_sub(input, lex, "क्रि", "कृ", "3(ग)(ई)-ऋ-1", "तत्सम शब्दमा कृ हुन्छ (क्रि होइन)")
}

// ----- (इ) ए / य -----

/// Sub-rule cited when a word-initial य is corrected to ए, by the shape of the candidate.
pub open spec fn ya_to_e_code(c: Seq<char>) -> Seq<char> {
    if is_suffix("एँ"@, c) || is_suffix("ए"@, c) || is_suffix("एछ"@, c) || is_suffix("एछौ"@, c)
        || is_suffix("एछु"@, c) {
        "3(ग)(इ)-ए-1"@
    } else if has_sub(c, "एर"@) || has_sub(c, "एको"@) || has_sub(c, "एका"@) || has_sub(c, "एकी"@) {
        "3(ग)(इ)-ए-2"@
    } else if is_prefix("एक"@, c) || is_prefix("एघार"@, c) {
        "3(ग)(इ)-ए-5"@
    } else {
        "3(ग)(इ)-ए-6"@
    }
}

/// Sub-rule cited when a word-initial ए is corrected to य, by the shape of the candidate.
pub open spec fn e_to_ya_code(c: Seq<char>) -> Seq<char> {
    if is_prefix("यो"@, c) || is_prefix("यो "@, c) || is_prefix("यत"@, c) || is_prefix("यह"@, c)
        || is_prefix("त्यो"@, c) {
        "3(ग)(इ)-य-1"@
    } else if is_suffix("यौ"@, c) || is_suffix("यो"@, c) || is_suffix("यौँ"@, c) {
        "3(ग)(इ)-य-2"@
    } else if is_suffix("िया"@, c) || is_suffix("ैया"@, c) || is_suffix("्यौली"@, c) || is_suffix(
        "्याइँ"@,
        c,
    ) {
        "3(ग)(इ)-य-3"@
    } else if is_prefix("यज्ञ"@, c) || is_prefix("यक्ष"@, c) || is_prefix("यथ"@, c) || is_prefix(
        "यति"@,
        c,
    ) {
        "3(ग)(इ)-य-4"@
    } else {
        "3(ग)(इ)-य-5"@
    }
}

/// Decision of 3(ग)(इ): an unattested word starting with ए or य takes the
/// other letter when that spelling is attested.
pub open spec fn ya_e_fix(s: Seq<char>, lex: Lexicon) -> Option<Fix> {
    if s.len() == 0 || !(s[0] == 'ए' || s[0] == 'य') || lex.has_word(s) {
        None
    } else {
        let c = s.update(0, if s[0] == 'ए' { 'य' } else { 'ए' });
        if !lex.has_word(c) {
            None
        } else {
            vfix(
                c,
                if s[0] == 'य' { ya_to_e_code(c) } else { e_to_ya_code(c) },
                "ए/य भेद: शब्दादिमा ए र य फरक हुन्छ"@,
            )
        }
    }
}

/// The ए/य rule swaps only the first letter, ए for य or य for ए, of an
/// unattested word whose swapped spelling is attested, and it always does
/// so for such a word; the corrected word is attested, so the rule leaves
/// it alone.
pub proof fn lemma_ya_e_swaps_first_letter(s: Seq<char>, lex: Lexicon)
    ensures
        ya_e_fix(s, lex) matches Some(f) ==> {
            &&& s.len() > 0
            &&& !lex.has_word(s)
            &&& lex.has_word(f.output)
            &&& f.output.len() == s.len()
            &&& (forall|i: int| 1 <= i < s.len() ==> #[trigger] f.output[i] == s[i])
            &&& ((s[0] == 'ए' && f.output[0] == 'य') || (s[0] == 'य' && f.output[0] == 'ए'))
            &&& ya_e_fix(f.output, lex) is None
        },
        (s.len() > 0 && !lex.has_word(s) && ((s[0] == 'ए' && lex.has_word(s.update(0, 'य'))) || (s[0]
            == 'य' && lex.has_word(s.update(0, 'ए'))))) ==> ya_e_fix(s, lex) is Some,
{
}

fn ya_to_e_citation(c: &str) -> (r: &'static str)
    ensures
        r@ == ya_to_e_code(c@),
{
    if ends_with(c, "एँ") || ends_with(c, "ए") || ends_with(c, "एछ") || ends_with(c, "एछौ")
        || ends_with(c, "एछु") {
        "3(ग)(इ)-ए-1"
    } else if contains(c, "एर") || contains(c, "एको") || contains(c, "एका") || contains(c, "एकी") {
        "3(ग)(इ)-ए-2"
    } else if starts_with(c, "एक") || starts_with(c, "एघार") {
        "3(ग)(इ)-ए-5"
    } else {
        "3(ग)(इ)-ए-6"
    }
}

fn e_to_ya_citation(c: &str) -> (r: &'static str)
    ensures
        r@ == e_to_ya_code(c@),
{
    if starts_with(c, "यो") || starts_with(c, "यो ") || starts_with(c, "यत") || starts_with(c, "यह")
        || starts_with(c, "त्यो") {
        "3(ग)(इ)-य-1"
    } else if ends_with(c, "यौ") || ends_with(c, "यो") || ends_with(c, "यौँ") {
        "3(ग)(इ)-य-2"
    } else if ends_with(c, "िया") || ends_with(c, "ैया") || ends_with(c, "्यौली") || ends_with(
        c,
        "्याइँ",
    ) {
        "3(ग)(इ)-य-3"
    } else if starts_with(c, "यज्ञ") || starts_with(c, "यक्ष") || starts_with(c, "यथ")
        || starts_with(c, "यति") {
        "3(ग)(इ)-य-4"
    } else {
        "3(ग)(इ)-य-5"
    }
}

/// Academy 3(ग)(इ): word-initial ए/य.
pub fn rule_ya_e(input: &str, lex: &Lexicon) -> (r: Option<Prakriya>)
    ensures
        realizes(r, input@, ya_e_fix(input@, *lex)),
{
    let mut v = chars_of(input);
    if v.len() == 0 {
        return None;
    }
    let first = v[0];
    let swapped = if first == 'ए' {
        'य'
    } else if first == 'य' {
        'ए'
    } else {
        return None;
    };
    if lex.contains(input) {
        return None;
    }
    v.set(0, swapped);
    let candidate = string_of(&v);
    if !lex.contains(candidate.as_str()) {
        return None;
    }
    let citation = if first == 'य' {
        ya_to_e_citation(candidate.as_str())
    } else {
        e_to_ya_citation(candidate.as_str())
    };
    Some(
        one_step(
            input,
            candidate.as_str(),
            Rule::VarnaVinyasNiyam(citation),
            "ए/य भेद: शब्दादिमा ए र य फरक हुन्छ",
        ),
    )
}

// ----- (उ) क्ष / छ -----

/// Decision of 3(ग)(उ): an unattested word with क्ष/छ takes the first
/// attested spelling among the listed substitutions.
pub open spec fn ksha_chhya_fix(s: Seq<char>, lex: Lexicon) -> Option<Fix> {
    if lex.has_word(s) || (!has_sub(s, "क्ष"@) && !has_sub(s, "छ"@) && !has_sub(s, "च्छ"@)) {
        None
    } else {
        or_else(
            sub_fix(s, lex, "छ्य"@, "क्ष्य"@, "3(ग)(उ)-क्ष-1"@, "क्ष/छ भेद: छ्य → क्ष्य"@),
            or_else(
                sub_fix(s, lex, "क्ष्य"@, "छ्य"@, "3(ग)(उ)-छ्य-3"@, "क्ष/छ भेद: क्ष्य → छ्य"@),
                or_else(
                    sub_fix(s, lex, "छे"@, "क्षे"@, "3(ग)(उ)-क्ष-1"@, "क्ष/छ भेद: छे → क्षे"@),
                    or_else(
                        sub_fix(s, lex, "क्षे"@, "छे"@, "3(ग)(उ)-छे-2"@, "क्ष/छ भेद: क्षे → छे"@),
                        or_else(
                            sub_fix(
                                s,
                                lex,
                                "क्ष"@,
                                "च्छ"@,
                                "3(ग)(उ)-छ्य-3"@,
                                "क्ष/छ भेद: क्ष → च्छ"@,
                            ),
                            or_else(
                                sub_fix(
                                    s,
                                    lex,
                                    "च्छ"@,
                                    "क्ष"@,
                                    "3(ग)(उ)-क्ष-1"@,
                                    "क्ष/छ भेद: च्छ → क्ष"@,
                                ),
                                or_else(
                                    sub_fix(
                                        s,
                                        lex,
                                        "छ"@,
                                        "क्ष"@,
                                        "3(ग)(उ)-क्ष-1"@,
                                        "क्ष/छ भेद: छ → क्ष"@,
                                    ),
                                    sub_fix(
                                        s,
                                        lex,
                                        "क्ष"@,
                                        "छ"@,
                                        "3(ग)(उ)-छ्य-3"@,
                                        "क्ष/छ भेद: क्ष → छ"@,
                                    ),
                                ),
                            ),
                        ),
                    ),
                ),
            ),
        )
    }
}

/// Academy 3(ग)(उ): क्ष/क्षे/क्ष्य against छ/छे/छ्य.
pub fn rule_ksha_chhya(input: &str, lex: &Lexicon) -> (r: Option<Prakriya>)
    ensures
        realizes(r, input@, ksha_chhya_fix(input@, *lex)),
{
    if lex.contains(input) {
        return None;
    }
    if !contains(input, "क्ष") && !contains(input, "छ") && !contains(input, "च्छ") {
        return None;
    }
    let r = try_sub(input, lex, "छ्य", "क्ष्य", "3(ग)(उ)-क्ष-1", "क्ष/छ भेद: छ्य → क्ष्य");
    if r.is_some() {
        return r;
    }
    let r = try_sub(input, lex, "क्ष्य", "छ्य", "3(ग)(उ)-छ्य-3", "क्ष/छ भेद: क्ष्य → छ्य");
    if r.is_some() {
        return r;
    }
    let r = try_sub(input, lex, "छे", "क्षे", "3(ग)(उ)-क्ष-1", "क्ष/छ भेद: छे → क्षे");
    if r.is_some() {
        return r;
    }
    let r = try_sub(input, lex, "क्षे", "छे", "3(ग)(उ)-छे-2", "क्ष/छ भेद: क्षे → छे");
    if r.is_some() {
        return r;
    }
    let r = try_sub(input, lex, "क्ष", "च्छ", "3(ग)(उ)-छ्य-3", "क्ष/छ भेद: क्ष → च्छ");
    if r.is_some() {
        return r;
    }
    let r = try_sub(input, lex, "च्छ", "क्ष", "3(ग)(उ)-क्ष-1", "क्ष/छ भेद: च्छ → क्ष");
    if r.is_some() {
        return r;
    }
    let r = try_sub(input, lex, "छ", "क्ष", "3(ग)(उ)-क्ष-1", "क्ष/छ भेद: छ → क्ष");
    if r.is_some() {
        return r;
    }
    try_sub(input, lex, "क्ष", "छ", "3(ग)(उ)-छ्य-3", "क्ष/छ भेद: क्ष → छ")
}

/// The ऋ/कृ, क्ष/छ and ज्ञ/ग्या rules correct only an unattested word, and
/// only to a different, attested spelling, which they then leave alone. An
/// unattested word with छ्य whose क्ष्य spelling is attested gets that
/// spelling, and one with ग्याँ whose ज्ञा spelling is attested gets that.
pub proof fn lemma_spelling_swaps_reach_attested_words(w: Seq<char>, lex: Lexicon)
    ensures
        ri_kri_fix(w, lex) matches Some(f) ==> !lex.has_word(w) && lex.has_word(f.output) && f.output
            != w && ri_kri_fix(f.output, lex) is None,
        ksha_chhya_fix(w, lex) matches Some(f) ==> !lex.has_word(w) && lex.has_word(f.output)
            && f.output != w && ksha_chhya_fix(f.output, lex) is None,
        gya_gyan_fix(w, lex) matches Some(f) ==> !lex.has_word(w) && lex.has_word(f.output) && f.output
            != w && gya_gyan_fix(f.output, lex) is None,
        (!lex.has_word(w) && has_sub(w, "छ्य"@) && replace_all(w, "छ्य"@, "क्ष्य"@) != w && lex.has_word(
            replace_all(w, "छ्य"@, "क्ष्य"@),
        )) ==> (ksha_chhya_fix(w, lex) matches Some(f) && f.output == replace_all(w, "छ्य"@, "क्ष्य"@)),
        (!lex.has_word(w) && has_sub(w, "ग्याँ"@) && replace_all(w, "ग्याँ"@, "ज्ञा"@) != w
            && lex.has_word(replace_all(w, "ग्याँ"@, "ज्ञा"@))) ==> (gya_gyan_fix(w, lex) matches Some(f)
            && f.output == replace_all(w, "ग्याँ"@, "ज्ञा"@)),
{
    reveal_strlit("छ्य");
    reveal_strlit("छ");
    reveal_strlit("ग्याँ");
    reveal_strlit("ग्या");
    if has_sub(w, "छ्य"@) {
        let i = choose|i: int| #[trigger] matches_at(w, "छ्य"@, i);
        assert(w.subrange(i, i + 3) == "छ्य"@);
        assert("छ्य"@.subrange(0, 1) =~= "छ"@);
        assert(w.subrange(i, i + 1) =~= w.subrange(i, i + 3).subrange(0, 1));
        assert(matches_at(w, "छ"@, i));
    }
    if has_sub(w, "ग्याँ"@) {
        let i = choose|i: int| #[trigger] matches_at(w, "ग्याँ"@, i);
        assert(w.subrange(i, i + 5) == "ग्याँ"@);
        assert("ग्याँ"@.subrange(0, 4) =~= "ग्या"@);
        assert(w.subrange(i, i + 4) =~= w.subrange(i, i + 5).subrange(0, 4));
        assert(matches_at(w, "ग्या"@, i));
    }
}

// ----- (ऊ) ज्ञ / ग्याँ / ग्या -----

/// Decision of 3(ग)(ऊ): an unattested word with ग्याँ/ग्या takes the attested ज्ञा form.
pub open spec fn gya_gyan_fix(s: Seq<char>, lex: Lexicon) -> Option<Fix> {
    if lex.has_word(s) || (!has_sub(s, "ज्ञ"@) && !has_sub(s, "ग्या"@) && !has_sub(s, "ग्याँ"@)) {
        None
    } else {
        or_else(
            sub_fix(s, lex, "ग्याँ"@, "ज्ञा"@, "3(ग)(ऊ)-2"@, "ज्ञ/ग्याँ/ग्या भेद: ग्याँ → ज्ञा"@),
            sub_fix(s, lex, "ग्या"@, "ज्ञा"@, "3(ग)(ऊ)-3"@, "ज्ञ/ग्याँ/ग्या भेद: ग्या → ज्ञा"@),
        )
    }
}

/// Academy 3(ग)(ऊ): ज्ञ against ग्याँ/ग्या.
pub fn rule_gya_gyan(input: &str, lex: &Lexicon) -> (r: Option<Prakriya>)
    ensures
        realizes(r, input@, gya_gyan_fix(input@, *lex)),
{
    if lex.contains(input) {
        return None;
    }
    if !contains(input, "ज्ञ") && !contains(input, "ग्या") && !contains(input, "ग्याँ") {
        return None;
    }
    let r = try_sub(input, lex, "ग्याँ", "ज्ञा", "3(ग)(ऊ)-2", "ज्ञ/ग्याँ/ग्या भेद: ग्याँ → ज्ञा");
    if r.is_some() {
        return r;
    }
    try_sub(input, lex, "ग्या", "ज्ञा", "3(ग)(ऊ)-3", "ज्ञ/ग्याँ/ग्या भेद: ग्या → ज्ञा")
}

} // verus!
