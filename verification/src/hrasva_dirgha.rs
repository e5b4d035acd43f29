//! Academy 3(क): short (ह्रस्व) and long (दीर्घ) vowel rules.
use vstd::prelude::*;

use crate::lexicon::{Lexicon, Origin};
use crate::rule::{Fix, Prakriya, Rule, one_step, realizes, vfix};
use crate::text::{
    char_count, chars_of, concat, ends_with, is_prefix, is_suffix, last_char, rfind, rfind_str,
    starts_with, str_eq, string_of, vec_rfind, vec_slice, with_char_at, replace_tail, char_at,
    lemma_rfind, };
use crate::varna::{is_vyanjan, vyanjan};

verus! {

broadcast use vstd::string::group_string_axioms;

proof fn lemma_rfind_char_in(s: Seq<char>, k: int, c: char)
    requires
        0 <= k <= s.len(),
        rfind(s.take(k), seq![c]) >= 0,
    ensures
        s.contains(c),
        0 <= rfind(s.take(k), seq![c]) < k,
        s[rfind(s.take(k), seq![c])] == c,
{
    let t = s.take(k);
    lemma_rfind(t, seq![c]);
    let j = rfind(t, seq![c]);
    assert(t.subrange(j, j + 1)[0] == c);
    assert(s[j] == c);
}

// ----- -नु suffix -----

/// Decision of the -नु rule: the last ी before the suffix becomes ि (स्वीकार्नु → स्विकार्नु).
pub open spec fn suffix_nu_fix(input: Seq<char>) -> Option<Fix> {
    if !(is_suffix("नु"@, input) || is_suffix("र्नु"@, input)) {
        None
    } else {
        let k = if rfind(input, "कार्नु"@) >= 0 {
            rfind(input, "कार्नु"@)
        } else {
            rfind(input, "नु"@)
        };
        let j = rfind(input.take(k), seq!['ी']);
        if k < 0 || j < 0 {
            None
        } else {
            vfix(
                input.update(j, 'ि'),
                "3(क)-suffix-नु"@,
                "प्रत्यय -नु लाग्दा मूल स्वर ह्रस्व हुन्छ"@,
            )
        }
    }
}

/// The -नु rule shortens exactly one ी of a word that ends in -नु, leaving
/// every other char as it is.
pub proof fn lemma_suffix_nu_shortens_one_ii(w: Seq<char>)
    ensures
        suffix_nu_fix(w) matches Some(f) ==> is_suffix("नु"@, w) && exists|j: int|
            0 <= j < w.len() && w[j] == 'ी' && #[trigger] w.update(j, 'ि') == f.output,
{
    reveal_strlit("नु");
    reveal_strlit("र्नु");
    if suffix_nu_fix(w) is Some {
        let k = if rfind(w, "कार्नु"@) >= 0 {
            rfind(w, "कार्नु"@)
        } else {
            rfind(w, "नु"@)
        };
        lemma_rfind(w, "कार्नु"@);
        lemma_rfind(w, "नु"@);
        lemma_rfind_char_in(w, k, 'ी');
        let j = rfind(w.take(k), seq!['ी']);
        assert(w.update(j, 'ि') == suffix_nu_fix(w)->Some_0.output);
        if is_suffix("र्नु"@, w) {
            let n = w.len() as int;
            assert(w.subrange(n - 2, n) =~= w.subrange(n - 4, n).subrange(2, 4));
            assert(w.subrange(n - 2, n) =~= "नु"@);
        }
    }
}

/// The -एली rule shortens exactly one ू of a word that ends in -ेली,
/// leaving every other char as it is.
pub proof fn lemma_suffix_eli_shortens_one_uu(w: Seq<char>)
    ensures
        suffix_eli_fix(w) matches Some(f) ==> exists|j: int|
            0 <= j < w.len() && w[j] == 'ू' && #[trigger] w.update(j, 'ु') == f.output,
{
    if suffix_eli_fix(w) is Some {
        let k = rfind(w, "ेली"@);
        lemma_rfind(w, "ेली"@);
        lemma_rfind_char_in(w, k, 'ू');
        let j = rfind(w.take(k), seq!['ू']);
        assert(w.update(j, 'ु') == suffix_eli_fix(w)->Some_0.output);
    }
}

/// Suffix -नु shortens the last long ई of the root.
pub fn rule_suffix_nu_hrasva(input: &str) -> (r: Option<Prakriya>)
    ensures
        realizes(r, input@, suffix_nu_fix(input@)),
{
    if !(ends_with(input, "नु") || ends_with(input, "र्नु")) {
        return None;
    }
    let v = chars_of(input);
    let k = match rfind_str(input, "कार्नु") {
        Some(k) => k,
        None => match rfind_str(input, "नु") {
            Some(k) => k,
            None => {
                return None;
            },
        },
    };
    proof {
        lemma_rfind(input@, "कार्नु"@);
        lemma_rfind(input@, "नु"@);
    }
    let prefix = vec_slice(&v, 0, k);
    let mut ii: Vec<char> = Vec::new();
    ii.push('ी');
    assert(prefix@ =~= input@.take(k as int));
    let j = match vec_rfind(&prefix, &ii) {
        Some(j) => j,
        None => {
            return None;
        },
    };
    proof {
        lemma_rfind_char_in(input@, k as int, 'ी');
    }
    let output = with_char_at(input, j, 'ि');
    Some(
        one_step(
            input,
            output.as_str(),
            Rule::VarnaVinyasNiyam("3(क)-suffix-नु"),
            "प्रत्यय -नु लाग्दा मूल स्वर ह्रस्व हुन्छ",
        ),
    )
}

// ----- -एली suffix -----

/// Decision of the -एली rule: the last ू before the suffix becomes ु (पूर्वेली → पुर्वेली).
pub open spec fn suffix_eli_fix(input: Seq<char>) -> Option<Fix> {
    if !(is_suffix("एली"@, input) || is_suffix("ेली"@, input)) {
        None
    } else {
        let k = rfind(input, "ेली"@);
        let j = rfind(input.take(k), seq!['ू']);
        if k < 0 || j < 0 {
            None
        } else {
            vfix(
                input.update(j, 'ु'),
                "3(क)-suffix-एली"@,
                "प्रत्यय -एली लाग्दा मूल स्वर ह्रस्व हुन्छ"@,
            )
        }
    }
}

/// Suffix -एली shortens the last long ऊ of the root.
pub fn rule_suffix_eli_hrasva(input: &str) -> (r: Option<Prakriya>)
    ensures
        realizes(r, input@, suffix_eli_fix(input@)),
{
    if !(ends_with(input, "एली") || ends_with(input, "ेली")) {
        return None;
    }
    let v = chars_of(input);
    let k = match rfind_str(input, "ेली") {
        Some(k) => k,
        None => {
            return None;
        },
    };
    proof {
        lemma_rfind(input@, "ेली"@);
    }
    let prefix = vec_slice(&v, 0, k);
    let mut uu: Vec<char> = Vec::new();
    uu.push('ू');
    assert(prefix@ =~= input@.take(k as int));
    let j = match vec_rfind(&prefix, &uu) {
        Some(j) => j,
        None => {
            return None;
        },
    };
    proof {
        lemma_rfind_char_in(input@, k as int, 'ू');
    }
    let output = with_char_at(input, j, 'ु');
    Some(
        one_step(
            input,
            output.as_str(),
            Rule::VarnaVinyasNiyam("3(क)-suffix-एली"),
            "प्रत्यय -एली लाग्दा मूल स्वर ह्रस्व हुन्छ",
        ),
    )
}

// ----- suffixes -ई / -ईय keep the long vowel -----

/// Decision of Academy 3(क)(उ) rules 1–2, for the known forms that lost the long vowel.
pub open spec fn suffix_preserves_fix(input: Seq<char>) -> Option<Fix> {
    if input == "पुर्वी"@ {
        vfix("पूर्वी"@, "3(क)(उ)"@, "प्रत्यय -ई ले दीर्घ: पूर्व + ई = पूर्वी"@)
    } else if input == "पुर्वीय"@ {
        vfix("पूर्वीय"@, "3(क)(उ)"@, "प्रत्यय -ईय ले दीर्घ: पूर्व + ईय = पूर्वीय"@)
    } else {
        None
    }
}

/// Academy 3(क)(उ) rules 1–2: suffixes -ई/-ईय keep the root's long vowel.
pub fn rule_suffix_preserves_dirgha(input: &str) -> (r: Option<Prakriya>)
    ensures
        realizes(r, input@, suffix_preserves_fix(input@)),
{
    if str_eq(input, "पुर्वी") {
        return Some(
            one_step(
                input,
                "पूर्वी",
                Rule::VarnaVinyasNiyam("3(क)(उ)"),
                "प्रत्यय -ई ले दीर्घ: पूर्व + ई = पूर्वी",
            ),
        );
    }
    if str_eq(input, "पुर्वीय") {
        return Some(
            one_step(
                input,
                "पूर्वीय",
                Rule::VarnaVinyasNiyam("3(क)(उ)"),
                "प्रत्यय -ईय ले दीर्घ: पूर्व + ईय = पूर्वीय",
            ),
        );
    }
    None
}

// ----- tadbhav words use short vowels -----

/// The short counterpart of a long vowel (ी ू ई ऊ); other chars are unchanged.
pub open spec fn hrasva_of(c: char) -> char {
    if c == 'ी' {
        'ि'
    } else if c == 'ू' {
        'ु'
    } else if c == 'ई' {
        'इ'
    } else if c == 'ऊ' {
        'उ'
    } else {
        c
    }
}

fn hrasva_char(c: char) -> (r: char)
    ensures
        r == hrasva_of(c),
{
    if c == 'ी' {
        'ि'
    } else if c == 'ू' {
        'ु'
    } else if c == 'ई' {
        'इ'
    } else if c == 'ऊ' {
        'उ'
    } else {
        c
    }
}

/// `s` with every long vowel except in the final position made short.
pub open spec fn tadbhav_form(s: Seq<char>) -> Seq<char> {
    Seq::new(s.len(), |i: int| if i < s.len() - 1 { hrasva_of(s[i]) } else { s[i] })
}

/// The tadbhav form keeps the length of the word and its last char, writes
/// each long vowel before that short (ी → ि, ू → ु, ई → इ, ऊ → उ), and keeps
/// every other char.
pub proof fn lemma_tadbhav_form_shortens(s: Seq<char>)
    ensures
        tadbhav_form(s).len() == s.len(),
        forall|i: int|
            0 <= i < s.len() ==> {
                let c = s[i];
                let d = #[trigger] tadbhav_form(s)[i];
                if i == s.len() - 1 {
                    d == c
                } else if c == 'ी' {
                    d == 'ि'
                } else if c == 'ू' {
                    d == 'ु'
                } else if c == 'ई' {
                    d == 'इ'
                } else if c == 'ऊ' {
                    d == 'उ'
                } else {
                    d == c
                }
            },
{
}

/// The word ends like a feminine word with a long final ई.
pub open spec fn is_feminine_dirgha(input: Seq<char>) -> bool {
    is_suffix("नी"@, input) || is_suffix("डी"@, input) || is_suffix("ती"@, input) || is_suffix(
        "ली"@,
        input,
    )
}

/// The word is a kinship word with a long vowel, or such a word with a suffix.
pub open spec fn is_kinship_dirgha(input: Seq<char>) -> bool {
    is_prefix("दिदी"@, input) || is_prefix("बहिनी"@, input) || is_prefix("भाउजू"@, input)
        || is_prefix("फुपू"@, input) || is_prefix("सासू"@, input) || is_prefix("जेठानी"@, input)
        || is_prefix("कान्छी"@, input) || is_prefix("बुहारी"@, input) || is_prefix(
        "मितिनी"@,
        input,
    )
}

/// The word carries a tatsam suffix that takes a long ई.
pub open spec fn has_tatsam_suffix_spec(input: Seq<char>) -> bool {
    is_suffix("ीकरण"@, input) || is_suffix("ीकृत"@, input) || is_suffix("ीकार"@, input)
        || is_suffix("ीय"@, input) || is_suffix("ीन"@, input)
}

/// Decision of Academy 3(क) rules 3–12: non-tatsam words take short vowels
/// word-initially and word-medially, when the short form is attested.
pub open spec fn tadbhav_fix(input: Seq<char>, lex: Lexicon) -> Option<Fix> {
    if lex.is_tatsam(input) || is_feminine_dirgha(input) || is_kinship_dirgha(input)
        || has_tatsam_suffix_spec(input) || input.len() < 2 || tadbhav_form(input) == input
        || !lex.has_word(tadbhav_form(input)) {
        None
    } else {
        vfix(tadbhav_form(input), "3(क)-12"@, "तद्भव/देशज शब्दमा ह्रस्व स्वर प्रयोग हुन्छ"@)
    }
}

/// The tadbhav rule writes an attested short-vowel form: it fires only on
/// a word that is not tatsam and whose tadbhav form differs from it and is
/// attested, the correction is that tadbhav form, and the correction is
/// left alone by a second run.
pub proof fn lemma_tadbhav_fix_settles(w: Seq<char>, lex: Lexicon)
    ensures
        tadbhav_fix(w, lex) matches Some(f) ==> {
            &&& !lex.is_tatsam(w)
            &&& f.output == tadbhav_form(w)
            &&& f.output != w
            &&& lex.has_word(f.output)
            &&& tadbhav_form(f.output) == f.output
            &&& tadbhav_fix(f.output, lex) is None
        },
{
    let t = tadbhav_form(w);
    assert(tadbhav_form(t) =~= t);
}

/// Whether the word ends like a feminine word with a long final ई.
fn is_feminine_dirgha_pattern(input: &str) -> (r: bool)
    ensures
        r == is_feminine_dirgha(input@),
{
    ends_with(input, "नी") || ends_with(input, "डी") || ends_with(input, "ती") || ends_with(
        input,
        "ली",
    )
}

/// Whether the word is a kinship word with a long vowel (or one with a suffix).
fn is_kinship_dirgha_pattern(input: &str) -> (r: bool)
    ensures
        r == is_kinship_dirgha(input@),
{
    starts_with(input, "दिदी") || starts_with(input, "बहिनी") || starts_with(input, "भाउजू")
        || starts_with(input, "फुपू") || starts_with(input, "सासू") || starts_with(
        input,
        "जेठानी",
    ) || starts_with(input, "कान्छी") || starts_with(input, "बुहारी") || starts_with(
        input,
        "मितिनी",
    )
}

/// Whether the word carries a tatsam suffix that takes a long ई.
fn has_tatsam_suffix(input: &str) -> (r: bool)
    ensures
        r == has_tatsam_suffix_spec(input@),
{
    ends_with(input, "ीकरण") || ends_with(input, "ीकृत") || ends_with(input, "ीकार")
        || ends_with(input, "ीय") || ends_with(input, "ीन")
}

/// Academy 3(क) rules 3–12: tadbhav/deshaj/aagantuk words take short vowels.
pub fn rule_tadbhav_hrasva(input: &str, lex: &Lexicon) -> (r: Option<Prakriya>)
    ensures
        realizes(r, input@, tadbhav_fix(input@, *lex)),
{
    if lex.tatsam(input) {
        return None;
    }
    if is_feminine_dirgha_pattern(input) || is_kinship_dirgha_pattern(input) || has_tatsam_suffix(
        input,
    ) {
        return None;
    }
    let chars = chars_of(input);
    if chars.len() < 2 {
        return None;
    }
    let mut out: Vec<char> = Vec::new();
    let mut changed = false;
    let mut i: usize = 0;
    while i < chars.len()
        invariant
            chars@ == input@,
            chars.len() >= 2,
            i <= chars.len(),
            out@ == tadbhav_form(chars@).take(i as int),
            changed == (exists|j: int| 0 <= j < i && j < chars@.len() - 1 && #[trigger] hrasva_of(
                chars@[j],
            ) != chars@[j]),
        decreases chars.len() - i,
    {
        if i + 1 < chars.len() {
            let h = hrasva_char(chars[i]);
            if h != chars[i] {
                changed = true;
            }
            out.push(h);
        } else {
            out.push(chars[i]);
        }
        i = i + 1;
        assert(out@ =~= tadbhav_form(chars@).take(i as int));
    }
    assert(out@ =~= tadbhav_form(chars@));
    if !changed {
        assert(tadbhav_form(chars@) =~= chars@);
        return None;
    }
    proof {
        let j = choose|j: int| 0 <= j < i && j < chars@.len() - 1 && #[trigger] hrasva_of(chars@[j])
            != chars@[j];
        assert(tadbhav_form(chars@)[j] != chars@[j]);
    }
    let output = string_of(&out);
    if !lex.contains(output.as_str()) {
        return None;
    }
    Some(
        one_step(
            input,
            output.as_str(),
            Rule::VarnaVinyasNiyam("3(क)-12"),
            "तद्भव/देशज शब्दमा ह्रस्व स्वर प्रयोग हुन्छ",
        ),
    )
}

// ----- long final ई endings -----

/// Decision of Academy 3(क)(ऊ) rules 1–16 for words ending in a short ि:
/// short non-finite verb forms, feminine/place endings and fixed postpositions
/// take a long final ई.
pub open spec fn dirgha_endings_fix(input: Seq<char>, lex: Lexicon) -> Option<Fix> {
    if lex.is_tatsam(input) || input.len() == 0 || input.last() != 'ि' {
        None
    } else if 2 <= input.len() <= 4 && is_vyanjan(input[input.len() - 2]) {
        vfix(
            input.update(input.len() - 1, 'ी'),
            "3(ई)"@,
            "असमापक क्रियामा अन्त्यमा दीर्घ ई हुन्छ"@,
        )
    } else if is_suffix("नि"@, input) {
        vfix(
            input.take(input.len() - 2) + "नी"@,
            "3(ई)"@,
            "स्त्रीलिङ्गी/विशेषण शब्दमा अन्तिम दीर्घ ई"@,
        )
    } else if is_suffix("डि"@, input) {
        vfix(
            input.take(input.len() - 2) + "डी"@,
            "3(ई)"@,
            "स्त्रीलिङ्गी/विशेषण शब्दमा अन्तिम दीर्घ ई"@,
        )
    } else if is_suffix("सानि"@, input) {
        vfix(
            input.take(input.len() - 4) + "सानी"@,
            "3(ई)"@,
            "स्त्रीलिङ्गी/विशेषण शब्दमा अन्तिम दीर्घ ई"@,
        )
    } else if input == "अगाडि"@ {
        vfix("अगाडी"@, "3(ई)"@, "सर्वनाम/अव्यय/सम्बन्धवाचक शब्दमा दीर्घ ई"@)
    } else if input == "पछाडि"@ {
        vfix("पछाडी"@, "3(ई)"@, "सर्वनाम/अव्यय/सम्बन्धवाचक शब्दमा दीर्घ ई"@)
    } else if input == "माथि"@ {
        vfix("माथी"@, "3(ई)"@, "सर्वनाम/अव्यय/सम्बन्धवाचक शब्दमा दीर्घ ई"@)
    } else if input == "तलि"@ {
        vfix("तली"@, "3(ई)"@, "सर्वनाम/अव्यय/सम्बन्धवाचक शब्दमा दीर्घ ई"@)
    } else {
        None
    }
}

/// The long-ending rule only ever lengthens the final ि of a non-tatsam word
/// to ी, citing 3(ई); and it always does so for a non-tatsam word that ends
/// in -नि or -डि, and for a short word (two to four chars) whose final ि
/// follows a consonant.
pub proof fn lemma_dirgha_endings_lengthen_final_i(w: Seq<char>, lex: Lexicon)
    ensures
        dirgha_endings_fix(w, lex) matches Some(f) ==> {
            &&& !lex.is_tatsam(w)
            &&& w.len() > 0
            &&& w.last() == 'ि'
            &&& f.output == w.update(w.len() - 1, 'ी')
            &&& f.rule == crate::rule::RuleView::VarnaVinyasNiyam("3(ई)"@)
        },
        (!lex.is_tatsam(w) && w.len() >= 2 && w.last() == 'ि' && (w[w.len() - 2] == 'न' || w[w.len()
            - 2] == 'ड')) ==> (dirgha_endings_fix(w, lex) matches Some(f) && f.output == w.update(
            w.len() - 1,
            'ी',
        )),
        (!lex.is_tatsam(w) && 2 <= w.len() <= 4 && w.last() == 'ि' && is_vyanjan(w[w.len() - 2]))
            ==> dirgha_endings_fix(w, lex) is Some,
{
    reveal_strlit("नि");
    reveal_strlit("नी");
    reveal_strlit("डि");
    reveal_strlit("डी");
    reveal_strlit("सानि");
    reveal_strlit("सानी");
    reveal_strlit("अगाडि");
    reveal_strlit("अगाडी");
    reveal_strlit("पछाडि");
    reveal_strlit("पछाडी");
    reveal_strlit("माथि");
    reveal_strlit("माथी");
    reveal_strlit("तलि");
    reveal_strlit("तली");
    if w.len() >= 2 {
        let n = w.len();
        assert(is_suffix("नि"@, w) <==> (w[n - 2] == 'न' && w[n - 1] == 'ि')) by {
            if w[n - 2] == 'न' && w[n - 1] == 'ि' {
                assert(w.subrange(n - 2, n as int) =~= "नि"@);
            }
            if is_suffix("नि"@, w) {
                assert(w.subrange(n - 2, n as int)[0] == w[n - 2]);
                assert(w.subrange(n - 2, n as int)[1] == w[n - 1]);
            }
        }
        assert(is_suffix("डि"@, w) <==> (w[n - 2] == 'ड' && w[n - 1] == 'ि')) by {
            if w[n - 2] == 'ड' && w[n - 1] == 'ि' {
                assert(w.subrange(n - 2, n as int) =~= "डि"@);
            }
            if is_suffix("डि"@, w) {
                assert(w.subrange(n - 2, n as int)[0] == w[n - 2]);
                assert(w.subrange(n - 2, n as int)[1] == w[n - 1]);
            }
        }
        assert(w.take(n - 2) + "नी"@ =~= w.update(n - 1, 'ी') <== w[n - 2] == 'न');
        assert(w.take(n - 2) + "डी"@ =~= w.update(n - 1, 'ी') <== w[n - 2] == 'ड');
        if n >= 4 && is_suffix("सानि"@, w) {
            assert(w.subrange(n - 4, n as int)[2] == w[n - 2]);
            assert(w.subrange(n - 4, n as int)[3] == w[n - 1]);
        }
    }
    if w == "अगाडि"@ {
        assert("अगाडी"@ =~= w.update(w.len() - 1, 'ी'));
    }
    if w == "पछाडि"@ {
        assert("पछाडी"@ =~= w.update(w.len() - 1, 'ी'));
    }
    if w == "माथि"@ {
        assert("माथी"@ =~= w.update(w.len() - 1, 'ी'));
    }
    if w == "तलि"@ {
        assert("तली"@ =~= w.update(w.len() - 1, 'ी'));
    }
}

/// Academy 3(क)(ऊ) rules 1–16: feminine nouns, -ई/-वती suffixes, occupation,
/// place and language words take a long final ई.
pub fn rule_dirgha_endings(input: &str, lex: &Lexicon) -> (r: Option<Prakriya>)
    ensures
        realizes(r, input@, dirgha_endings_fix(input@, *lex)),
{
    if lex.tatsam(input) {
        return None;
    }
    let last = match last_char(input) {
        Some(c) => c,
        None => {
            return None;
        },
    };
    if last != 'ि' {
        return None;
    }
    let n = char_count(input);
    proof {
        reveal_strlit("नि");
        reveal_strlit("डि");
        reveal_strlit("सानि");
    }
    if 2 <= n && n <= 4 {
        let penult = char_at(input, n - 2);
        if vyanjan(penult) {
            let output = with_char_at(input, n - 1, 'ी');
            return Some(
                one_step(
                    input,
                    output.as_str(),
                    Rule::VarnaVinyasNiyam("3(ई)"),
                    "असमापक क्रियामा अन्त्यमा दीर्घ ई हुन्छ",
                ),
            );
        }
    }
    let desc_ending = "स्त्रीलिङ्गी/विशेषण शब्दमा अन्तिम दीर्घ ई";
    if ends_with(input, "नि") {
        let output = replace_tail(input, 2, "नी");
        return Some(one_step(input, output.as_str(), Rule::VarnaVinyasNiyam("3(ई)"), desc_ending));
    }
    if ends_with(input, "डि") {
        let output = replace_tail(input, 2, "डी");
        return Some(one_step(input, output.as_str(), Rule::VarnaVinyasNiyam("3(ई)"), desc_ending));
    }
    if ends_with(input, "सानि") {
        let output = replace_tail(input, 4, "सानी");
        return Some(one_step(input, output.as_str(), Rule::VarnaVinyasNiyam("3(ई)"), desc_ending));
    }
    let desc_word = "सर्वनाम/अव्यय/सम्बन्धवाचक शब्दमा दीर्घ ई";
    if str_eq(input, "अगाडि") {
        return Some(one_step(input, "अगाडी", Rule::VarnaVinyasNiyam("3(ई)"), desc_word));
    }
    if str_eq(input, "पछाडि") {
        return Some(one_step(input, "पछाडी", Rule::VarnaVinyasNiyam("3(ई)"), desc_word));
    }
    if str_eq(input, "माथि") {
        return Some(one_step(input, "माथी", Rule::VarnaVinyasNiyam("3(ई)"), desc_word));
    }
    if str_eq(input, "तलि") {
        return Some(one_step(input, "तली", Rule::VarnaVinyasNiyam("3(ई)"), desc_word));
    }
    None
}

// ----- lexicon-backed long final vowel -----

/// Lexicon-backed part of the final-vowel rule: an unattested word whose
/// long-final form is attested takes that form.
pub open spec fn kosha_dirgha_impl(input: Seq<char>, lex: Lexicon, dirgha: char, label: Seq<char>, code: Seq<char>) -> Option<Fix> {
    if lex.has_word(input) || !lex.has_word(input.update(input.len() - 1, dirgha)) {
        None
    } else {
        vfix(
            input.update(input.len() - 1, dirgha),
            code,
            "शब्दको अन्त्यमा दीर्घ "@ + label + " आवश्यक (शब्दकोश प्रमाणित)"@,
        )
    }
}

/// Decision of the lexicon-backed final ह्रस्व → दीर्घ rule for non-tatsam words.
pub open spec fn kosha_dirgha_fix(input: Seq<char>, lex: Lexicon) -> Option<Fix> {
    if lex.is_tatsam(input) || input.len() == 0 {
        None
    } else if input.last() == 'ि' {
        kosha_dirgha_impl(input, lex, 'ी', "ई"@, "3(क)(ई)"@)
    } else if input.last() == 'ु' {
        kosha_dirgha_impl(input, lex, 'ू', "ऊ"@, "3(क)(ऊ)"@)
    } else {
        None
    }
}

fn kosha_backed_dirgha_impl(input: &str, lex: &Lexicon, dirgha: char, vowel_label: &str) -> (r: Option<Prakriya>)
    requires
        input@.len() > 0,
        dirgha == 'ी' || dirgha == 'ू',
    ensures
        realizes(
            r,
            input@,
            kosha_dirgha_impl(
                input@,
                *lex,
                dirgha,
                vowel_label@,
                if dirgha == 'ी' { "3(क)(ई)"@ } else { "3(क)(ऊ)"@ },
            ),
        ),
{
    if lex.contains(input) {
        return None;
    }
    let n = char_count(input);
    let dirgha_form = with_char_at(input, n - 1, dirgha);
    if !lex.contains(dirgha_form.as_str()) {
        return None;
    }
    let rule = if dirgha == 'ी' {
        Rule::VarnaVinyasNiyam("3(क)(ई)")
    } else {
        Rule::VarnaVinyasNiyam("3(क)(ऊ)")
    };
    let d1 = concat("शब्दको अन्त्यमा दीर्घ ", vowel_label);
    let desc = concat(d1.as_str(), " आवश्यक (शब्दकोश प्रमाणित)");
    Some(one_step(input, dirgha_form.as_str(), rule, desc.as_str()))
}

/// A non-tatsam word ending in a short vowel takes the long final vowel when
/// only the long form is attested.
pub fn kosha_backed_dirgha_correction(input: &str, lex: &Lexicon) -> (r: Option<Prakriya>)
    ensures
        realizes(r, input@, kosha_dirgha_fix(input@, *lex)),
{
    if lex.tatsam(input) {
        return None;
    }
    let last = match last_char(input) {
        Some(c) => c,
        None => {
            return None;
        },
    };
    if last == 'ि' {
        return kosha_backed_dirgha_impl(input, lex, 'ी', "ई");
    }
    if last == 'ु' {
        return kosha_backed_dirgha_impl(input, lex, 'ू', "ऊ");
    }
    None
}

// ----- kinship words -----

/// Decision of Academy 3(क)(इ) rule 1: masculine kinship words end short,
/// feminine ones long.
pub open spec fn kinship_fix(input: Seq<char>, lex: Lexicon) -> Option<Fix> {
    if !(lex.origin_of(input) == Some(Origin::Tadbhav) || lex.origin_of(input) == Some(
        Origin::Deshaj,
    )) {
        None
    } else if input == "दाजू"@ {
        vfix("दाजु"@, "3(क)(इ)-1"@, "पुलिङ्ग नातागोता शब्दमा ह्रस्व"@)
    } else if input == "बाबू"@ {
        vfix("बाबु"@, "3(क)(इ)-1"@, "पुलिङ्ग नातागोता शब्दमा ह्रस्व"@)
    } else if input == "भिनाजू"@ {
        vfix("भिनाजु"@, "3(क)(इ)-1"@, "पुलिङ्ग नातागोता शब्दमा ह्रस्व"@)
    } else if input == "साहू"@ {
        vfix("साहु"@, "3(क)(इ)-1"@, "पुलिङ्ग नातागोता शब्दमा ह्रस्व"@)
    } else if input == "भाउजु"@ {
        vfix("भाउजू"@, "3(ई)"@, "स्त्रीलिङ्ग नातागोता शब्दमा दीर्घ"@)
    } else if input == "फुपु"@ {
        vfix("फुपू"@, "3(ई)"@, "स्त्रीलिङ्ग नातागोता शब्दमा दीर्घ"@)
    } else if input == "सासु"@ {
        vfix("सासू"@, "3(ई)"@, "स्त्रीलिङ्ग नातागोता शब्दमा दीर्घ"@)
    } else if input == "बुहारि"@ {
        vfix("बुहारी"@, "3(ई)"@, "स्त्रीलिङ्ग नातागोता शब्दमा दीर्घ"@)
    } else if input == "जेठानि"@ {
        vfix("जेठानी"@, "3(ई)"@, "स्त्रीलिङ्ग नातागोता शब्दमा दीर्घ"@)
    } else if input == "कान्छि"@ {
        vfix("कान्छी"@, "3(ई)"@, "स्त्रीलिङ्ग नातागोता शब्दमा दीर्घ"@)
    } else {
        None
    }
}

/// The kinship rule corrects exactly the masculine kinship words दाजू, बाबू,
/// भिनाजू, साहू and the feminine ones भाउजु, फुपु, सासु, बुहारि, जेठानि, कान्छि,
/// when the lexicon records them as tadbhav or deshaj; the correction only
/// toggles the final vowel sign: a masculine word ends short (ू → ु, citing
/// 3(क)(इ)-1), a feminine one long (ु → ू, ि → ी, citing 3(ई)).
pub proof fn lemma_kinship_toggles_final_vowel(w: Seq<char>, lex: Lexicon)
    ensures
        kinship_fix(w, lex) is Some <==> ((lex.origin_of(w) == Some(Origin::Tadbhav) || lex.origin_of(w)
            == Some(Origin::Deshaj)) && (w == "दाजू"@ || w == "बाबू"@ || w == "भिनाजू"@ || w == "साहू"@ || w == "भाउजु"@ || w == "फुपु"@ || w == "सासु"@ || w == "बुहारि"@ || w == "जेठानि"@ || w == "कान्छि"@)),
        kinship_fix(w, lex) matches Some(f) ==> w.len() > 0 && (
            (w.last() == 'ू' && f.output == w.update(w.len() - 1, 'ु') && f.rule
                == crate::rule::RuleView::VarnaVinyasNiyam("3(क)(इ)-1"@))
            || (w.last() == 'ु' && f.output == w.update(w.len() - 1, 'ू') && f.rule
                == crate::rule::RuleView::VarnaVinyasNiyam("3(ई)"@))
            || (w.last() == 'ि' && f.output == w.update(w.len() - 1, 'ी') && f.rule
                == crate::rule::RuleView::VarnaVinyasNiyam("3(ई)"@))),
{
    reveal_strlit("दाजू");
    reveal_strlit("दाजु");
    reveal_strlit("बाबू");
    reveal_strlit("बाबु");
    reveal_strlit("भिनाजू");
    reveal_strlit("भिनाजु");
    reveal_strlit("साहू");
    reveal_strlit("साहु");
    reveal_strlit("भाउजु");
    reveal_strlit("भाउजू");
    reveal_strlit("फुपु");
    reveal_strlit("फुपू");
    reveal_strlit("सासु");
    reveal_strlit("सासू");
    reveal_strlit("बुहारि");
    reveal_strlit("बुहारी");
    reveal_strlit("जेठानि");
    reveal_strlit("जेठानी");
    reveal_strlit("कान्छि");
    reveal_strlit("कान्छी");
    if w == "दाजू"@ {
        assert("दाजु"@ =~= w.update(w.len() - 1, 'ु'));
    }
    if w == "बाबू"@ {
        assert("बाबु"@ =~= w.update(w.len() - 1, 'ु'));
    }
    if w == "भिनाजू"@ {
        assert("भिनाजु"@ =~= w.update(w.len() - 1, 'ु'));
    }
    if w == "साहू"@ {
        assert("साहु"@ =~= w.update(w.len() - 1, 'ु'));
    }
    if w == "भाउजु"@ {
        assert("भाउजू"@ =~= w.update(w.len() - 1, 'ू'));
    }
    if w == "फुपु"@ {
        assert("फुपू"@ =~= w.update(w.len() - 1, 'ू'));
    }
    if w == "सासु"@ {
        assert("सासू"@ =~= w.update(w.len() - 1, 'ू'));
    }
    if w == "बुहारि"@ {
        assert("बुहारी"@ =~= w.update(w.len() - 1, 'ी'));
    }
    if w == "जेठानि"@ {
        assert("जेठानी"@ =~= w.update(w.len() - 1, 'ी'));
    }
    if w == "कान्छि"@ {
        assert("कान्छी"@ =~= w.update(w.len() - 1, 'ी'));
    }
}

/// Academy 3(क)(इ) rule 1: masculine kinship words end in a short vowel;
/// feminine kinship words in a long one.
pub fn rule_kinship_tadbhav(input: &str, lex: &Lexicon) -> (r: Option<Prakriya>)
    ensures
        realizes(r, input@, kinship_fix(input@, *lex)),
{
    match lex.classify(input) {
        Some(Origin::Tadbhav) | Some(Origin::Deshaj) => {},
        _ => {
            return None;
        },
    }
    let masc = "पुलिङ्ग नातागोता शब्दमा ह्रस्व";
    let fem = "स्त्रीलिङ्ग नातागोता शब्दमा दीर्घ";
    let m = Rule::VarnaVinyasNiyam("3(क)(इ)-1");
    let f = Rule::VarnaVinyasNiyam("3(ई)");
    if str_eq(input, "दाजू") {
        return Some(one_step(input, "दाजु", m, masc));
    }
    if str_eq(input, "बाबू") {
        return Some(one_step(input, "बाबु", m, masc));
    }
    if str_eq(input, "भिनाजू") {
        return Some(one_step(input, "भिनाजु", m, masc));
    }
    if str_eq(input, "साहू") {
        return Some(one_step(input, "साहु", m, masc));
    }
    if str_eq(input, "भाउजु") {
        return Some(one_step(input, "भाउजू", f, fem));
    }
    if str_eq(input, "फुपु") {
        return Some(one_step(input, "फुपू", f, fem));
    }
    if str_eq(input, "सासु") {
        return Some(one_step(input, "सासू", f, fem));
    }
    if str_eq(input, "बुहारि") {
        return Some(one_step(input, "बुहारी", f, fem));
    }
    if str_eq(input, "जेठानि") {
        return Some(one_step(input, "जेठानी", f, fem));
    }
    if str_eq(input, "कान्छि") {
        return Some(one_step(input, "कान्छी", f, fem));
    }
    None
}

} // verus!
