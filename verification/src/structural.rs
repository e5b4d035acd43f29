//! Structural corrections: शृ, redundant -ता, and panchham varna before stops.
use vstd::prelude::*;

use crate::lexicon::Lexicon;
use crate::rule::{Fix, Prakriya, Rule, RuleView, one_step, realizes, vfix};
use crate::text::{
    chars_of, contains, contains_char, ends_with, has_sub, is_prefix, is_suffix, matches_at,
    replace, replace_all, str_eq, string_of,
};

verus! {

broadcast use vstd::string::group_string_axioms;

/// Decision of the शृ rule: श्रृ is written शृ.
pub open spec fn shri_fix(input: Seq<char>) -> Option<Fix> {
    if has_sub(input, "श्रृ"@) {
        Some(
            Fix {
                output: replace_all(input, "श्रृ"@, "शृ"@),
                rule: RuleView::ShuddhaAshuddha("Section 4"@),
                desc: "शृ not श्रृ: श + ृ = शृ (no र involved)"@,
            },
        )
    } else {
        None
    }
}

/// श्रृ → शृ (a common error pattern).
pub fn rule_shri_correction(input: &str) -> (r: Option<Prakriya>)
    ensures
        realizes(r, input@, shri_fix(input@)),
{
    if contains(input, "श्रृ") {
        proof {
            reveal_strlit("श्रृ");
        }
        let output = replace(input, "श्रृ", "शृ");
        return Some(
            one_step(
                input,
                output.as_str(),
                Rule::ShuddhaAshuddha("Section 4"),
                "शृ not श्रृ: श + ृ = शृ (no र involved)",
            ),
        );
    }
    None
}

/// The word ends in an abstract-noun form that already carries -य, so -ता is redundant.
pub open spec fn has_redundant_ta(input: Seq<char>) -> bool {
    is_suffix("र्यता"@, input) || is_suffix("त्यता"@, input) || is_suffix("थ्यता"@, input)
}

/// Decision of the redundant-suffix rule: सौन्दर्यता → सौन्दर्य.
pub open spec fn redundant_suffix_fix(input: Seq<char>) -> Option<Fix> {
    if has_redundant_ta(input) {
        Some(
            Fix {
                output: input.take(input.len() - 2),
                rule: RuleView::ShuddhaAshuddha("Section 4"@),
                desc: "redundant -ता: abstract noun already complete"@,
            },
        )
    } else {
        None
    }
}

/// The pattern श्रृ, letter by letter.
spec fn shri_pat() -> Seq<char> {
    seq!['श', '्', 'र', 'ृ']
}

/// Its replacement शृ, letter by letter.
spec fn shri_rep() -> Seq<char> {
    seq!['श', 'ृ']
}

proof fn lemma_shri_head(t: Seq<char>)
    requires
        t.len() > 0,
    ensures
        replace_all(t, shri_pat(), shri_rep()).len() > 0,
        is_prefix(shri_pat(), t) ==> replace_all(t, shri_pat(), shri_rep())[0] == 'श',
        !is_prefix(shri_pat(), t) ==> replace_all(t, shri_pat(), shri_rep()) == seq![t[0]]
            + replace_all(t.skip(1), shri_pat(), shri_rep()),
{
}

proof fn lemma_shri_gone(s: Seq<char>)
    ensures
        !has_sub(replace_all(s, shri_pat(), shri_rep()), shri_pat()),
    decreases s.len(),
{
    let p = shri_pat();
    let r = shri_rep();
    let out = replace_all(s, p, r);
    if s.len() == 0 {
        assert forall|i: int| !#[trigger] matches_at(out, p, i) by {}
    } else if is_prefix(p, s) {
        let rest = replace_all(s.skip(4), p, r);
        lemma_shri_gone(s.skip(4));
        assert(out == r + rest);
        assert forall|i: int| !#[trigger] matches_at(out, p, i) by {
            if matches_at(out, p, i) {
                if i == 0 {
                    assert(out.subrange(0, 4)[1] == p[1]);
                } else if i == 1 {
                    assert(out.subrange(1, 5)[0] == p[0]);
                } else {
                    assert(rest.subrange(i - 2, i + 2) =~= out.subrange(i, i + 4));
                    assert(matches_at(rest, p, i - 2));
                }
            }
        }
    } else {
        let s1 = s.skip(1);
        let rest = replace_all(s1, p, r);
        lemma_shri_gone(s1);
        lemma_shri_head(s);
        assert(out == seq![s[0]] + rest);
        assert forall|i: int| !#[trigger] matches_at(out, p, i) by {
            if matches_at(out, p, i) {
                if i == 0 {
                    let w = out.subrange(0, 4);
                    assert(w[0] == 'श' && w[1] == '्' && w[2] == 'र' && w[3] == 'ृ');
                    assert(s[0] == 'श');
                    lemma_shri_head(s1);
                    assert(rest[0] == '्');
                    assert(s1[0] == '्');
                    let s2 = s1.skip(1);
                    assert(s2 =~= s.skip(2));
                    let rest2 = replace_all(s2, p, r);
                    assert(rest == seq![s1[0]] + rest2);
                    lemma_shri_head(s2);
                    assert(rest2[0] == 'र');
                    assert(s2[0] == 'र');
                    let s3 = s2.skip(1);
                    let rest3 = replace_all(s3, p, r);
                    assert(rest2 == seq![s2[0]] + rest3);
                    assert(rest3.len() > 0);
                    if s3.len() == 0 {
                        assert(rest3 =~= s3);
                    }
                    lemma_shri_head(s3);
                    assert(rest3[0] == 'ृ');
                    assert(s3[0] == 'ृ');
                    assert(s[1] == s1[0] && s[2] == s2[0] && s[3] == s3[0]);
                    assert(s.subrange(0, 4) =~= p);
                } else {
                    assert(rest.subrange(i - 1, i + 3) =~= out.subrange(i, i + 4));
                    assert(matches_at(rest, p, i - 1));
                }
            }
        }
    }
}

/// Correcting श्रृ leaves no श्रृ behind, so a second correction finds
/// nothing to do.
pub proof fn lemma_shri_correction_complete(input: Seq<char>)
    ensures
        shri_fix(input) matches Some(f) ==> !has_sub(f.output, "श्रृ"@) && shri_fix(f.output) is None,
{
    reveal_strlit("श्रृ");
    reveal_strlit("शृ");
    assert("श्रृ"@ =~= shri_pat());
    assert("शृ"@ =~= shri_rep());
    lemma_shri_gone(input);
}

/// The redundant-suffix rule fires exactly on words ending in -र्यता,
/// -त्यता or -थ्यता, and its correction is the word without that final -ता.
pub proof fn lemma_redundant_ta_dropped(w: Seq<char>)
    ensures
        redundant_suffix_fix(w) is Some <==> (is_suffix("र्यता"@, w) || is_suffix("त्यता"@, w)
            || is_suffix("थ्यता"@, w)),
        redundant_suffix_fix(w) matches Some(f) ==> f.output + "ता"@ == w,
{
    reveal_strlit("र्यता");
    reveal_strlit("त्यता");
    reveal_strlit("थ्यता");
    reveal_strlit("ता");
    if redundant_suffix_fix(w) is Some {
        let n = w.len() as int;
        let sfx = if is_suffix("र्यता"@, w) {
            "र्यता"@
        } else if is_suffix("त्यता"@, w) {
            "त्यता"@
        } else {
            "थ्यता"@
        };
        assert(w.subrange(n - 5, n) == sfx);
        assert(w.subrange(n - 2, n) =~= sfx.subrange(3, 5));
        assert("र्यता"@.subrange(3, 5) =~= "ता"@);
        assert("त्यता"@.subrange(3, 5) =~= "ता"@);
        assert("थ्यता"@.subrange(3, 5) =~= "ता"@);
        assert forall|i: int| 0 <= i < n implies (w.take(n - 2) + "ता"@)[i] == w[i] by {
            if i >= n - 2 {
                assert(w[i] == w.subrange(n - 2, n)[i - (n - 2)]);
            }
        }
        assert(w.take(n - 2) + "ता"@ =~= w);
    }
}

/// Words ending in -र्यता, -त्यता or -थ्यता lose the redundant -ता.
pub fn rule_redundant_suffix(input: &str) -> (r: Option<Prakriya>)
    ensures
        realizes(r, input@, redundant_suffix_fix(input@)),
{
    if ends_with(input, "र्यता") || ends_with(input, "त्यता") || ends_with(input, "थ्यता") {
        proof {
            reveal_strlit("र्यता");
            reveal_strlit("त्यता");
            reveal_strlit("थ्यता");
        }
        let v = chars_of(input);
        let mut stem: Vec<char> = Vec::new();
        let mut i: usize = 0;
        while i < v.len() - 2
            invariant
                v@ == input@,
                v.len() >= 5,
                i <= v.len() - 2,
                stem@ == v@.take(i as int),
            decreases v.len() - 2 - i,
        {
            stem.push(v[i]);
            i = i + 1;
            assert(stem@ =~= v@.take(i as int));
        }
        let output = string_of(&stem);
        return Some(
            one_step(
                input,
                output.as_str(),
                Rule::ShuddhaAshuddha("Section 4"),
                "redundant -ता: abstract noun already complete",
            ),
        );
    }
    None
}

/// The panchham varna (nasal of the same class) for a stop consonant.
pub open spec fn panchham_of(c: char) -> Option<char> {
    if c == 'क' || c == 'ख' || c == 'ग' || c == 'घ' {
        Some('ङ')
    } else if c == 'च' || c == 'छ' || c == 'ज' || c == 'झ' {
        Some('ञ')
    } else if c == 'ट' || c == 'ठ' || c == 'ड' || c == 'ढ' || c == 'ण' {
        Some('ण')
    } else if c == 'त' || c == 'थ' || c == 'द' || c == 'ध' || c == 'न' {
        Some('न')
    } else if c == 'प' || c == 'फ' || c == 'ब' || c == 'भ' || c == 'म' {
        Some('म')
    } else {
        None
    }
}

/// The panchham varna of a stop is the nasal of its class: ङ for क ख ग घ,
/// ञ for च छ ज झ, ण for ट ठ ड ढ ण, न for त थ द ध न, म for प फ ब भ म; no other
/// char has one.
pub proof fn lemma_panchham_by_class(c: char)
    ensures
        panchham_of(c) == Some('ङ') <==> (c == 'क' || c == 'ख' || c == 'ग' || c == 'घ'),
        panchham_of(c) == Some('ञ') <==> (c == 'च' || c == 'छ' || c == 'ज' || c == 'झ'),
        panchham_of(c) == Some('ण') <==> (c == 'ट' || c == 'ठ' || c == 'ड' || c == 'ढ' || c == 'ण'),
        panchham_of(c) == Some('न') <==> (c == 'त' || c == 'थ' || c == 'द' || c == 'ध' || c == 'न'),
        panchham_of(c) == Some('म') <==> (c == 'प' || c == 'फ' || c == 'ब' || c == 'भ' || c == 'म'),
        panchham_of(c) is Some ==> (panchham_of(c) == Some('ङ') || panchham_of(c) == Some('ञ')
            || panchham_of(c) == Some('ण') || panchham_of(c) == Some('न') || panchham_of(c) == Some(
            'म',
        )),
{
}

/// Get the panchham varna (fifth consonant) for a given stop consonant.
pub fn get_panchham_for(c: char) -> (r: Option<char>)
    ensures
        r == panchham_of(c),
{
    if c == 'क' || c == 'ख' || c == 'ग' || c == 'घ' {
        Some('ङ')
    } else if c == 'च' || c == 'छ' || c == 'ज' || c == 'झ' {
        Some('ञ')
    } else if c == 'ट' || c == 'ठ' || c == 'ड' || c == 'ढ' || c == 'ण' {
        Some('ण')
    } else if c == 'त' || c == 'थ' || c == 'द' || c == 'ध' || c == 'न' {
        Some('न')
    } else if c == 'प' || c == 'फ' || c == 'ब' || c == 'भ' || c == 'म' {
        Some('म')
    } else {
        None
    }
}

/// `s` with every anusvara (ं) that stands before a stop consonant written as
/// that stop's panchham varna plus halanta.
pub open spec fn panchham_rewrite(s: Seq<char>) -> Seq<char>
    decreases s.len(),
{
    if s.len() == 0 {
        s
    } else if s[0] == 'ं' && s.len() >= 2 && panchham_of(s[1]) is Some {
        seq![panchham_of(s[1])->0, '्'] + panchham_rewrite(s.skip(1))
    } else {
        seq![s[0]] + panchham_rewrite(s.skip(1))
    }
}

/// Decision of the panchham rule (Academy 3(ख)(अ)) for a tatsam word.
pub open spec fn panchham_fix(input: Seq<char>, lex: Lexicon) -> Option<Fix> {
    if lex.is_tatsam(input) && panchham_rewrite(input) != input {
        vfix(
            panchham_rewrite(input),
            "3(ख)-पञ्चम"@,
            "तत्सम शब्दमा स्पर्श व्यञ्जन अघि पञ्चम वर्ण प्रयोग"@,
        )
    } else {
        None
    }
}

proof fn lemma_panchham_rewrite_step(s: Seq<char>, i: int)
    requires
        0 <= i < s.len(),
    ensures
        panchham_rewrite(s.skip(i)) == (if s[i] == 'ं' && i + 1 < s.len() && panchham_of(
            s[i + 1],
        ) is Some {
            seq![panchham_of(s[i + 1])->0, '्']
        } else {
            seq![s[i]]
        }) + panchham_rewrite(s.skip(i + 1)),
{
    assert(s.skip(i).skip(1) =~= s.skip(i + 1));
    assert(s.skip(i)[0] == s[i]);
    if i + 1 < s.len() {
        assert(s.skip(i)[1] == s[i + 1]);
    }
}

proof fn lemma_panchham_rewrite_unchanged(s: Seq<char>)
    ensures
        panchham_rewrite(s) == s <==> !(exists|i: int|
            0 <= i < s.len() - 1 && s[i] == 'ं' && #[trigger] panchham_of(s[i + 1]) is Some),
    decreases s.len(),
{
    if s.len() == 0 {
    } else {
        let t = s.skip(1);
        lemma_panchham_rewrite_unchanged(t);
        if s[0] == 'ं' && s.len() >= 2 && panchham_of(s[1]) is Some {
            assert(panchham_rewrite(s).len() == 2 + panchham_rewrite(t).len());
            lemma_rewrite_len_ge(t);
            assert(panchham_rewrite(s) != s);
        } else {
            if panchham_rewrite(s) == s {
                assert(panchham_rewrite(t) =~= s.skip(1)) by {
                    assert(panchham_rewrite(s) =~= seq![s[0]] + panchham_rewrite(t));
                }
                assert forall|i: int|
                    0 <= i < s.len() - 1 && s[i] == 'ं' implies !(#[trigger] panchham_of(
                    s[i + 1],
                ) is Some) by {
                    if i > 0 {
                        assert(t[i - 1] == s[i]);
                        assert(t[i] == s[i + 1]);
                    }
                }
            } else {
                if panchham_rewrite(t) == t {
                    assert(panchham_rewrite(s) =~= s) by {
                        assert(s =~= seq![s[0]] + t);
                    }
                }
                let j = choose|j: int|
                    0 <= j < t.len() - 1 && t[j] == 'ं' && #[trigger] panchham_of(t[j + 1]) is Some;
                assert(s[j + 1] == t[j] && s[j + 2] == t[j + 1]);
                assert(panchham_of(s[(j + 1) + 1]) is Some);
            }
        }
    }
}

proof fn lemma_rewrite_len_ge(s: Seq<char>)
    ensures
        panchham_rewrite(s).len() >= s.len(),
    decreases s.len(),
{
    if s.len() > 0 {
        lemma_rewrite_len_ge(s.skip(1));
    }
}

/// `input` with each anusvara before a stop consonant written as that stop's
/// panchham varna plus halanta.
pub fn write_panchham(input: &str) -> (r: String)
    ensures
        r@ == panchham_rewrite(input@),
{
    let chars = chars_of(input);
    let mut result: Vec<char> = Vec::new();
    let mut i: usize = 0;
    assert(chars@.skip(0) =~= chars@);
    while i < chars.len()
        invariant
            chars@ == input@,
            i <= chars.len(),
            result@ + panchham_rewrite(chars@.skip(i as int)) == panchham_rewrite(chars@),
        decreases chars.len() - i,
    {
        proof {
            lemma_panchham_rewrite_step(chars@, i as int);
        }
        let ghost old_result = result@;
        let mut replaced = false;
        if chars[i] == 'ं' && i + 1 < chars.len() {
            match get_panchham_for(chars[i + 1]) {
                Some(p) => {
                    result.push(p);
                    result.push('्');
                    replaced = true;
                    assert(result@ =~= old_result + seq![p, '्']);
                },
                None => {},
            }
        }
        if !replaced {
            result.push(chars[i]);
        }
        i = i + 1;
        proof {
            assert(result@ + panchham_rewrite(chars@.skip(i as int)) =~= panchham_rewrite(chars@));
        }
    }
    proof {
        assert(chars@.skip(i as int) =~= Seq::<char>::empty());
        assert(result@ =~= panchham_rewrite(chars@));
    }
    string_of(&result)
}

/// Academy 3(ख)(अ): in tatsam words an anusvara before a stop consonant is
/// written as the panchham varna of that stop plus halanta (संकेत → सङ्केत).
pub fn rule_panchham_varna(input: &str, lex: &Lexicon) -> (r: Option<Prakriya>)
    ensures
        realizes(r, input@, panchham_fix(input@, *lex)),
{
    if !lex.tatsam(input) {
        return None;
    }
    if !contains_char(input, 'ं') {
        proof {
            if panchham_rewrite(input@) != input@ {
                lemma_panchham_rewrite_unchanged(input@);
                let j = choose|j: int|
                    0 <= j < input@.len() - 1 && input@[j] == 'ं' && #[trigger] panchham_of(
                        input@[j + 1],
                    ) is Some;
                assert(input@.contains(input@[j]));
            }
        }
        return None;
    }
    let output = write_panchham(input);
    if !str_eq(output.as_str(), input) {
        return Some(
            one_step(
                input,
                output.as_str(),
                Rule::VarnaVinyasNiyam("3(ख)-पञ्चम"),
                "तत्सम शब्दमा स्पर्श व्यञ्जन अघि पञ्चम वर्ण प्रयोग",
            ),
        );
    }
    None
}

} // verus!
