//! Particles (निपात) written joined to the word before them: the particles
//! that lean on a word (शब्दाश्रित) and those that lean on the sentence
//! (वाक्याश्रित) are written apart.
use vstd::prelude::*;

use crate::common::{is_word_boundary, word_boundary};
use crate::diagnostic::Diagnostic;
use crate::generalized::{
    has_same_rewrite, lemma_extension_refl, lemma_extension_report, overlaps_other,
    overlaps_other_span, phrase_extension, phrase_finding, report, report_finding, same_rewrite,
    seg_span, short_particle, strs_view,
};
use crate::lexicon::Lexicon;
use crate::text::{
    char_at, char_count, concat, concat3, ends_with, is_suffix, last_char, owned, skip_chars,
    str_eq, strip_suffix, take_chars,
};
use crate::tiryak::{PassState, state_of};
use crate::tokenizer::{Token, TokenView};

verus! {

broadcast use vstd::string::group_string_axioms;

/// The particles that lean on a word, in the order they are tried.
pub open spec fn word_particles() -> Seq<Seq<char>> {
    seq!["चाहिँ"@, "झैँ"@, "नै"@, "पो"@, "नि"@, "त"@, "ल"@]
}

/// The particles that lean on a word are exactly चाहिँ, झैँ, नै, पो, नि, त and ल.
pub proof fn lemma_word_particles_are_the_seven(c: Seq<char>)
    ensures
        word_particles().contains(c) <==> (c == "चाहिँ"@ || c == "झैँ"@ || c == "नै"@ || c == "पो"@ || c == "नि"@ || c == "त"@ || c == "ल"@),
{
    let t = word_particles();
    if c == "चाहिँ"@ {
        assert(t[0] == c);
    }
    if c == "झैँ"@ {
        assert(t[1] == c);
    }
    if c == "नै"@ {
        assert(t[2] == c);
    }
    if c == "पो"@ {
        assert(t[3] == c);
    }
    if c == "नि"@ {
        assert(t[4] == c);
    }
    if c == "त"@ {
        assert(t[5] == c);
    }
    if c == "ल"@ {
        assert(t[6] == c);
    }
    if t.contains(c) {
        let i = choose|i: int| 0 <= i < t.len() && t[i] == c;
        assert(0 <= i < 7);
    }
}

fn word_particle(k: usize) -> (r: &'static str)
    requires
        k < 7,
    ensures
        r@ == word_particles()[k as int],
{
    if k == 0 {
        "चाहिँ"
    } else if k == 1 {
        "झैँ"
    } else if k == 2 {
        "नै"
    } else if k == 3 {
        "पो"
    } else if k == 4 {
        "नि"
    } else if k == 5 {
        "त"
    } else {
        "ल"
    }
}

/// The particles that lean on the sentence and are split off a word; the
/// short, many-sided ones (र, के, कि, रे, है) are left alone.
pub open spec fn sentence_particles() -> Seq<Seq<char>> {
    seq!["अरे"@, "क्या"@, "क्यार"@, "खै"@, "नाइँ"@, "यारे"@, "सके"@, "हगि"@]
}

/// The particles split off as leaning on the sentence are exactly अरे, क्या,
/// क्यार, खै, नाइँ, यारे, सके and हगि.
pub proof fn lemma_sentence_particles_are_the_eight(c: Seq<char>)
    ensures
        sentence_particles().contains(c) <==> (c == "अरे"@ || c == "क्या"@ || c == "क्यार"@ || c == "खै"@ || c == "नाइँ"@ || c == "यारे"@ || c == "सके"@ || c == "हगि"@),
{
    let t = sentence_particles();
    if c == "अरे"@ {
        assert(t[0] == c);
    }
    if c == "क्या"@ {
        assert(t[1] == c);
    }
    if c == "क्यार"@ {
        assert(t[2] == c);
    }
    if c == "खै"@ {
        assert(t[3] == c);
    }
    if c == "नाइँ"@ {
        assert(t[4] == c);
    }
    if c == "यारे"@ {
        assert(t[5] == c);
    }
    if c == "सके"@ {
        assert(t[6] == c);
    }
    if c == "हगि"@ {
        assert(t[7] == c);
    }
    if t.contains(c) {
        let i = choose|i: int| 0 <= i < t.len() && t[i] == c;
        assert(0 <= i < 8);
    }
}

fn sentence_particle(k: usize) -> (r: &'static str)
    requires
        k < 8,
    ensures
        r@ == sentence_particles()[k as int],
{
    if k == 0 {
        "अरे"
    } else if k == 1 {
        "क्या"
    } else if k == 2 {
        "क्यार"
    } else if k == 3 {
        "खै"
    } else if k == 4 {
        "नाइँ"
    } else if k == 5 {
        "यारे"
    } else if k == 6 {
        "सके"
    } else {
        "हगि"
    }
}

/// The host `w` with a final संग or सङ respelled सँग, where it has one.
pub open spec fn host_respelled(w: Seq<char>) -> Option<Seq<char>> {
    if is_suffix("संग"@, w) {
        Some(strip_suffix(w, "संग"@) + "सँग"@)
    } else if is_suffix("सङ"@, w) {
        Some(strip_suffix(w, "सङ"@) + "सँग"@)
    } else {
        None
    }
}

/// The host `w`, respelled where a final postposition is misspelled.
pub open spec fn host_or_self(w: Seq<char>) -> Seq<char> {
    match host_respelled(w) {
        Some(c) => c,
        None => w,
    }
}

fn host_or_self_exec(w: &str) -> (r: String)
    ensures
        r@ == host_or_self(w@),
{
    if ends_with(w, "संग") {
        concat(take_chars(w, char_count(w) - char_count("संग")).as_str(), "सँग")
    } else if ends_with(w, "सङ") {
        concat(take_chars(w, char_count(w) - char_count("सङ")).as_str(), "सँग")
    } else {
        owned(w)
    }
}

/// The hosts that particle `suf` may leave when split off `t`: `t` without
/// the particle; and, where the particle's first char is shared with the end
/// of the host (सुधार्न + नै written सुधार्नै), `t` without the rest of the
/// particle.
pub open spec fn particle_hosts(t: Seq<char>, suf: Seq<char>) -> Seq<Seq<char>> {
    let a = strip_suffix(t, suf);
    let first = if is_suffix(suf, t) && a.len() > 0 { seq![a] } else { seq![] };
    let tail = suf.skip(1);
    let b = strip_suffix(t, tail);
    if suf.len() > 0 && tail.len() > 0 && t.len() > suf.len() && is_suffix(tail, t) && b.len() > 0 && b.last()
        == suf[0] && !first.contains(b) {
        first.push(b)
    } else {
        first
    }
}

/// The hosts that particle `suf` may leave when split off `token`.
pub fn suffix_left_candidates(token: &str, suffix: &str) -> (r: Vec<String>)
    ensures
        strs_view(r@) == particle_hosts(token@, suffix@),
{
    let n = char_count(token);
    let m = char_count(suffix);
    let mut out: Vec<String> = Vec::new();
    let ghost a = strip_suffix(token@, suffix@);
    if ends_with(token, suffix) {
        let left = take_chars(token, n - m);
        if char_count(left.as_str()) > 0 {
            out.push(left);
        }
    }
    let ghost first = strs_view(out@);
    assert(first == (if is_suffix(suffix@, token@) && a.len() > 0 { seq![a] } else { Seq::<Seq<char>>::empty() }));
    if m == 0 {
        return out;
    }
    let tail = skip_chars(suffix, 1);
    if char_count(tail.as_str()) == 0 || n <= m || !ends_with(token, tail.as_str()) {
        return out;
    }
    let b = take_chars(token, n - char_count(tail.as_str()));
    if char_count(b.as_str()) == 0 {
        return out;
    }
    let onset = char_at(suffix, 0);
    match last_char(b.as_str()) {
        Some(c) => {
            if c != onset {
                return out;
            }
        },
        None => {
            return out;
        },
    }
    if out.len() > 0 && str_eq(out[0].as_str(), b.as_str()) {
        assert(first.contains(b@));
        return out;
    }
    assert(!first.contains(b@));
    let ghost before = out@;
    out.push(b);
    assert(strs_view(out@) =~= strs_view(before).push(b@));
    out
}

/// The explanation of a split of a particle that leans on a word.
pub open spec fn word_particle_explanation() -> Seq<char> {
    "शैक्षणिक व्याकरण पदवियोग (च): शब्दाश्रित निपातहरू पदवियोग गरी लेखिन्छन् ।"@
}

/// The explanation of a split of a particle that leans on the sentence.
pub open spec fn sentence_particle_explanation() -> Seq<char> {
    "शैक्षणिक व्याकरण पदवियोग (च): वाक्याश्रित निपातहरू पदवियोग गरी लेखिन्छन् ।"@
}

/// Whether the host `left` of `t` may be split from the word particle `suf`:
/// the host or its respelling is attested or accepted by the analyser; a त or ल split leaves a host of
/// two chars or more; an attested word is not split before नै, त, ल or नि.
pub open spec fn word_host_ok(t: Seq<char>, suf: Seq<char>, left: Seq<char>, lex: Lexicon) -> bool {
    let nl = host_or_self(left);
    &&& lex.accepts(left) || lex.accepts(nl)
    &&& !((suf == "त"@ || suf == "ल"@) && nl.len() < 2)
    &&& !(suf == "नै"@ && lex.supports(t))
    &&& !(short_particle(suf) && lex.accepts(t))
}

/// The split of segment `seg` into `c` may be reported in state `st`: no firm
/// finding elsewhere overlaps it, it stands as whole words, it changes the
/// segment, and no finding already makes it.
pub open spec fn particle_gates(text: Seq<char>, st: PassState, seg: TokenView, c: Seq<char>) -> bool {
    let span = seg_span(seg);
    !overlaps_other(st.diags, span) && word_boundary(text, span.0, span.1) && c != seg.text && !same_rewrite(
        st.diags,
        span,
        c,
    )
}

/// The word-particle splits of `seg`, tried from particle `k`, host `c` on:
/// the state after the first one reported, if any.
pub open spec fn word_particle_from(text: Seq<char>, lex: Lexicon, st: PassState, seg: TokenView, k: int, c: int) -> Option<
    PassState,
>
    decreases 7 - k, 3 - c,
{
    if k < 0 || k >= 7 {
        None
    } else {
        let suf = word_particles()[k];
        let lefts = particle_hosts(seg.text, suf);
        if c < 0 || c >= lefts.len() {
            word_particle_from(text, lex, st, seg, k + 1, 0)
        } else {
            let left = lefts[c];
            let corr = left + " "@ + suf;
            if word_host_ok(seg.text, suf, left, lex) && particle_gates(text, st, seg, corr) {
                Some(
                    report(
                        st,
                        phrase_finding(
                            seg_span(seg),
                            seg.text,
                            corr,
                            word_particle_explanation(),
                            if short_particle(suf) { 860 } else { 900 },
                        ),
                    ),
                )
            } else {
                word_particle_from(text, lex, st, seg, k, c + 1)
            }
        }
    }
}

/// The sentence-particle splits of `seg`, tried from particle `k` on: the
/// state after the first one reported, if any.
pub open spec fn sentence_particle_from(text: Seq<char>, lex: Lexicon, st: PassState, seg: TokenView, k: int) -> Option<
    PassState,
>
    decreases 8 - k,
{
    if k < 0 || k >= 8 {
        None
    } else {
        let suf = sentence_particles()[k];
        let left = strip_suffix(seg.text, suf);
        let corr = left + " "@ + suf;
        if is_suffix(suf, seg.text) && left.len() > 0 && lex.accepts(host_or_self(left)) && particle_gates(
            text,
            st,
            seg,
            corr,
        ) {
            Some(report(st, phrase_finding(seg_span(seg), seg.text, corr, sentence_particle_explanation(), 880)))
        } else {
            sentence_particle_from(text, lex, st, seg, k + 1)
        }
    }
}

/// The state after the particle splits of `seg`: a word particle first, and
/// only where none is split, a sentence particle.
pub open spec fn particle_step(text: Seq<char>, lex: Lexicon, st: PassState, seg: TokenView) -> PassState {
    match word_particle_from(text, lex, st, seg, 0, 0) {
        Some(s) => s,
        None => match sentence_particle_from(text, lex, st, seg, 0) {
            Some(s) => s,
            None => st,
        },
    }
}

fn word_host_ok_exec(t: &str, suf: &str, left: &str, lex: &Lexicon) -> (r: bool)
    ensures
        r == word_host_ok(t@, suf@, left@, *lex),
{
    let nl = host_or_self_exec(left);
    if !lex.is_accepted(left) && !lex.is_accepted(nl.as_str()) {
        return false;
    }
    if (str_eq(suf, "त") || str_eq(suf, "ल")) && char_count(nl.as_str()) < 2 {
        return false;
    }
    if str_eq(suf, "नै") && lex.is_supported(t) {
        return false;
    }
    if (str_eq(suf, "त") || str_eq(suf, "ल") || str_eq(suf, "नि")) && lex.is_accepted(t) {
        return false;
    }
    true
}

fn gates_hold(
    text: &str,
    seg: &Token,
    c: &str,
    blocked: &Vec<(usize, usize)>,
    diagnostics: &Vec<Diagnostic>,
) -> (r: bool)
    ensures
        r == particle_gates(text@, state_of(diagnostics@, blocked@), seg@, c@),
{
    let span = (seg.start, seg.end);
    !overlaps_other_span(diagnostics, span) && is_word_boundary(text, span.0, span.1) && !str_eq(
        c,
        seg.text.as_str(),
    ) && !has_same_rewrite(diagnostics, span, c)
}

/// Split the particles joined to segment `seg` of `text`.
pub fn add_particle_split(
    text: &str,
    lex: &Lexicon,
    seg: &Token,
    blocked: &mut Vec<(usize, usize)>,
    diagnostics: &mut Vec<Diagnostic>,
)
    ensures
        state_of(final(diagnostics)@, final(blocked)@) == particle_step(text@, *lex, state_of(old(diagnostics)@, old(blocked)@), seg@),
{
    let ghost st0 = state_of(diagnostics@, blocked@);
    let word = seg.text.as_str();
    let span = (seg.start, seg.end);
    let mut k: usize = 0;
    while k < 7
        invariant
            k <= 7,
            word@ == seg@.text,
            span == (seg.start, seg.end),
            state_of(diagnostics@, blocked@) == st0,
            st0 == state_of(old(diagnostics)@, old(blocked)@),
            word_particle_from(text@, *lex, st0, seg@, 0, 0) == word_particle_from(text@, *lex, st0, seg@, k as int, 0),
        decreases 7 - k,
    {
        let suf = word_particle(k);
        let lefts = suffix_left_candidates(word, suf);
        let ghost lv = strs_view(lefts@);
        let mut c: usize = 0;
        while c < lefts.len()
            invariant
                c <= lefts.len(),
                k < 7,
                suf@ == word_particles()[k as int],
                lv == strs_view(lefts@),
                lv == particle_hosts(seg@.text, suf@),
                word@ == seg@.text,
                span == (seg.start, seg.end),
                state_of(diagnostics@, blocked@) == st0,
                st0 == state_of(old(diagnostics)@, old(blocked)@),
                word_particle_from(text@, *lex, st0, seg@, 0, 0) == word_particle_from(text@, *lex, st0, seg@, k as int, c as int),
            decreases lefts.len() - c,
        {
            let left = lefts[c].as_str();
            assert(left@ == lv[c as int]);
            let corr = concat3(left, " ", suf);
            if word_host_ok_exec(word, suf, left, lex) && gates_hold(text, seg, corr.as_str(), blocked, diagnostics) {
                let conf: u16 = if str_eq(suf, "त") || str_eq(suf, "ल") || str_eq(suf, "नि") { 860 } else { 900 };
                report_finding(blocked, diagnostics, span, owned(word), corr, owned(
                    "शैक्षणिक व्याकरण पदवियोग (च): शब्दाश्रित निपातहरू पदवियोग गरी लेखिन्छन् ।",
                ), conf);
                return;
            }
            c = c + 1;
        }
        k = k + 1;
    }
    let mut k: usize = 0;
    while k < 8
        invariant
            k <= 8,
            word@ == seg@.text,
            span == (seg.start, seg.end),
            state_of(diagnostics@, blocked@) == st0,
            st0 == state_of(old(diagnostics)@, old(blocked)@),
            word_particle_from(text@, *lex, st0, seg@, 0, 0) is None,
            sentence_particle_from(text@, *lex, st0, seg@, 0) == sentence_particle_from(text@, *lex, st0, seg@, k as int),
        decreases 8 - k,
    {
        let suf = sentence_particle(k);
        if ends_with(word, suf) {
            let left = take_chars(word, char_count(word) - char_count(suf));
            if char_count(left.as_str()) > 0 {
                let nl = host_or_self_exec(left.as_str());
                let corr = concat3(left.as_str(), " ", suf);
                if lex.is_accepted(nl.as_str()) && gates_hold(text, seg, corr.as_str(), blocked, diagnostics) {
                    report_finding(blocked, diagnostics, span, owned(word), corr, owned(
                        "शैक्षणिक व्याकरण पदवियोग (च): वाक्याश्रित निपातहरू पदवियोग गरी लेखिन्छन् ।",
                    ), 880);
                    return;
                }
            }
        }
        k = k + 1;
    }
}


proof fn lemma_word_particle_extends(text: Seq<char>, lex: Lexicon, st: PassState, seg: TokenView, k: int, c: int)
    ensures
        word_particle_from(text, lex, st, seg, k, c) matches Some(s) ==> phrase_extension(text, st, s),
    decreases 7 - k, 3 - c,
{
    if 0 <= k < 7 {
        let suf = word_particles()[k];
        let lefts = particle_hosts(seg.text, suf);
        if c < 0 || c >= lefts.len() {
            lemma_word_particle_extends(text, lex, st, seg, k + 1, 0);
        } else {
            lemma_word_particle_extends(text, lex, st, seg, k, c + 1);
            let corr = lefts[c] + " "@ + suf;
            if particle_gates(text, st, seg, corr) {
                lemma_extension_report(
                    text,
                    st,
                    phrase_finding(
                        seg_span(seg),
                        seg.text,
                        corr,
                        word_particle_explanation(),
                        if short_particle(suf) { 860 } else { 900 },
                    ),
                );
            }
        }
    }
}

proof fn lemma_sentence_particle_extends(text: Seq<char>, lex: Lexicon, st: PassState, seg: TokenView, k: int)
    ensures
        sentence_particle_from(text, lex, st, seg, k) matches Some(s) ==> phrase_extension(text, st, s),
    decreases 8 - k,
{
    if 0 <= k < 8 {
        lemma_sentence_particle_extends(text, lex, st, seg, k + 1);
        let suf = sentence_particles()[k];
        let corr = strip_suffix(seg.text, suf) + " "@ + suf;
        if particle_gates(text, st, seg, corr) {
            lemma_extension_report(text, st, phrase_finding(seg_span(seg), seg.text, corr, sentence_particle_explanation(), 880));
        }
    }
}

/// The particle splits only add firm (घ) findings on whole words.
pub proof fn lemma_particle_step_extends(text: Seq<char>, lex: Lexicon, st: PassState, seg: TokenView)
    ensures
        phrase_extension(text, st, particle_step(text, lex, st, seg)),
{
    lemma_extension_refl(text, st);
    lemma_word_particle_extends(text, lex, st, seg, 0, 0);
    lemma_sentence_particle_extends(text, lex, st, seg, 0);
}

} // verus!
