//! The (घ) pass: phrases that the Academy writes joined or apart.
use vstd::prelude::*;

use crate::common::{
    diags_view, is_word_boundary, overlaps_existing_span, overlaps_span, span_listed, spans_view,
    word_boundary,
};
use crate::diagnostic::{Diagnostic, DiagnosticCategory, DiagnosticView, reasons_view};
use crate::padayog_rules::{
    PadayogRuleView, PhraseRewrite, RewriteView, padayog_padabiyog_rules,
    padayog_rules_view, padayog_table, rewrites_view,
};
use crate::rule::{DiagnosticKind, ExplanationView, Rule, RuleView};
use crate::text::{
    byte_len, chars_of, concat, find_from, lemma_byte_len_concat, lemma_byte_len_take_mono,
    lemma_find_from, owned, str_byte_len, vec_find_from, byte_offset,
};
use crate::tiryak::{PassState, state_of};

verus! {

broadcast use vstd::string::group_string_axioms;

/// The char positions of the non-overlapping occurrences of `pat` in `s`
/// from index `i` on, left to right (`str::match_indices`).
pub open spec fn match_positions(s: Seq<char>, pat: Seq<char>, i: int) -> Seq<int>
    decreases s.len() + 1 - i,
{
    if pat.len() == 0 || i < 0 || find_from(s, pat, i) < i || find_from(s, pat, i) + pat.len() > s.len() {
        seq![]
    } else {
        seq![find_from(s, pat, i)] + match_positions(s, pat, find_from(s, pat, i) + pat.len())
    }
}

/// The explanation of a table rewrite under sub-rule `code` / `label`.
pub open spec fn rewrite_explanation(code: Seq<char>, label: Seq<char>, rw: RewriteView) -> Seq<char> {
    "पदयोग/पदवियोग ["@ + code + " | "@ + label + "]: "@ + rw.explanation
}

/// The diagnostic a table rewrite gives for the bytes `span`.
pub open spec fn rewrite_diagnostic(code: Seq<char>, label: Seq<char>, rw: RewriteView, span: (int, int)) -> DiagnosticView {
    DiagnosticView {
        span,
        incorrect: rw.incorrect,
        correction: rw.correct,
        rule: RuleView::VarnaVinyasNiyam("3(घ)"@),
        explanation: rewrite_explanation(code, label, rw),
        category: DiagnosticCategory::ShuddhaTable,
        kind: DiagnosticKind::Error,
        confidence_permille: 950,
        alternate_reasons: seq![],
    }
}

/// The state after the occurrence of `rw` at char position `m` of `text`:
/// reported when its span is free and it stands as whole words.
pub open spec fn offer_occurrence(
    text: Seq<char>,
    code: Seq<char>,
    label: Seq<char>,
    rw: RewriteView,
    st: PassState,
    m: int,
) -> PassState {
    let b = byte_len(text.take(m)) as int;
    let span = (b, b + byte_len(rw.incorrect));
    if st.blocked.contains(span) || overlaps_span(st.diags, span) || !word_boundary(text, span.0, span.1) {
        st
    } else {
        PassState {
            diags: st.diags.push(rewrite_diagnostic(code, label, rw, span)),
            blocked: st.blocked.push(span),
        }
    }
}

/// The occurrences `ms` of `rw`, offered in order.
pub open spec fn occurrences_pass(
    text: Seq<char>,
    code: Seq<char>,
    label: Seq<char>,
    rw: RewriteView,
    st: PassState,
    ms: Seq<int>,
) -> PassState
    decreases ms.len(),
{
    if ms.len() == 0 {
        st
    } else {
        offer_occurrence(text, code, label, rw, occurrences_pass(text, code, label, rw, st, ms.drop_last()), ms.last())
    }
}

/// The rewrites `rws` of one sub-rule, applied in order.
pub open spec fn rewrites_pass(
    text: Seq<char>,
    code: Seq<char>,
    label: Seq<char>,
    rws: Seq<RewriteView>,
    st: PassState,
) -> PassState
    decreases rws.len(),
{
    if rws.len() == 0 {
        st
    } else {
        let prev = rewrites_pass(text, code, label, rws.drop_last(), st);
        occurrences_pass(text, code, label, rws.last(), prev, match_positions(text, rws.last().incorrect, 0))
    }
}

/// The sub-rules `rules`, applied in order.
pub open spec fn rules_pass(text: Seq<char>, rules: Seq<PadayogRuleView>, st: PassState) -> PassState
    decreases rules.len(),
{
    if rules.len() == 0 {
        st
    } else {
        rewrites_pass(text, rules.last().code, rules.last().label, rules.last().rewrites, rules_pass(text, rules.drop_last(), st))
    }
}

proof fn lemma_find_bounds(s: Seq<char>, pat: Seq<char>, i: int)
    requires
        0 <= i,
        pat.len() > 0,
    ensures
        find_from(s, pat, i) >= 0 ==> i <= find_from(s, pat, i) && find_from(s, pat, i) + pat.len() <= s.len(),
{
    lemma_find_from(s, pat, i);
}

fn rewrite_diag(code: &str, label: &str, r: &PhraseRewrite, span: (usize, usize)) -> (d: Diagnostic)
    ensures
        d@ == rewrite_diagnostic(code@, label@, r@, (span.0 as int, span.1 as int)),
{
    let a = concat("पदयोग/पदवियोग [", code);
    let b = concat(a.as_str(), " | ");
    let c = concat(b.as_str(), label);
    let e = concat(c.as_str(), "]: ");
    let explanation = concat(e.as_str(), r.explanation);
    let d = Diagnostic {
        span,
        incorrect: owned(r.incorrect),
        correction: owned(r.correct),
        rule: Rule::VarnaVinyasNiyam("3(घ)"),
        explanation,
        category: DiagnosticCategory::ShuddhaTable,
        kind: DiagnosticKind::Error,
        confidence_permille: 950,
        alternate_reasons: Vec::new(),
    };
    assert(reasons_view(d.alternate_reasons@) =~= Seq::<ExplanationView>::empty());
    d
}

/// Apply one rewrite of sub-rule `code` / `label` wherever it occurs in `text`.
fn apply_rewrite(
    text: &str,
    v: &Vec<char>,
    code: &str,
    label: &str,
    r: &PhraseRewrite,
    blocked: &mut Vec<(usize, usize)>,
    diagnostics: &mut Vec<Diagnostic>,
)
    requires
        v@ == text@,
    ensures
        state_of(final(diagnostics)@, final(blocked)@) == occurrences_pass(
            text@,
            code@,
            label@,
            r@,
            state_of(old(diagnostics)@, old(blocked)@),
            match_positions(text@, r.incorrect@, 0),
        ),
{
    let pat = chars_of(r.incorrect);
    let ghost all = match_positions(text@, r.incorrect@, 0);
    let ghost st0 = state_of(diagnostics@, blocked@);
    if pat.len() == 0 {
        return;
    }
    let total = str_byte_len(text);
    let plen = str_byte_len(r.incorrect);
    let ghost mut done: Seq<int> = seq![];
    let mut i: usize = 0;
    let mut finished = false;
    while !finished && i <= v.len()
        invariant
            finished ==> match_positions(text@, r.incorrect@, i as int) =~= Seq::<int>::empty(),
            v@ == text@,
            pat@ == r.incorrect@,
            pat.len() > 0,
            i <= v.len() + 1,
            total == byte_len(text@),
            plen == byte_len(r.incorrect@),
            done + match_positions(text@, r.incorrect@, i as int) == all,
            state_of(diagnostics@, blocked@) == occurrences_pass(text@, code@, label@, r@, st0, done),
        decreases (v.len() + 1 - i) * 2 + (if finished { 0int } else { 1int }),
    {
        proof {
            lemma_find_bounds(text@, r.incorrect@, i as int);
            lemma_find_from(text@, r.incorrect@, i as int);
        }
        match vec_find_from(v, &pat, i) {
            None => {
                finished = true;
            },
            Some(k) => {
                let b = byte_offset(text, v, k);
                proof {
                    lemma_byte_len_concat(text@.take(k as int), r.incorrect@);
                    assert(text@.subrange(k as int, k + pat.len()) == r.incorrect@);
                    assert(text@.take(k as int) + text@.subrange(k as int, k + pat.len()) =~= text@.take(k + pat.len()));
                    lemma_byte_len_take_mono(text@, k + pat.len(), text@.len() as int);
                    assert(text@.take(text@.len() as int) =~= text@);
                }
                let span = (b, b + plen);
                let ghost m = k as int;
                if !span_listed(blocked, span) && !overlaps_existing_span(diagnostics, span)
                    && is_word_boundary(text, span.0, span.1) {
                    let ghost d0 = diagnostics@;
                    let ghost b0 = blocked@;
                    let d = rewrite_diag(code, label, r, span);
                    diagnostics.push(d);
                    blocked.push(span);
                    proof {
                        assert(diags_view(diagnostics@) =~= diags_view(d0).push(d@));
                        assert(spans_view(blocked@) =~= spans_view(b0).push((span.0 as int, span.1 as int)));
                    }
                }
                proof {
                    assert(done.push(m).drop_last() =~= done);
                    assert(seq![m] + match_positions(text@, r.incorrect@, m + pat.len()) == match_positions(text@, r.incorrect@, i as int));
                    assert(done.push(m) + match_positions(text@, r.incorrect@, m + pat.len()) =~= done + match_positions(text@, r.incorrect@, i as int));
                    done = done.push(m);
                }
                i = k + pat.len();
            },
        }
    }
    proof {
        if !finished {
            assert(find_from(text@, r.incorrect@, i as int) == -1);
        }
    }
    assert(done =~= all);
}

/// The (घ) table pass: every listed phrase rewrite, wherever its incorrect
/// form stands as whole words in a free span of `text`.
pub fn add_padayog_padabiyog_diagnostics(
    text: &str,
    blocked: &mut Vec<(usize, usize)>,
    diagnostics: &mut Vec<Diagnostic>,
)
    ensures
        state_of(final(diagnostics)@, final(blocked)@) == rules_pass(
            text@,
            padayog_table(),
            state_of(old(diagnostics)@, old(blocked)@),
        ),
{
    let v = chars_of(text);
    let rules = padayog_padabiyog_rules();
    let ghost st0 = state_of(diagnostics@, blocked@);
    let ghost table = padayog_table();
    let mut j: usize = 0;
    assert(table.take(0) =~= Seq::<PadayogRuleView>::empty());
    while j < rules.len()
        invariant
            j <= rules.len(),
            v@ == text@,
            padayog_rules_view(rules@) == table,
            table == padayog_table(),
            state_of(diagnostics@, blocked@) == rules_pass(text@, table.take(j as int), st0),
        decreases rules.len() - j,
    {
        let rule = &rules[j];
        assert(table[j as int] == rule@);
        let ghost st1 = state_of(diagnostics@, blocked@);
        let ghost rws = rewrites_view(rule.rewrites@);
        let mut k: usize = 0;
        assert(rws.take(0) =~= Seq::<RewriteView>::empty());
        while k < rule.rewrites.len()
            invariant
                k <= rule.rewrites.len(),
                v@ == text@,
                rws == rewrites_view(rule.rewrites@),
                state_of(diagnostics@, blocked@) == rewrites_pass(text@, rule.code@, rule.label@, rws.take(k as int), st1),
            decreases rule.rewrites.len() - k,
        {
            let r = &rule.rewrites[k];
            proof {
                assert(rws.take(k + 1).drop_last() =~= rws.take(k as int));
                assert(rws.take(k + 1).last() == r@);
            }
            apply_rewrite(text, &v, rule.code, rule.label, r, blocked, diagnostics);
            k = k + 1;
        }
        proof {
            assert(rws.take(k as int) =~= rws);
            assert(table.take(j + 1).drop_last() =~= table.take(j as int));
            assert(table.take(j + 1).last() == rule@);
        }
        j = j + 1;
    }
    assert(table.take(j as int) =~= table);
}

} // verus!
