//! Settling the diagnostics of a text: overlaps with (घ) findings, no-op
//! heuristics, and the order in which they are reported.
use vstd::prelude::*;

use crate::common::diags_view;
use crate::diagnostic::{Diagnostic, DiagnosticView};
use crate::rule::{DiagnosticKind, Rule, RuleView};
use crate::text::str_eq;

verus! {

broadcast use vstd::string::group_string_axioms;

/// `s` restricted to the positions whose flag in `keep` is set, in order.
pub open spec fn select(s: Seq<DiagnosticView>, keep: Seq<bool>) -> Seq<DiagnosticView>
    decreases s.len(),
{
    if s.len() == 0 {
        s
    } else if keep[s.len() - 1] {
        select(s.drop_last(), keep).push(s.last())
    } else {
        select(s.drop_last(), keep)
    }
}

/// Keeps the diagnostics whose flag is set, in order.
pub fn retain_flagged(diagnostics: &mut Vec<Diagnostic>, keep: &Vec<bool>)
    requires
        keep.len() == old(diagnostics).len(),
    ensures
        diags_view(final(diagnostics)@) == select(diags_view(old(diagnostics)@), keep@),
{
    let ghost orig = diags_view(diagnostics@);
    let mut rest: Vec<Diagnostic> = Vec::new();
    std::mem::swap(&mut rest, diagnostics);
    let n = rest.len();
    let mut i: usize = 0;
    assert(orig.take(0) =~= Seq::<DiagnosticView>::empty());
    assert(diags_view(diagnostics@) =~= Seq::<DiagnosticView>::empty());
    assert(diags_view(rest@) =~= orig.skip(0));
    while i < n
        invariant
            n == keep.len(),
            n == orig.len(),
            i <= n,
            rest.len() == n - i,
            diags_view(rest@) == orig.skip(i as int),
            diags_view(diagnostics@) == select(orig.take(i as int), keep@),
        decreases n - i,
    {
        let ghost r0 = rest@;
        let d = rest.remove(0);
        proof {
            assert(diags_view(r0)[0] == d@);
            assert forall|k: int| 0 <= k < rest@.len() implies #[trigger] diags_view(rest@)[k] == orig.skip(i + 1)[k] by {
                assert(rest@[k] == r0[k + 1]);
                assert(diags_view(r0)[k + 1] == orig.skip(i as int)[k + 1]);
            }
            assert(diags_view(rest@) =~= orig.skip(i + 1));
            assert(orig.take(i + 1).drop_last() =~= orig.take(i as int));
            assert(orig.take(i + 1).last() == d@);
        }
        if keep[i] {
            let ghost d0 = diagnostics@;
            diagnostics.push(d);
            assert(diags_view(diagnostics@) =~= diags_view(d0).push(d@));
        }
        i = i + 1;
    }
    assert(orig.take(n as int) =~= orig);
}

// ----- overlaps with (घ) findings -----

/// A finding of the (घ) pass.
pub open spec fn is_padayog(d: DiagnosticView) -> bool {
    d.rule == RuleView::VarnaVinyasNiyam("3(घ)"@)
}

/// `d` lies strictly inside the span of a (घ) finding.
pub open spec fn nested_in_padayog(d: DiagnosticView, all: Seq<DiagnosticView>) -> bool {
    exists|j: int|
        0 <= j < all.len() && is_padayog(#[trigger] all[j]) && d.span != all[j].span && all[j].span.0
            <= d.span.0 && d.span.1 <= all[j].span.1
}

/// A (घ) finding that is not ambiguous covers exactly `span`.
pub open spec fn firm_padayog_at(span: (int, int), all: Seq<DiagnosticView>) -> bool {
    exists|j: int|
        0 <= j < all.len() && is_padayog(#[trigger] all[j]) && all[j].kind != DiagnosticKind::Ambiguous
            && all[j].span == span
}

/// `d` survives the (घ) arbitration among `all`.
pub open spec fn survives_padayog(d: DiagnosticView, all: Seq<DiagnosticView>) -> bool {
    &&& !nested_in_padayog(d, all)
    &&& !(firm_padayog_at(d.span, all) && !is_padayog(d))
    &&& !(d.kind == DiagnosticKind::Ambiguous && firm_padayog_at(d.span, all))
}

/// The diagnostics that survive the (घ) arbitration, in order.
pub open spec fn arbitrated(all: Seq<DiagnosticView>) -> Seq<DiagnosticView> {
    select(all, Seq::new(all.len(), |i: int| survives_padayog(all[i], all)))
}

fn padayog_finding(d: &Diagnostic) -> (r: bool)
    ensures
        r == is_padayog(d@),
{
    d.rule.is_varna("3(घ)")
}

/// Drop what a (घ) finding already covers: findings nested inside its span,
/// other findings on the same span as a firm (घ) finding, and ambiguous ones there.
pub fn resolve_diagnostic_overlaps(diagnostics: &mut Vec<Diagnostic>)
    ensures
        diags_view(final(diagnostics)@) == arbitrated(diags_view(old(diagnostics)@)),
{
    let ghost all = diags_view(diagnostics@);
    let mut keep: Vec<bool> = Vec::new();
    let n = diagnostics.len();
    let mut i: usize = 0;
    while i < n
        invariant
            n == diagnostics.len(),
            all == diags_view(diagnostics@),
            i <= n,
            keep@.len() == i,
            forall|k: int| 0 <= k < i ==> keep@[k] == survives_padayog(all[k], all),
        decreases n - i,
    {
        let d = &diagnostics[i];
        assert(all[i as int] == d@);
        let mut nested = false;
        let mut firm = false;
        let mut j: usize = 0;
        while j < n
            invariant
                n == diagnostics.len(),
                all == diags_view(diagnostics@),
                i < n,
                d@ == all[i as int],
                j <= n,
                nested == exists|m: int|
                    0 <= m < j && is_padayog(#[trigger] all[m]) && d@.span != all[m].span
                        && all[m].span.0 <= d@.span.0 && d@.span.1 <= all[m].span.1,
                firm == exists|m: int|
                    0 <= m < j && is_padayog(#[trigger] all[m]) && all[m].kind != DiagnosticKind::Ambiguous
                        && all[m].span == d@.span,
            decreases n - j,
        {
            let p = &diagnostics[j];
            assert(all[j as int] == p@);
            if padayog_finding(p) {
                if !(p.span.0 == d.span.0 && p.span.1 == d.span.1) && p.span.0 <= d.span.0 && d.span.1
                    <= p.span.1 {
                    nested = true;
                }
                if !(p.kind == DiagnosticKind::Ambiguous) && p.span.0 == d.span.0 && p.span.1
                    == d.span.1 {
                    firm = true;
                }
            }
            j = j + 1;
        }
        let own = padayog_finding(d);
        let ambiguous = d.kind == DiagnosticKind::Ambiguous;
        let survives = !nested && !(firm && !own) && !(ambiguous && firm);
        keep.push(survives);
        i = i + 1;
    }
    assert(keep@ =~= Seq::new(all.len(), |k: int| survives_padayog(all[k], all)));
    retain_flagged(diagnostics, &keep);
}

// ----- no-op heuristics -----

/// A grammar heuristic that proposes no change.
pub open spec fn is_noop(d: DiagnosticView) -> bool {
    &&& d.incorrect == d.correction
    &&& (d.kind == DiagnosticKind::Variant || d.kind == DiagnosticKind::Ambiguous)
    &&& d.rule is Vyakaran
}

/// Whether `d` is a heuristic finding that does not change the text.
pub fn is_noop_heuristic_diagnostic(d: &Diagnostic) -> (r: bool)
    ensures
        r == is_noop(d@),
{
    if !str_eq(d.incorrect.as_str(), d.correction.as_str()) {
        return false;
    }
    if !(d.kind == DiagnosticKind::Variant || d.kind == DiagnosticKind::Ambiguous) {
        return false;
    }
    match d.rule {
        Rule::Vyakaran(_) => true,
        _ => false,
    }
}

/// The diagnostics that change the text, in order.
pub open spec fn without_noops(all: Seq<DiagnosticView>) -> Seq<DiagnosticView> {
    select(all, Seq::new(all.len(), |i: int| !is_noop(all[i])))
}

/// Drop the heuristic findings that do not change the text.
pub fn drop_noop_heuristics(diagnostics: &mut Vec<Diagnostic>)
    ensures
        diags_view(final(diagnostics)@) == without_noops(diags_view(old(diagnostics)@)),
{
    let ghost all = diags_view(diagnostics@);
    let mut keep: Vec<bool> = Vec::new();
    let mut i: usize = 0;
    while i < diagnostics.len()
        invariant
            all == diags_view(diagnostics@),
            i <= diagnostics.len(),
            keep@.len() == i,
            forall|k: int| 0 <= k < i ==> keep@[k] == !is_noop(all[k]),
        decreases diagnostics.len() - i,
    {
        assert(all[i as int] == diagnostics@[i as int]@);
        let noop = is_noop_heuristic_diagnostic(&diagnostics[i]);
        keep.push(!noop);
        i = i + 1;
    }
    assert(keep@ =~= Seq::new(all.len(), |k: int| !is_noop(all[k])));
    retain_flagged(diagnostics, &keep);
}

// ----- order -----

/// Where `x` goes in `s` so that it follows every diagnostic starting no later.
pub open spec fn insert_pos(s: Seq<DiagnosticView>, x: DiagnosticView) -> int
    decreases s.len(),
{
    if s.len() == 0 {
        0
    } else if s.last().span.0 <= x.span.0 {
        s.len() as int
    } else {
        insert_pos(s.drop_last(), x)
    }
}

/// `s` with `x` inserted after every diagnostic that starts no later than it.
pub open spec fn insert_by_start(s: Seq<DiagnosticView>, x: DiagnosticView) -> Seq<DiagnosticView> {
    s.insert(insert_pos(s, x), x)
}

/// The diagnostics ordered by the start of their span; equal starts keep their order.
pub open spec fn sort_by_start(s: Seq<DiagnosticView>) -> Seq<DiagnosticView>
    decreases s.len(),
{
    if s.len() == 0 {
        s
    } else {
        insert_by_start(sort_by_start(s.drop_last()), s.last())
    }
}

/// Ordered by the start of the span.
pub open spec fn sorted_by_start(s: Seq<DiagnosticView>) -> bool {
    forall|i: int, j: int| 0 <= i < j < s.len() ==> (#[trigger] s[i]).span.0 <= (#[trigger] s[j]).span.0
}

proof fn lemma_insert_pos(s: Seq<DiagnosticView>, x: DiagnosticView)
    ensures
        0 <= insert_pos(s, x) <= s.len(),
        forall|j: int| insert_pos(s, x) <= j < s.len() ==> (#[trigger] s[j]).span.0 > x.span.0,
        insert_pos(s, x) > 0 ==> s[insert_pos(s, x) - 1].span.0 <= x.span.0,
    decreases s.len(),
{
    if s.len() > 0 && s.last().span.0 > x.span.0 {
        lemma_insert_pos(s.drop_last(), x);
        let p = insert_pos(s, x);
        assert forall|j: int| p <= j < s.len() implies (#[trigger] s[j]).span.0 > x.span.0 by {
            if j < s.len() - 1 {
                assert(s[j] == s.drop_last()[j]);
            }
        }
        if p > 0 {
            assert(s[p - 1] == s.drop_last()[p - 1]);
        }
    }
}

/// Sorting by span start gives diagnostics ordered by span start.
pub proof fn lemma_sort_by_start_sorted(s: Seq<DiagnosticView>)
    ensures
        sorted_by_start(sort_by_start(s)),
        sort_by_start(s).len() == s.len(),
    decreases s.len(),
{
    if s.len() > 0 {
        lemma_sort_by_start_sorted(s.drop_last());
        let t = sort_by_start(s.drop_last());
        let x = s.last();
        lemma_insert_pos(t, x);
        let p = insert_pos(t, x);
        let u = t.insert(p, x);
        assert forall|i: int, j: int| 0 <= i < j < u.len() implies (#[trigger] u[i]).span.0 <= (
        #[trigger] u[j]).span.0 by {
            if j < p {
                assert(u[i] == t[i] && u[j] == t[j]);
            } else if j == p {
                assert(u[i] == t[i]);
                assert(t[i].span.0 <= t[p - 1].span.0);
            } else if i < p {
                assert(u[i] == t[i] && u[j] == t[j - 1]);
            } else if i == p {
                assert(u[j] == t[j - 1]);
            } else {
                assert(u[i] == t[i - 1] && u[j] == t[j - 1]);
            }
        }
    }
}

/// Order the diagnostics by the start of their span, keeping the order of equal starts.
pub fn sort_by_span_start(diagnostics: &mut Vec<Diagnostic>)
    ensures
        diags_view(final(diagnostics)@) == sort_by_start(diags_view(old(diagnostics)@)),
{
    let ghost orig = diags_view(diagnostics@);
    let mut rest: Vec<Diagnostic> = Vec::new();
    std::mem::swap(&mut rest, diagnostics);
    let n = rest.len();
    let mut i: usize = 0;
    assert(orig.take(0) =~= Seq::<DiagnosticView>::empty());
    assert(diags_view(diagnostics@) =~= Seq::<DiagnosticView>::empty());
    assert(diags_view(rest@) =~= orig.skip(0));
    while i < n
        invariant
            n == orig.len(),
            i <= n,
            rest.len() == n - i,
            diags_view(rest@) == orig.skip(i as int),
            diags_view(diagnostics@) == sort_by_start(orig.take(i as int)),
        decreases n - i,
    {
        let ghost r0 = rest@;
        let d = rest.remove(0);
        proof {
            assert(diags_view(r0)[0] == d@);
            assert forall|k: int| 0 <= k < rest@.len() implies #[trigger] diags_view(rest@)[k] == orig.skip(i + 1)[k] by {
                assert(rest@[k] == r0[k + 1]);
                assert(diags_view(r0)[k + 1] == orig.skip(i as int)[k + 1]);
            }
            assert(diags_view(rest@) =~= orig.skip(i + 1));
            assert(orig.take(i + 1).drop_last() =~= orig.take(i as int));
            assert(orig.take(i + 1).last() == d@);
        }
        let ghost t = diags_view(diagnostics@);
        assert(t.take(diagnostics@.len() as int) =~= t);
        let mut p = diagnostics.len();
        while p > 0 && diagnostics[p - 1].span.0 > d.span.0
            invariant
                t == diags_view(diagnostics@),
                p <= diagnostics.len(),
                insert_pos(t, d@) == insert_pos(t.take(p as int), d@),
            decreases p,
        {
            assert(t.take(p as int).last() == diagnostics@[p - 1]@);
            assert(t.take(p as int).drop_last() =~= t.take(p - 1));
            p = p - 1;
        }
        proof {
            if p > 0 {
                assert(t.take(p as int).last() == diagnostics@[p - 1]@);
            } else {
                assert(t.take(0) =~= Seq::<DiagnosticView>::empty());
            }
            assert(t.take(diagnostics@.len() as int) =~= t);
        }
        let ghost d0 = diagnostics@;
        diagnostics.insert(p, d);
        assert(diags_view(diagnostics@) =~= diags_view(d0).insert(p as int, d@));
        i = i + 1;
    }
    assert(orig.take(n as int) =~= orig);
}

} // verus!
