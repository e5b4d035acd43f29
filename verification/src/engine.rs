//! The correction engine: every rule that applies to a word, and the winner.
//!
//! The correction table is authoritative and comes first; the pattern rules
//! follow in priority order. Equivalent neighbouring hits are collapsed. A word
//! that no rule touches is correct.
use vstd::prelude::*;

use crate::correction_table::{lemma_table_rows_name_words, lookup, table_row};
use crate::lexicon::Lexicon;
use crate::registry::{PatternRule, holds_rules, pattern_rules, registry, rule_fn_fix, rule_spec_view, lemma_registry_priorities_increase};
use crate::rule::{
    DiagnosticKind, Fix, Prakriya, PrakriyaView, RuleCategory, RuleHit, RuleHitView, Step,
    StepView, fix_view, steps_view,
};
use crate::text::{char_count, chars_of, find_from, lemma_find_from, owned, str_eq, take_chars, vec_find_from};

verus! {

broadcast use vstd::string::group_string_axioms;

// ----- specification -----

/// The first of the `/`-separated alternatives in a table correction.
pub open spec fn first_alternative(c: Seq<char>) -> Seq<char> {
    let k = find_from(c, seq!['/'], 0);
    if k < 0 {
        c
    } else {
        c.take(k)
    }
}

/// `p` with rule-dispatch metadata attached.
pub open spec fn with_meta(p: PrakriyaView, category: RuleCategory, kind: DiagnosticKind) -> PrakriyaView {
    PrakriyaView {
        input: p.input,
        output: p.output,
        steps: p.steps,
        is_correct: p.is_correct,
        category: Some(category),
        kind,
    }
}

/// The hit of the correction table for `s`, if the table lists it.
pub open spec fn table_hit(s: Seq<char>) -> Option<RuleHitView> {
    match table_row(s) {
        None => None,
        Some(row) => {
            let out = first_alternative(row.correct);
            Some(
                RuleHitView {
                    spec_id: None,
                    priority: 0,
                    category: RuleCategory::ShuddhaTable,
                    kind: DiagnosticKind::Error,
                    prakriya: PrakriyaView {
                        input: s,
                        output: out,
                        steps: seq![
                            StepView {
                                rule: row.rule,
                                description: row.description,
                                before: s,
                                after: out,
                            },
                        ],
                        is_correct: false,
                        category: Some(RuleCategory::ShuddhaTable),
                        kind: DiagnosticKind::Error,
                    },
                },
            )
        },
    }
}

/// The hit that pattern rule `f` produces when it decides `fx` for `s`.
pub open spec fn pattern_hit(f: crate::registry::RuleFn, s: Seq<char>, fx: Fix) -> RuleHitView {
    let m = rule_spec_view(f);
    RuleHitView {
        spec_id: Some(m.id),
        priority: m.priority,
        category: m.category,
        kind: m.kind,
        prakriya: with_meta(fix_view(s, fx), m.category, m.kind),
    }
}

/// The hits of the registered pattern rules from position `k` on, in order.
pub open spec fn pattern_hits_from(s: Seq<char>, lex: Lexicon, k: int) -> Seq<RuleHitView>
    decreases registry().len() - k,
{
    if k < 0 || k >= registry().len() {
        seq![]
    } else {
        match rule_fn_fix(registry()[k], s, lex) {
            Some(fx) => seq![pattern_hit(registry()[k], s, fx)] + pattern_hits_from(s, lex, k + 1),
            None => pattern_hits_from(s, lex, k + 1),
        }
    }
}

/// All hits for `s` before equivalent ones are collapsed: the table's, then the rules'.
pub open spec fn raw_hits(s: Seq<char>, lex: Lexicon) -> Seq<RuleHitView> {
    (match table_hit(s) {
        Some(h) => seq![h],
        None => seq![],
    }) + pattern_hits_from(s, lex, 0)
}

/// Two hits propose the same correction in the same way.
pub open spec fn equivalent_hits(a: RuleHitView, b: RuleHitView) -> bool {
    &&& a.category == b.category
    &&& a.kind == b.kind
    &&& a.prakriya.output == b.prakriya.output
    &&& a.prakriya.steps == b.prakriya.steps
}

/// `d` extended by `x`, unless `x` is equivalent to the last hit kept.
pub open spec fn dedup_push(d: Seq<RuleHitView>, x: RuleHitView) -> Seq<RuleHitView> {
    if d.len() > 0 && equivalent_hits(x, d.last()) {
        d
    } else {
        d.push(x)
    }
}

/// `s` with each hit dropped that is equivalent to the last one kept.
pub open spec fn dedup_hits(s: Seq<RuleHitView>) -> Seq<RuleHitView>
    decreases s.len(),
{
    if s.len() == 0 {
        s
    } else {
        dedup_push(dedup_hits(s.drop_last()), s.last())
    }
}

/// Every applicable hit for `s`, by production priority.
pub open spec fn rule_hits(s: Seq<char>, lex: Lexicon) -> Seq<RuleHitView> {
    if s.len() == 0 {
        seq![]
    } else {
        dedup_hits(raw_hits(s, lex))
    }
}

/// Hits by content.
pub open spec fn hits_view(v: Seq<RuleHit>) -> Seq<RuleHitView> {
    v.map_values(|h: RuleHit| h@)
}

/// The derivation of a word that needs no correction.
pub open spec fn correct_view(s: Seq<char>) -> PrakriyaView {
    PrakriyaView {
        input: s,
        output: s,
        steps: seq![],
        is_correct: true,
        category: None,
        kind: DiagnosticKind::Error,
    }
}

/// The derivation of `s`: the top-priority hit, or `s` itself when no rule fires.
pub open spec fn derivation(s: Seq<char>, lex: Lexicon) -> PrakriyaView {
    if rule_hits(s, lex).len() > 0 {
        rule_hits(s, lex)[0].prakriya
    } else {
        correct_view(s)
    }
}

/// Hits ordered by priority.
pub open spec fn sorted_by_priority(s: Seq<RuleHitView>) -> bool {
    forall|i: int, j: int| 0 <= i < j < s.len() ==> (#[trigger] s[i]).priority <= (#[trigger] s[j]).priority
}

/// No two neighbouring hits are equivalent.
pub open spec fn no_adjacent_equivalent(s: Seq<RuleHitView>) -> bool {
    forall|i: int| 0 <= i < s.len() - 1 ==> !equivalent_hits(#[trigger] s[i], s[i + 1])
}

// ----- laws -----

proof fn lemma_dedup_contains(s: Seq<RuleHitView>)
    ensures
        forall|x: RuleHitView| dedup_hits(s).contains(x) ==> s.contains(x),
    decreases s.len(),
{
    if s.len() > 0 {
        lemma_dedup_contains(s.drop_last());
        let d = dedup_hits(s.drop_last());
        assert(dedup_hits(s) == d || dedup_hits(s) == d.push(s.last()));
        assert forall|x: RuleHitView| dedup_hits(s).contains(x) implies s.contains(x) by {
            if d.contains(x) {
                assert(s.drop_last().contains(x));
                let i = choose|i: int| 0 <= i < s.drop_last().len() && s.drop_last()[i] == x;
                assert(s[i] == x);
            } else {
                assert(x == s.last());
                assert(s[s.len() - 1] == x);
            }
        }
    }
}

/// Collapsing equivalent neighbours keeps the order by priority.
pub proof fn lemma_dedup_sorted(s: Seq<RuleHitView>)
    requires
        sorted_by_priority(s),
    ensures
        sorted_by_priority(dedup_hits(s)),
    decreases s.len(),
{
    if s.len() > 0 {
        let t = s.drop_last();
        assert(sorted_by_priority(t)) by {
            assert forall|i: int, j: int| 0 <= i < j < t.len() implies (#[trigger] t[i]).priority
                <= (#[trigger] t[j]).priority by {
                assert(t[i] == s[i] && t[j] == s[j]);
            }
        }
        lemma_dedup_sorted(t);
        lemma_dedup_contains(t);
        let d = dedup_hits(t);
        if !(d.len() > 0 && equivalent_hits(s.last(), d.last())) {
            let e = d.push(s.last());
            assert forall|i: int, j: int| 0 <= i < j < e.len() implies (#[trigger] e[i]).priority
                <= (#[trigger] e[j]).priority by {
                if j == e.len() - 1 {
                    assert(e[i] == d[i]);
                    assert(d.contains(d[i]));
                    assert(t.contains(d[i]));
                    let k = choose|k: int| 0 <= k < t.len() && t[k] == e[i];
                    assert(s[k] == e[i]);
                    assert(s[s.len() - 1] == e[j]);
                } else {
                    assert(e[i] == d[i] && e[j] == d[j]);
                }
            }
        }
    }
}

/// No two neighbouring hits that survive collapsing are equivalent.
pub proof fn lemma_dedup_no_adjacent(s: Seq<RuleHitView>)
    ensures
        no_adjacent_equivalent(dedup_hits(s)),
    decreases s.len(),
{
    if s.len() > 0 {
        lemma_dedup_no_adjacent(s.drop_last());
        let d = dedup_hits(s.drop_last());
        if !(d.len() > 0 && equivalent_hits(s.last(), d.last())) {
            let e = d.push(s.last());
            assert forall|i: int| 0 <= i < e.len() - 1 implies !equivalent_hits(#[trigger] e[i], e[i + 1]) by {
                if i == e.len() - 2 {
                    assert(e[i] == d.last());
                    assert(e[i + 1] == s.last());
                } else {
                    assert(e[i] == d[i] && e[i + 1] == d[i + 1]);
                }
            }
        }
    }
}

/// Collapsing keeps the first hit.
pub proof fn lemma_dedup_first(s: Seq<RuleHitView>)
    requires
        s.len() > 0,
    ensures
        dedup_hits(s).len() > 0,
        dedup_hits(s)[0] == s[0],
    decreases s.len(),
{
    let d = dedup_hits(s.drop_last());
    if s.len() == 1 {
        assert(d =~= Seq::<RuleHitView>::empty());
        assert(d.push(s.last())[0] == s[0]);
    } else {
        lemma_dedup_first(s.drop_last());
        assert(s.drop_last()[0] == s[0]);
        assert(d.push(s.last())[0] == d[0]);
    }
}

proof fn lemma_pattern_hits_sorted(s: Seq<char>, lex: Lexicon, k: int)
    requires
        0 <= k <= registry().len(),
    ensures
        sorted_by_priority(pattern_hits_from(s, lex, k)),
        forall|i: int| 0 <= i < pattern_hits_from(s, lex, k).len() ==> rule_spec_view(registry()[k]).priority
            <= (#[trigger] pattern_hits_from(s, lex, k)[i]).priority,
        forall|i: int| 0 <= i < pattern_hits_from(s, lex, k).len() ==> 100
            <= (#[trigger] pattern_hits_from(s, lex, k)[i]).priority,
        forall|i: int| 0 <= i < pattern_hits_from(s, lex, k).len() ==> !(#[trigger] pattern_hits_from(s, lex, k)[i]).prakriya.is_correct
            && pattern_hits_from(s, lex, k)[i].prakriya.input == s,
    decreases registry().len() - k,
{
    lemma_registry_priorities_increase();
    if k < registry().len() {
        lemma_pattern_hits_sorted(s, lex, k + 1);
        let rest = pattern_hits_from(s, lex, k + 1);
        assert(rule_spec_view(registry()[0]).priority == 100);
        if k > 0 {
            assert(rule_spec_view(registry()[0]).priority < rule_spec_view(registry()[k]).priority);
        }
        if k + 1 < registry().len() {
            assert(rule_spec_view(registry()[k]).priority < rule_spec_view(registry()[k + 1]).priority);
        }
        match rule_fn_fix(registry()[k], s, lex) {
            Some(fx) => {
                let h = pattern_hit(registry()[k], s, fx);
                let all = seq![h] + rest;
                assert forall|i: int, j: int| 0 <= i < j < all.len() implies (#[trigger] all[i]).priority
                    <= (#[trigger] all[j]).priority by {
                    if i == 0 {
                        assert(all[j] == rest[j - 1]);
                    } else {
                        assert(all[i] == rest[i - 1] && all[j] == rest[j - 1]);
                    }
                }
                assert forall|i: int| 0 <= i < all.len() implies rule_spec_view(registry()[k]).priority
                    <= (#[trigger] all[i]).priority && 100 <= all[i].priority && !all[i].prakriya.is_correct
                    && all[i].prakriya.input == s by {
                    if i > 0 {
                        assert(all[i] == rest[i - 1]);
                    }
                }
            },
            None => {},
        }
    }
}

/// The hits for a word come in order of priority.
pub proof fn lemma_rule_hits_sorted(s: Seq<char>, lex: Lexicon)
    ensures
        sorted_by_priority(rule_hits(s, lex)),
{
    if s.len() > 0 {
        lemma_pattern_hits_sorted(s, lex, 0);
        let p = pattern_hits_from(s, lex, 0);
        let raw = raw_hits(s, lex);
        assert forall|i: int, j: int| 0 <= i < j < raw.len() implies (#[trigger] raw[i]).priority
            <= (#[trigger] raw[j]).priority by {
            if table_hit(s) is Some {
                if i == 0 {
                    assert(raw[i].priority == 0);
                } else {
                    assert(raw[i] == p[i - 1] && raw[j] == p[j - 1]);
                }
            } else {
                assert(raw[i] == p[i] && raw[j] == p[j]);
            }
        }
        lemma_dedup_sorted(raw);
    }
}

/// No two neighbouring hits for a word propose the same correction in the same way.
pub proof fn lemma_rule_hits_distinct_neighbours(s: Seq<char>, lex: Lexicon)
    ensures
        no_adjacent_equivalent(rule_hits(s, lex)),
{
    if s.len() > 0 {
        lemma_dedup_no_adjacent(raw_hits(s, lex));
    }
}

/// A word listed in the correction table gets the table's correction first.
pub proof fn lemma_table_wins(s: Seq<char>, lex: Lexicon)
    requires
        table_row(s) is Some,
    ensures
        rule_hits(s, lex).len() > 0,
        Some(rule_hits(s, lex)[0]) == table_hit(s),
        derivation(s, lex) == table_hit(s).unwrap().prakriya,
{
    lemma_table_rows_name_words();
    if s.len() == 0 {
        assert(s =~= Seq::<char>::empty());
    }
    lemma_dedup_first(raw_hits(s, lex));
}

/// A word is derived as correct exactly when no rule applies to it; otherwise
/// its derivation is the correction of the first hit.
pub proof fn lemma_correct_iff_no_hits(s: Seq<char>, lex: Lexicon)
    ensures
        derivation(s, lex).is_correct <==> rule_hits(s, lex).len() == 0,
        derivation(s, lex).input == s,
        derivation(s, lex).is_correct ==> derivation(s, lex).output == s,
{
    if s.len() > 0 && raw_hits(s, lex).len() > 0 {
        lemma_dedup_first(raw_hits(s, lex));
        lemma_pattern_hits_sorted(s, lex, 0);
        let raw = raw_hits(s, lex);
        if table_hit(s) is None {
            assert(raw[0] == pattern_hits_from(s, lex, 0)[0]);
        }
    } else if s.len() > 0 {
        assert(raw_hits(s, lex).len() == 0);
    }
}

/// Every hit carries exactly one step, taken on the word itself.
pub open spec fn single_steps(hs: Seq<RuleHitView>, s: Seq<char>) -> bool {
    forall|i: int|
        0 <= i < hs.len() ==> (#[trigger] hs[i]).prakriya.steps.len() == 1
            && hs[i].prakriya.input == s && hs[i].prakriya.steps[0].before == s
}

proof fn lemma_pattern_hits_single(s: Seq<char>, lex: Lexicon, k: int)
    ensures
        single_steps(pattern_hits_from(s, lex, k), s),
    decreases registry().len() - k,
{
    if !(k < 0 || k >= registry().len()) {
        lemma_pattern_hits_single(s, lex, k + 1);
        let rest = pattern_hits_from(s, lex, k + 1);
        match rule_fn_fix(registry()[k], s, lex) {
            Some(fx) => {
                let all = pattern_hits_from(s, lex, k);
                assert forall|i: int| 0 <= i < all.len() implies (#[trigger] all[i]).prakriya.steps.len() == 1
                    && all[i].prakriya.input == s && all[i].prakriya.steps[0].before == s by {
                    if i > 0 {
                        assert(all[i] == rest[i - 1]);
                    }
                }
            },
            None => {},
        }
    }
}

proof fn lemma_dedup_single(r: Seq<RuleHitView>, s: Seq<char>)
    requires
        single_steps(r, s),
    ensures
        single_steps(dedup_hits(r), s),
    decreases r.len(),
{
    if r.len() > 0 {
        let d = dedup_hits(r.drop_last());
        assert(single_steps(r.drop_last(), s)) by {
            assert forall|i: int| 0 <= i < r.drop_last().len() implies (#[trigger] r.drop_last()[i]).prakriya.steps.len() == 1
                && r.drop_last()[i].prakriya.input == s && r.drop_last()[i].prakriya.steps[0].before == s by {
                assert(r.drop_last()[i] == r[i]);
            }
        }
        lemma_dedup_single(r.drop_last(), s);
        let x = r.last();
        assert(x == r[r.len() - 1]);
        let e = dedup_push(d, x);
        assert forall|i: int| 0 <= i < e.len() implies (#[trigger] e[i]).prakriya.steps.len() == 1
            && e[i].prakriya.input == s && e[i].prakriya.steps[0].before == s by {
            if i < d.len() {
                assert(e[i] == d[i]);
            }
        }
    }
}

/// Every hit for a word records exactly one step, taken on the word itself,
/// so the rule a hit cites is the rule of its one step.
pub proof fn lemma_hits_have_one_step(s: Seq<char>, lex: Lexicon)
    ensures
        single_steps(rule_hits(s, lex), s),
{
    if s.len() > 0 {
        lemma_pattern_hits_single(s, lex, 0);
        let raw = raw_hits(s, lex);
        let head: Seq<RuleHitView> = match table_hit(s) {
            Some(h) => seq![h],
            None => seq![],
        };
        assert(single_steps(raw, s)) by {
            assert forall|i: int| 0 <= i < raw.len() implies (#[trigger] raw[i]).prakriya.steps.len() == 1
                && raw[i].prakriya.input == s && raw[i].prakriya.steps[0].before == s by {
                if i < head.len() {
                    assert(raw[i] == head[i]);
                } else {
                    assert(raw[i] == pattern_hits_from(s, lex, 0)[i - head.len()]);
                }
            }
        }
        lemma_dedup_single(raw, s);
    }
}

// ----- execution -----

fn first_alternative_of(c: &str) -> (r: String)
    ensures
        r@ == first_alternative(c@),
{
    let v = chars_of(c);
    let mut slash: Vec<char> = Vec::new();
    slash.push('/');
    assert(slash@ =~= seq!['/']);
    proof {
        lemma_find_from(c@, seq!['/'], 0);
    }
    match vec_find_from(&v, &slash, 0) {
        Some(k) => take_chars(c, k),
        None => owned(c),
    }
}

/// The correction table's hit for `input`.
fn try_correction_table_hit(input: &str) -> (r: Option<RuleHit>)
    ensures
        match r {
            Some(h) => table_hit(input@) == Some(h@),
            None => table_hit(input@) is None,
        },
{
    match lookup(input) {
        None => None,
        Some(entry) => {
            let output = first_alternative_of(entry.correct);
            let step = Step::new(entry.rule, entry.description, input, output.as_str());
            let mut steps: Vec<Step> = Vec::new();
            steps.push(step);
            let p = Prakriya::corrected(input, output.as_str(), steps).with_metadata(
                RuleCategory::ShuddhaTable,
                DiagnosticKind::Error,
            );
            assert(steps_view(p.steps@) =~= seq![
                StepView {
                    rule: entry.rule@,
                    description: entry.description@,
                    before: input@,
                    after: output@,
                },
            ]);
            Some(
                RuleHit {
                    spec_id: None,
                    priority: 0,
                    category: RuleCategory::ShuddhaTable,
                    kind: DiagnosticKind::Error,
                    prakriya: p,
                },
            )
        },
    }
}

fn steps_equal(a: &Vec<Step>, b: &Vec<Step>) -> (r: bool)
    ensures
        r == (steps_view(a@) == steps_view(b@)),
{
    if a.len() != b.len() {
        assert(steps_view(a@).len() != steps_view(b@).len());
        return false;
    }
    let mut i: usize = 0;
    while i < a.len()
        invariant
            a.len() == b.len(),
            i <= a.len(),
            forall|j: int| 0 <= j < i ==> a@[j]@ == b@[j]@,
        decreases a.len() - i,
    {
        let same = a[i].rule.same_as(&b[i].rule) && str_eq(
            a[i].description.as_str(),
            b[i].description.as_str(),
        ) && str_eq(a[i].before.as_str(), b[i].before.as_str()) && str_eq(
            a[i].after.as_str(),
            b[i].after.as_str(),
        );
        if !same {
            assert(steps_view(a@)[i as int] != steps_view(b@)[i as int]);
            return false;
        }
        i = i + 1;
    }
    assert(steps_view(a@) =~= steps_view(b@));
    true
}

fn hits_equivalent(a: &RuleHit, b: &RuleHit) -> (r: bool)
    ensures
        r == equivalent_hits(a@, b@),
{
    if !(a.category == b.category) || !(a.kind == b.kind) {
        return false;
    }
    if !str_eq(a.prakriya.output.as_str(), b.prakriya.output.as_str()) {
        return false;
    }
    steps_equal(&a.prakriya.steps, &b.prakriya.steps)
}

/// Appends `h` unless it is equivalent to the last hit kept.
fn push_dedup(out: &mut Vec<RuleHit>, h: RuleHit)
    ensures
        hits_view(final(out)@) == dedup_push(hits_view(old(out)@), h@),
{
    let n = out.len();
    if n > 0 && hits_equivalent(&h, &out[n - 1]) {
        return;
    }
    let ghost before = out@;
    out.push(h);
    assert(hits_view(out@) =~= hits_view(before).push(h@));
}

/// The hit of the `k`-th registered rule on `input`, if it fires.
fn rule_hit_at(rules: &Vec<PatternRule>, k: usize, input: &str, lex: &Lexicon) -> (r: Option<RuleHit>)
    requires
        holds_rules(rules@, registry()),
        k < rules.len(),
    ensures
        match rule_fn_fix(registry()[k as int], input@, *lex) {
            Some(fx) => r matches Some(h) && h@ == pattern_hit(registry()[k as int], input@, fx),
            None => r is None,
        },
{
    assert(rules@[k as int].apply == registry()[k as int]);
    match rules[k].apply.run(input, lex) {
        Some(p) => {
            let category = rules[k].spec.category;
            let kind = rules[k].spec.kind;
            Some(
                RuleHit {
                    spec_id: Some(rules[k].spec.id),
                    priority: rules[k].spec.priority,
                    category,
                    kind,
                    prakriya: p.with_metadata(category, kind),
                },
            )
        },
        None => None,
    }
}

/// Collect all applicable rule hits for a word, sorted by production priority.
pub fn collect_rule_hits(input: &str, lex: &Lexicon) -> (r: Vec<RuleHit>)
    ensures
        hits_view(r@) == rule_hits(input@, *lex),
        sorted_by_priority(hits_view(r@)),
        no_adjacent_equivalent(hits_view(r@)),
        single_steps(hits_view(r@), input@),
{
    proof {
        lemma_rule_hits_sorted(input@, *lex);
        lemma_rule_hits_distinct_neighbours(input@, *lex);
        lemma_hits_have_one_step(input@, *lex);
    }
    let mut out: Vec<RuleHit> = Vec::new();
    if char_count(input) == 0 {
        assert(hits_view(out@) =~= Seq::<RuleHitView>::empty());
        return out;
    }
    let ghost table_part: Seq<RuleHitView> = match table_hit(input@) {
        Some(h) => seq![h],
        None => seq![],
    };
    assert(hits_view(out@) =~= Seq::<RuleHitView>::empty());
    match try_correction_table_hit(input) {
        Some(h) => {
            let ghost hv = h@;
            push_dedup(&mut out, h);
            assert(table_part.drop_last() =~= Seq::<RuleHitView>::empty());
            assert(dedup_hits(table_part.drop_last()) =~= Seq::<RuleHitView>::empty());
            assert(table_part.last() == hv);
            assert(dedup_hits(table_part) == dedup_push(Seq::<RuleHitView>::empty(), hv));
        },
        None => {
            assert(dedup_hits(table_part) =~= Seq::<RuleHitView>::empty());
        },
    }
    assert(hits_view(out@) == dedup_hits(table_part));
    let rules = pattern_rules();
    let ghost mut done: Seq<RuleHitView> = seq![];
    let mut k: usize = 0;
    while k < rules.len()
        invariant
            holds_rules(rules@, registry()),
            k <= rules.len(),
            done + pattern_hits_from(input@, *lex, k as int) == pattern_hits_from(input@, *lex, 0),
            hits_view(out@) == dedup_hits(table_part + done),
        decreases rules.len() - k,
    {
        match rule_hit_at(&rules, k, input, lex) {
            Some(h) => {
                let ghost hv = h@;
                push_dedup(&mut out, h);
                proof {
                    let x = table_part + done;
                    assert(x.push(hv).drop_last() =~= x);
                    assert(x.push(hv) =~= table_part + done.push(hv));
                    assert(done.push(hv) + pattern_hits_from(input@, *lex, k + 1) =~= done
                        + pattern_hits_from(input@, *lex, k as int));
                    done = done.push(hv);
                }
            },
            None => {},
        }
        k = k + 1;
    }
    assert(done =~= pattern_hits_from(input@, *lex, 0));
    out
}

/// Derive the correct form of a word, with step-by-step rule tracing: the
/// correction table first, then the pattern rules; a word that no rule
/// touches is correct.
pub fn derive(input: &str, lex: &Lexicon) -> (p: Prakriya)
    ensures
        p@ == derivation(input@, *lex),
{
    let mut hits = collect_rule_hits(input, lex);
    if hits.len() > 0 {
        let h = hits.remove(0);
        return h.into_prakriya();
    }
    let p = Prakriya::correct(input);
    assert(p@.steps =~= Seq::<StepView>::empty());
    p
}

} // verus!
