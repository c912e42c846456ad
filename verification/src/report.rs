//! The report model builder. For every distinct feature document, in the
//! order first seen, it renders each top-level scenario (plain, or delegated
//! to the outline reconciler on the first expansion of an outline) and each
//! rule's scenarios, computes the feature's statistics, and assembles the
//! report model: pages for the features that built, failures for those that
//! did not, and an index over the successes sorted by name. A feature's
//! failure never corrupts another feature's output.

use vstd::prelude::*;
use std::collections::HashSet;
use crate::doc_model::{FeatureDoc, FeatureDocView, RuleDoc, RuleDocView, ScenarioDoc, ScenarioDocView};
use crate::identity::{scenario_id, spec_scenario_id};
use crate::outcome::{OutcomeTracker, StepState};
use crate::order::{sort_entries, spec_sort_entries};
use crate::reconcile::{render_outline, render_steps, spec_outline_of, spec_render_steps};
use crate::render::{
    opt_string_or_empty, spec_or_empty, FeatureFailure, FeatureFailureView, FeatureRenderData,
    FeatureRenderDataView, FeatureRenderStatsDataView, IndexRenderData, ReportError, ReportModel,
    ReportModelView, RuleRenderData, RuleRenderDataView, ScenarioFragment, ScenarioFragmentView,
    ScenarioRenderData, ScenarioRenderDataView,
};
use crate::stats::{feature_stats, spec_feature_stats};

verus! {

broadcast use vstd::std_specs::hash::group_hash_axioms;

/// The view of an optional borrowed template document.
pub open spec fn opt_doc_view(t: Option<&FeatureDoc>) -> Option<FeatureDocView> {
    match t {
        Option::None => Option::None,
        Option::Some(f) => Option::Some(f@),
    }
}

/// The first template document carrying the given feature name, if any.
pub open spec fn spec_find_by_name(ts: Seq<FeatureDocView>, name: Seq<char>) -> Option<int>
    decreases ts.len(),
{
    if ts.len() == 0 {
        Option::None
    } else if ts[0].name == name {
        Option::Some(0)
    } else {
        match spec_find_by_name(ts.drop_first(), name) {
            Option::None => Option::None,
            Option::Some(i) => Option::Some(i + 1),
        }
    }
}

/// A scan that matched at `i` after missing earlier found the first match.
proof fn lemma_find_by_name_hit(ts: Seq<FeatureDocView>, name: Seq<char>, i: int)
    requires
        0 <= i < ts.len(),
        ts[i].name == name,
        forall|j: int| 0 <= j < i ==> ts[j].name != name,
    ensures
        spec_find_by_name(ts, name) == Option::Some(i),
    decreases i,
{
    if i == 0 {
    } else {
        let t = ts.drop_first();
        assert forall|j: int| 0 <= j < i - 1 implies t[j].name != name by {
            assert(t[j] == ts[j + 1]);
        }
        assert(t[i - 1] == ts[i]);
        lemma_find_by_name_hit(t, name, i - 1);
    }
}

/// A scan that missed everywhere found nothing.
proof fn lemma_find_by_name_miss(ts: Seq<FeatureDocView>, name: Seq<char>)
    requires
        forall|j: int| 0 <= j < ts.len() ==> ts[j].name != name,
    ensures
        spec_find_by_name(ts, name) == Option::None::<int>,
    decreases ts.len(),
{
    if ts.len() == 0 {
    } else {
        let t = ts.drop_first();
        assert forall|j: int| 0 <= j < t.len() implies t[j].name != name by {
            assert(t[j] == ts[j + 1]);
        }
        lemma_find_by_name_miss(t, name);
    }
}

/// Finds the first template document with the given name.
pub fn find_by_name(ts: &Vec<FeatureDoc>, name: &String) -> (r: Option<usize>)
    ensures
        match r {
            Option::Some(i) => i < ts.len() && spec_find_by_name(ts.deep_view(), name@)
                == Option::Some(i as int),
            Option::None => spec_find_by_name(ts.deep_view(), name@) == Option::None::<int>,
        },
{
    let n = ts.len();
    for i in 0..n
        invariant
            n == ts.len(),
            forall|j: int| 0 <= j < i ==> ts.deep_view()[j].name != name@,
    {
        proof {
            assert(ts.deep_view()[i as int] == ts@[i as int]@);
        }
        if ts[i].name.eq(name) {
            proof {
                lemma_find_by_name_hit(ts.deep_view(), name@, i as int);
            }
            return Option::Some(i);
        }
    }
    proof {
        lemma_find_by_name_miss(ts.deep_view(), name@);
    }
    Option::None
}

/// The first scenario with the given source span, if any: the join between
/// an expanded scenario and its owning outline template, which keep the
/// outline directive's span across both parses.
pub open spec fn spec_find_span(ss: Seq<ScenarioDocView>, a: nat, b: nat) -> Option<int>
    decreases ss.len(),
{
    if ss.len() == 0 {
        Option::None
    } else if ss[0].span_start == a && ss[0].span_end == b {
        Option::Some(0)
    } else {
        match spec_find_span(ss.drop_first(), a, b) {
            Option::None => Option::None,
            Option::Some(i) => Option::Some(i + 1),
        }
    }
}

/// A scan that matched at `i` after missing earlier found the first match.
proof fn lemma_find_span_hit(ss: Seq<ScenarioDocView>, a: nat, b: nat, i: int)
    requires
        0 <= i < ss.len(),
        ss[i].span_start == a && ss[i].span_end == b,
        forall|j: int| 0 <= j < i ==> !(ss[j].span_start == a && ss[j].span_end == b),
    ensures
        spec_find_span(ss, a, b) == Option::Some(i),
    decreases i,
{
    if i == 0 {
    } else {
        let t = ss.drop_first();
        assert forall|j: int| 0 <= j < i - 1 implies !(t[j].span_start == a && t[j].span_end
            == b) by {
            assert(t[j] == ss[j + 1]);
        }
        assert(t[i - 1] == ss[i]);
        lemma_find_span_hit(t, a, b, i - 1);
    }
}

/// A scan that missed everywhere found nothing.
proof fn lemma_find_span_miss(ss: Seq<ScenarioDocView>, a: nat, b: nat)
    requires
        forall|j: int| 0 <= j < ss.len() ==> !(ss[j].span_start == a && ss[j].span_end == b),
    ensures
        spec_find_span(ss, a, b) == Option::None::<int>,
    decreases ss.len(),
{
    if ss.len() == 0 {
    } else {
        let t = ss.drop_first();
        assert forall|j: int| 0 <= j < t.len() implies !(t[j].span_start == a && t[j].span_end
            == b) by {
            assert(t[j] == ss[j + 1]);
        }
        lemma_find_span_miss(t, a, b);
    }
}

/// Finds the first scenario with the given source span.
pub fn find_span(ss: &Vec<ScenarioDoc>, a: usize, b: usize) -> (r: Option<usize>)
    ensures
        match r {
            Option::Some(i) => i < ss.len() && spec_find_span(ss.deep_view(), a as nat, b as nat)
                == Option::Some(i as int),
            Option::None => spec_find_span(ss.deep_view(), a as nat, b as nat) == Option::None::<
                int,
            >,
        },
{
    let n = ss.len();
    for i in 0..n
        invariant
            n == ss.len(),
            forall|j: int|
                0 <= j < i ==> !(ss.deep_view()[j].span_start == a as nat
                    && ss.deep_view()[j].span_end == b as nat),
    {
        proof {
            assert(ss.deep_view()[i as int] == ss@[i as int]@);
        }
        if ss[i].span_start == a && ss[i].span_end == b {
            proof {
                lemma_find_span_hit(ss.deep_view(), a as nat, b as nat, i as int);
            }
            return Option::Some(i);
        }
    }
    proof {
        lemma_find_span_miss(ss.deep_view(), a as nat, b as nat);
    }
    Option::None
}

/// What rendering a plain scenario yields: its name, description, and steps
/// with their tracked outcomes.
pub open spec fn spec_plain_scenario(sc: ScenarioDocView, m: Map<u64, StepState>) -> ScenarioRenderDataView {
    ScenarioRenderDataView {
        name: sc.name,
        description: spec_or_empty(sc.description),
        steps: spec_render_steps(sc.steps, m),
    }
}

/// Renders a plain scenario.
pub fn render_plain_scenario(sc: &ScenarioDoc, outcomes: &OutcomeTracker) -> (r: ScenarioRenderData)
    ensures
        r@ == spec_plain_scenario(sc@, outcomes@),
{
    ScenarioRenderData {
        name: sc.name.clone(),
        description: opt_string_or_empty(&sc.description),
        steps: render_steps(&sc.steps, outcomes),
    }
}

/// What rendering one scenario occurrence yields, together with the updated
/// set of already-rendered outlines. A scenario without examples is plain.
/// One with examples is the expansion of an outline: its template is located
/// in the template document by the outline's span; the first expansion seen
/// renders the whole outline and marks it, later expansions yield nothing.
/// A missing template document or template scenario is a template error.
#[verifier::opaque]
pub open spec fn spec_fragment(
    sc: ScenarioDocView,
    live: Seq<ScenarioDocView>,
    tpl: Option<FeatureDocView>,
    m: Map<u64, StepState>,
    outlines: Set<u64>,
) -> (Result<ScenarioFragmentView, ReportError>, Set<u64>) {
    if sc.examples.len() == 0 {
        (
            Result::Ok(ScenarioFragmentView::Plain(spec_plain_scenario(sc, m))),
            outlines,
        )
    } else {
        match tpl {
            Option::None => (Result::Err(ReportError::TemplateError), outlines),
            Option::Some(t) => {
                match spec_find_span(t.scenarios, sc.span_start, sc.span_end) {
                    Option::None => (Result::Err(ReportError::TemplateError), outlines),
                    Option::Some(ti) => {
                        let tsc = t.scenarios[ti];
                        let id = spec_scenario_id(tsc.name, tsc.span_start, tsc.span_end);
                        if outlines.contains(id) {
                            (Result::Ok(ScenarioFragmentView::AlreadyRendered), outlines)
                        } else {
                            let o2 = outlines.insert(id);
                            match spec_outline_of(tsc, live, m) {
                                Result::Err(e) => (Result::Err(e), o2),
                                Result::Ok(o) => (
                                    Result::Ok(ScenarioFragmentView::Outline(o)),
                                    o2,
                                ),
                            }
                        }
                    },
                }
            },
        }
    }
}

/// The view of an executable fragment result.
pub open spec fn fragment_res_view(r: Result<ScenarioFragment, ReportError>) -> Result<
    ScenarioFragmentView,
    ReportError,
> {
    match r {
        Result::Ok(v) => Result::Ok(v@),
        Result::Err(e) => Result::Err(e),
    }
}

/// Renders one scenario occurrence of the live feature.
pub fn render_fragment(
    sc: &ScenarioDoc,
    live: &Vec<ScenarioDoc>,
    tpl: Option<&FeatureDoc>,
    outcomes: &OutcomeTracker,
    outlines: &mut HashSet<u64>,
) -> (r: Result<ScenarioFragment, ReportError>)
    ensures
        ({
            let (sr, so) = spec_fragment(
                sc@,
                live.deep_view(),
                opt_doc_view(tpl),
                outcomes@,
                old(outlines)@,
            );
            fragment_res_view(r) == sr && final(outlines)@ == so
        }),
{
    proof {
        reveal(spec_fragment);
    }
    if sc.examples.len() == 0 {
        Result::Ok(ScenarioFragment::Plain(render_plain_scenario(sc, outcomes)))
    } else {
        match tpl {
            Option::None => Result::Err(ReportError::TemplateError),
            Option::Some(t) => {
                match find_span(&t.scenarios, sc.span_start, sc.span_end) {
                    Option::None => Result::Err(ReportError::TemplateError),
                    Option::Some(ti) => {
                        let tsc = &t.scenarios[ti];
                        proof {
                            assert(t.scenarios.deep_view()[ti as int] == t.scenarios@[ti as int]@);
                        }
                        let id = scenario_id(tsc.name.as_str(), tsc.span_start, tsc.span_end);
                        let newly = outlines.insert(id);
                        if !newly {
                            Result::Ok(ScenarioFragment::AlreadyRendered)
                        } else {
                            match render_outline(tsc, live, outcomes) {
                                Result::Err(e) => Result::Err(e),
                                Result::Ok(o) => Result::Ok(ScenarioFragment::Outline(o)),
                            }
                        }
                    },
                }
            },
        }
    }
}

/// What rendering a list of scenario occurrences yields, in order, threading
/// the set of already-rendered outlines; the first failing occurrence aborts
/// the feature.
pub open spec fn spec_fragments(
    scs: Seq<ScenarioDocView>,
    live: Seq<ScenarioDocView>,
    tpl: Option<FeatureDocView>,
    m: Map<u64, StepState>,
    outlines: Set<u64>,
) -> (Result<Seq<ScenarioFragmentView>, ReportError>, Set<u64>)
    decreases scs.len(),
{
    if scs.len() == 0 {
        (Result::Ok(Seq::empty()), outlines)
    } else {
        let (r0, o1) = spec_fragment(scs[0], live, tpl, m, outlines);
        match r0 {
            Result::Err(e) => (Result::Err(e), o1),
            Result::Ok(fr) => {
                let (rrest, o2) = spec_fragments(scs.drop_first(), live, tpl, m, o1);
                match rrest {
                    Result::Err(e) => (Result::Err(e), o2),
                    Result::Ok(rest) => (Result::Ok(seq![fr] + rest), o2),
                }
            },
        }
    }
}

/// The view of an executable fragment-sequence result.
pub open spec fn fragments_res_view(r: Result<Vec<ScenarioFragment>, ReportError>) -> Result<
    Seq<ScenarioFragmentView>,
    ReportError,
> {
    match r {
        Result::Ok(v) => Result::Ok(v.deep_view()),
        Result::Err(e) => Result::Err(e),
    }
}

/// Renders a list of scenario occurrences in order.
#[verifier::rlimit(100)]
pub fn render_fragments(
    scs: &Vec<ScenarioDoc>,
    live: &Vec<ScenarioDoc>,
    tpl: Option<&FeatureDoc>,
    outcomes: &OutcomeTracker,
    outlines: &mut HashSet<u64>,
) -> (r: Result<Vec<ScenarioFragment>, ReportError>)
    ensures
        ({
            let (sr, so) = spec_fragments(
                scs.deep_view(),
                live.deep_view(),
                opt_doc_view(tpl),
                outcomes@,
                old(outlines)@,
            );
            fragments_res_view(r) == sr && final(outlines)@ == so
        }),
{
    let ghost all = scs.deep_view();
    let ghost o0 = outlines@;
    let mut acc: Vec<ScenarioFragment> = Vec::new();
    let n = scs.len();
    proof {
        assert(all.skip(0) =~= all);
        let full = spec_fragments(all, live.deep_view(), opt_doc_view(tpl), outcomes@, o0);
        if full.0 is Ok {
            assert(acc.deep_view() + full.0->Ok_0 =~= full.0->Ok_0);
        }
    }
    let mut i: usize = 0;
    while i < n
        invariant
            n == scs.len(),
            i <= n,
            all == scs.deep_view(),
            o0 == old(outlines)@,
            acc.len() == i,
            ({
                let full = spec_fragments(all, live.deep_view(), opt_doc_view(tpl), outcomes@, o0);
                let part = spec_fragments(
                    all.skip(i as int),
                    live.deep_view(),
                    opt_doc_view(tpl),
                    outcomes@,
                    outlines@,
                );
                match part.0 {
                    Result::Ok(rest) => full.0 == Result::Ok::<_, ReportError>(
                        acc.deep_view() + rest,
                    ) && full.1 == part.1,
                    Result::Err(e) => full.0 == Result::Err::<Seq<ScenarioFragmentView>, _>(e)
                        && full.1 == part.1,
                }
            }),
        decreases n - i,
    {
        proof {
            assert(all.skip(i as int)[0] == all[i as int]);
            assert(all[i as int] == scs@[i as int]@);
            assert(all.skip(i as int).drop_first() =~= all.skip(i as int + 1));
        }
        let ghost o_snap = outlines@;
        match render_fragment(&scs[i], live, tpl, outcomes, outlines) {
            Result::Err(e) => {
                proof {
                    let part = spec_fragments(
                        all.skip(i as int),
                        live.deep_view(),
                        opt_doc_view(tpl),
                        outcomes@,
                        o_snap,
                    );
                    assert(part.0 == Result::Err::<Seq<ScenarioFragmentView>, ReportError>(e));
                    assert(part.1 == outlines@);
                }
                return Result::Err(e);
            },
            Result::Ok(fr) => {
                let ghost prev = acc@;
                let ghost frv = fr@;
                acc.push(fr);
                proof {
                    let old_dv = Seq::new(prev.len(), |j: int| prev[j].deep_view());
                    assert forall|j: int| 0 <= j < i + 1 implies acc.deep_view()[j] == old_dv.push(
                        frv,
                    )[j] by {
                        assert(acc.deep_view()[j] == acc@[j]@);
                        if j < i {
                            assert(acc@[j] == prev[j]);
                        }
                    }
                    assert(acc.deep_view() =~= old_dv.push(frv));
                    let part = spec_fragments(
                        all.skip(i as int + 1),
                        live.deep_view(),
                        opt_doc_view(tpl),
                        outcomes@,
                        outlines@,
                    );
                    match part.0 {
                        Result::Ok(rest) => {
                            assert(old_dv + (seq![frv] + rest) =~= old_dv.push(frv) + rest);
                        },
                        Result::Err(_) => {},
                    }
                }
                i = i + 1;
            },
        }
    }
    proof {
        assert(all.skip(n as int) =~= Seq::<ScenarioDocView>::empty());
        assert(acc.deep_view() + Seq::<ScenarioFragmentView>::empty() =~= acc.deep_view());
    }
    Result::Ok(acc)
}

/// What rendering a rule yields: its name, description, and its scenarios'
/// fragments in order.
pub open spec fn spec_rule_of(
    rule: RuleDocView,
    live: Seq<ScenarioDocView>,
    tpl: Option<FeatureDocView>,
    m: Map<u64, StepState>,
    outlines: Set<u64>,
) -> (Result<RuleRenderDataView, ReportError>, Set<u64>) {
    let (r, o) = spec_fragments(rule.scenarios, live, tpl, m, outlines);
    match r {
        Result::Err(e) => (Result::Err(e), o),
        Result::Ok(frs) => (
            Result::Ok(
                RuleRenderDataView {
                    name: rule.name,
                    description: spec_or_empty(rule.description),
                    scenarios: frs,
                },
            ),
            o,
        ),
    }
}

/// The view of an executable rule result.
pub open spec fn rule_res_view(r: Result<RuleRenderData, ReportError>) -> Result<
    RuleRenderDataView,
    ReportError,
> {
    match r {
        Result::Ok(v) => Result::Ok(v@),
        Result::Err(e) => Result::Err(e),
    }
}

/// Renders one rule of the live feature.
pub fn render_rule(
    rule: &RuleDoc,
    live: &Vec<ScenarioDoc>,
    tpl: Option<&FeatureDoc>,
    outcomes: &OutcomeTracker,
    outlines: &mut HashSet<u64>,
) -> (r: Result<RuleRenderData, ReportError>)
    ensures
        ({
            let (sr, so) = spec_rule_of(
                rule@,
                live.deep_view(),
                opt_doc_view(tpl),
                outcomes@,
                old(outlines)@,
            );
            rule_res_view(r) == sr && final(outlines)@ == so
        }),
{
    match render_fragments(&rule.scenarios, live, tpl, outcomes, outlines) {
        Result::Err(e) => Result::Err(e),
        Result::Ok(frs) => Result::Ok(
            RuleRenderData {
                name: rule.name.clone(),
                description: opt_string_or_empty(&rule.description),
                scenarios: frs,
            },
        ),
    }
}

/// What rendering every rule yields, in order, threading the outline set.
pub open spec fn spec_rules_of(
    rules: Seq<RuleDocView>,
    live: Seq<ScenarioDocView>,
    tpl: Option<FeatureDocView>,
    m: Map<u64, StepState>,
    outlines: Set<u64>,
) -> (Result<Seq<RuleRenderDataView>, ReportError>, Set<u64>)
    decreases rules.len(),
{
    if rules.len() == 0 {
        (Result::Ok(Seq::empty()), outlines)
    } else {
        let (r0, o1) = spec_rule_of(rules[0], live, tpl, m, outlines);
        match r0 {
            Result::Err(e) => (Result::Err(e), o1),
            Result::Ok(rd) => {
                let (rrest, o2) = spec_rules_of(rules.drop_first(), live, tpl, m, o1);
                match rrest {
                    Result::Err(e) => (Result::Err(e), o2),
                    Result::Ok(rest) => (Result::Ok(seq![rd] + rest), o2),
                }
            },
        }
    }
}

/// The view of an executable rule-sequence result.
pub open spec fn rules_res_view(r: Result<Vec<RuleRenderData>, ReportError>) -> Result<
    Seq<RuleRenderDataView>,
    ReportError,
> {
    match r {
        Result::Ok(v) => Result::Ok(v.deep_view()),
        Result::Err(e) => Result::Err(e),
    }
}

/// Renders every rule of the live feature in order.
pub fn render_rules(
    rules: &Vec<RuleDoc>,
    live: &Vec<ScenarioDoc>,
    tpl: Option<&FeatureDoc>,
    outcomes: &OutcomeTracker,
    outlines: &mut HashSet<u64>,
) -> (r: Result<Vec<RuleRenderData>, ReportError>)
    ensures
        ({
            let (sr, so) = spec_rules_of(
                rules.deep_view(),
                live.deep_view(),
                opt_doc_view(tpl),
                outcomes@,
                old(outlines)@,
            );
            rules_res_view(r) == sr && final(outlines)@ == so
        }),
{
    let ghost all = rules.deep_view();
    let ghost o0 = outlines@;
    let mut acc: Vec<RuleRenderData> = Vec::new();
    let n = rules.len();
    proof {
        assert(all.skip(0) =~= all);
        let full = spec_rules_of(all, live.deep_view(), opt_doc_view(tpl), outcomes@, o0);
        if full.0 is Ok {
            assert(acc.deep_view() + full.0->Ok_0 =~= full.0->Ok_0);
        }
    }
    let mut i: usize = 0;
    while i < n
        invariant
            n == rules.len(),
            i <= n,
            all == rules.deep_view(),
            o0 == old(outlines)@,
            acc.len() == i,
            ({
                let full = spec_rules_of(all, live.deep_view(), opt_doc_view(tpl), outcomes@, o0);
                let part = spec_rules_of(
                    all.skip(i as int),
                    live.deep_view(),
                    opt_doc_view(tpl),
                    outcomes@,
                    outlines@,
                );
                match part.0 {
                    Result::Ok(rest) => full.0 == Result::Ok::<_, ReportError>(
                        acc.deep_view() + rest,
                    ) && full.1 == part.1,
                    Result::Err(e) => full.0 == Result::Err::<Seq<RuleRenderDataView>, _>(e)
                        && full.1 == part.1,
                }
            }),
        decreases n - i,
    {
        proof {
            assert(all.skip(i as int)[0] == all[i as int]);
            assert(all[i as int] == rules@[i as int]@);
            assert(all.skip(i as int).drop_first() =~= all.skip(i as int + 1));
        }
        let ghost o_snap = outlines@;
        match render_rule(&rules[i], live, tpl, outcomes, outlines) {
            Result::Err(e) => {
                proof {
                    let part = spec_rules_of(
                        all.skip(i as int),
                        live.deep_view(),
                        opt_doc_view(tpl),
                        outcomes@,
                        o_snap,
                    );
                    assert(part.0 == Result::Err::<Seq<RuleRenderDataView>, ReportError>(e));
                    assert(part.1 == outlines@);
                }
                return Result::Err(e);
            },
            Result::Ok(rd) => {
                let ghost prev = acc@;
                let ghost rdv = rd@;
                acc.push(rd);
                proof {
                    let old_dv = Seq::new(prev.len(), |j: int| prev[j].deep_view());
                    assert forall|j: int| 0 <= j < i + 1 implies acc.deep_view()[j] == old_dv.push(
                        rdv,
                    )[j] by {
                        assert(acc.deep_view()[j] == acc@[j]@);
                        if j < i {
                            assert(acc@[j] == prev[j]);
                        }
                    }
                    assert(acc.deep_view() =~= old_dv.push(rdv));
                    let part = spec_rules_of(
                        all.skip(i as int + 1),
                        live.deep_view(),
                        opt_doc_view(tpl),
                        outcomes@,
                        outlines@,
                    );
                    match part.0 {
                        Result::Ok(rest) => {
                            assert(old_dv + (seq![rdv] + rest) =~= old_dv.push(rdv) + rest);
                        },
                        Result::Err(_) => {},
                    }
                }
                i = i + 1;
            },
        }
    }
    proof {
        assert(all.skip(n as int) =~= Seq::<RuleDocView>::empty());
        assert(acc.deep_view() + Seq::<RuleRenderDataView>::empty() =~= acc.deep_view());
    }
    Result::Ok(acc)
}

/// What building one feature's page yields: its top-level fragments, then
/// its rules, against its own scenarios as the live tree.
pub open spec fn spec_feature_page(
    f: FeatureDocView,
    tpl: Option<FeatureDocView>,
    m: Map<u64, StepState>,
    outlines: Set<u64>,
) -> (Result<FeatureRenderDataView, ReportError>, Set<u64>) {
    let (sr, o1) = spec_fragments(f.scenarios, f.scenarios, tpl, m, outlines);
    match sr {
        Result::Err(e) => (Result::Err(e), o1),
        Result::Ok(frs) => {
            let (rr, o2) = spec_rules_of(f.rules, f.scenarios, tpl, m, o1);
            match rr {
                Result::Err(e) => (Result::Err(e), o2),
                Result::Ok(rls) => (
                    Result::Ok(
                        FeatureRenderDataView {
                            name: f.name,
                            description: spec_or_empty(f.description),
                            scenarios: frs,
                            rules: rls,
                        },
                    ),
                    o2,
                ),
            }
        },
    }
}

/// The view of an executable feature-page result.
pub open spec fn page_res_view(r: Result<FeatureRenderData, ReportError>) -> Result<
    FeatureRenderDataView,
    ReportError,
> {
    match r {
        Result::Ok(v) => Result::Ok(v@),
        Result::Err(e) => Result::Err(e),
    }
}

/// Builds one feature's page.
pub fn render_feature(
    f: &FeatureDoc,
    tpl: Option<&FeatureDoc>,
    outcomes: &OutcomeTracker,
    outlines: &mut HashSet<u64>,
) -> (r: Result<FeatureRenderData, ReportError>)
    ensures
        ({
            let (sr, so) = spec_feature_page(f@, opt_doc_view(tpl), outcomes@, old(outlines)@);
            page_res_view(r) == sr && final(outlines)@ == so
        }),
{
    match render_fragments(&f.scenarios, &f.scenarios, tpl, outcomes, outlines) {
        Result::Err(e) => Result::Err(e),
        Result::Ok(frs) => {
            match render_rules(&f.rules, &f.scenarios, tpl, outcomes, outlines) {
                Result::Err(e) => Result::Err(e),
                Result::Ok(rls) => Result::Ok(
                    FeatureRenderData {
                        name: f.name.clone(),
                        description: opt_string_or_empty(&f.description),
                        scenarios: frs,
                        rules: rls,
                    },
                ),
            }
        },
    }
}

/// What building the whole report yields: for every stored feature in order,
/// its page and index entry on success or its failure record, and the set of
/// rendered outlines after all of them.
pub open spec fn spec_build_pages(
    fs: Seq<FeatureDocView>,
    templates: Seq<FeatureDocView>,
    m: Map<u64, StepState>,
    outlines: Set<u64>,
) -> (Seq<FeatureRenderDataView>, Seq<FeatureFailureView>, Seq<FeatureRenderStatsDataView>, Set<
    u64,
>)
    decreases fs.len(),
{
    if fs.len() == 0 {
        (Seq::empty(), Seq::empty(), Seq::empty(), outlines)
    } else {
        let f = fs[0];
        let tpl = match spec_find_by_name(templates, f.name) {
            Option::None => Option::None,
            Option::Some(i) => Option::Some(templates[i]),
        };
        let (pr, o1) = spec_feature_page(f, tpl, m, outlines);
        let (pages, fails, entries, o2) = spec_build_pages(fs.drop_first(), templates, m, o1);
        match pr {
            Result::Ok(page) => (
                seq![page] + pages,
                fails,
                seq![spec_feature_stats(f, m)] + entries,
                o2,
            ),
            Result::Err(e) => (
                pages,
                seq![FeatureFailureView { name: f.name, error: e }] + fails,
                entries,
                o2,
            ),
        }
    }
}

/// The finished report model of a reporter state: pages and failures in
/// store order, and the index over the successes sorted by name.
pub open spec fn spec_build_model(
    fs: Seq<FeatureDocView>,
    templates: Seq<FeatureDocView>,
    m: Map<u64, StepState>,
    outlines: Set<u64>,
) -> (ReportModelView, Set<u64>) {
    let (pages, fails, entries, o) = spec_build_pages(fs, templates, m, outlines);
    (
        ReportModelView { features: pages, failures: fails, index: spec_sort_entries(entries) },
        o,
    )
}

/// Pages, failures and index entries account for every stored feature: each
/// feature yields a page and an index entry, or a failure record.
proof fn lemma_build_pages_counts(
    fs: Seq<FeatureDocView>,
    templates: Seq<FeatureDocView>,
    m: Map<u64, StepState>,
    outlines: Set<u64>,
)
    ensures
        ({
            let (pages, fails, entries, _) = spec_build_pages(fs, templates, m, outlines);
            &&& pages.len() == entries.len()
            &&& pages.len() + fails.len() == fs.len()
        }),
    decreases fs.len(),
{
    if fs.len() == 0 {
    } else {
        let f = fs[0];
        let tpl = match spec_find_by_name(templates, f.name) {
            Option::None => Option::None,
            Option::Some(i) => Option::Some(templates[i]),
        };
        let (_, o1) = spec_feature_page(f, tpl, m, outlines);
        lemma_build_pages_counts(fs.drop_first(), templates, m, o1);
    }
}

/// Per-feature isolation, seen in the finished model: the index is sorted by
/// feature name, holds exactly one entry per feature page that built, and
/// together the pages and the failure records account for every stored
/// feature — a failing feature costs its own page and nothing else.
pub proof fn lemma_model_accounts(
    fs: Seq<FeatureDocView>,
    templates: Seq<FeatureDocView>,
    m: Map<u64, StepState>,
    outlines: Set<u64>,
)
    ensures
        ({
            let (mv, _) = spec_build_model(fs, templates, m, outlines);
            &&& crate::order::entries_sorted(mv.index)
            &&& mv.index.len() == mv.features.len()
            &&& mv.features.len() + mv.failures.len() == fs.len()
        }),
{
    let (pages, fails, entries, _) = spec_build_pages(fs, templates, m, outlines);
    lemma_build_pages_counts(fs, templates, m, outlines);
    crate::order::lemma_sort_entries_sorted(entries);
}

/// Determinism: equal stores, templates, outcomes and outline sets build
/// byte-identical report models.
pub proof fn lemma_build_deterministic(
    fs1: Seq<FeatureDocView>,
    templates1: Seq<FeatureDocView>,
    m1: Map<u64, StepState>,
    outlines1: Set<u64>,
    fs2: Seq<FeatureDocView>,
    templates2: Seq<FeatureDocView>,
    m2: Map<u64, StepState>,
    outlines2: Set<u64>,
)
    requires
        fs1 == fs2,
        templates1 == templates2,
        m1 == m2,
        outlines1 == outlines2,
    ensures
        spec_build_model(fs1, templates1, m1, outlines1) == spec_build_model(
            fs2,
            templates2,
            m2,
            outlines2,
        ),
{
}

/// Builds the report model over every stored feature.
#[verifier::rlimit(100)]
pub fn build_model(
    features: &Vec<FeatureDoc>,
    templates: &Vec<FeatureDoc>,
    outcomes: &OutcomeTracker,
    outlines: &mut HashSet<u64>,
) -> (r: ReportModel)
    ensures
        ({
            let (mv, so) = spec_build_model(
                features.deep_view(),
                templates.deep_view(),
                outcomes@,
                old(outlines)@,
            );
            r@ == mv && final(outlines)@ == so
        }),
{
    let ghost all = features.deep_view();
    let ghost o0 = outlines@;
    let mut pages: Vec<FeatureRenderData> = Vec::new();
    let mut fails: Vec<FeatureFailure> = Vec::new();
    let mut entries: Vec<crate::render::FeatureRenderStatsData> = Vec::new();
    let n = features.len();
    proof {
        assert(all.skip(0) =~= all);
        let full = spec_build_pages(all, templates.deep_view(), outcomes@, o0);
        assert(pages.deep_view() + full.0 =~= full.0);
        assert(fails.deep_view() + full.1 =~= full.1);
        assert(entries.deep_view() + full.2 =~= full.2);
    }
    let mut i: usize = 0;
    while i < n
        invariant
            n == features.len(),
            i <= n,
            all == features.deep_view(),
            o0 == old(outlines)@,
            ({
                let full = spec_build_pages(all, templates.deep_view(), outcomes@, o0);
                let part = spec_build_pages(
                    all.skip(i as int),
                    templates.deep_view(),
                    outcomes@,
                    outlines@,
                );
                full.0 == pages.deep_view() + part.0 && full.1 == fails.deep_view() + part.1
                    && full.2 == entries.deep_view() + part.2 && full.3 == part.3
            }),
        decreases n - i,
    {
        proof {
            assert(all.skip(i as int)[0] == all[i as int]);
            assert(all[i as int] == features@[i as int]@);
            assert(all.skip(i as int).drop_first() =~= all.skip(i as int + 1));
        }
        let f = &features[i];
        let tpl_idx = find_by_name(templates, &f.name);
        let tpl: Option<&FeatureDoc> = match tpl_idx {
            Option::None => Option::None,
            Option::Some(t) => Option::Some(&templates[t]),
        };
        proof {
            match tpl_idx {
                Option::None => {},
                Option::Some(t) => {
                    assert(templates.deep_view()[t as int] == templates@[t as int]@);
                },
            }
        }
        match render_feature(f, tpl, outcomes, outlines) {
            Result::Ok(page) => {
                let entry = feature_stats(f, outcomes);
                let ghost prev_pages = pages@;
                let ghost pagev = page@;
                pages.push(page);
                let ghost prev_entries = entries@;
                let ghost entryv = entry@;
                entries.push(entry);
                proof {
                    let old_p = Seq::new(prev_pages.len(), |j: int| prev_pages[j].deep_view());
                    assert forall|j: int|
                        0 <= j < prev_pages.len() + 1 implies pages.deep_view()[j] == old_p.push(
                        pagev,
                    )[j] by {
                        assert(pages.deep_view()[j] == pages@[j]@);
                        if j < prev_pages.len() {
                            assert(pages@[j] == prev_pages[j]);
                        }
                    }
                    assert(pages.deep_view() =~= old_p.push(pagev));
                    let old_e = Seq::new(prev_entries.len(), |j: int| prev_entries[j].deep_view());
                    assert forall|j: int|
                        0 <= j < prev_entries.len() + 1 implies entries.deep_view()[j]
                        == old_e.push(entryv)[j] by {
                        assert(entries.deep_view()[j] == entries@[j]@);
                        if j < prev_entries.len() {
                            assert(entries@[j] == prev_entries[j]);
                        }
                    }
                    assert(entries.deep_view() =~= old_e.push(entryv));
                    let part = spec_build_pages(
                        all.skip(i as int + 1),
                        templates.deep_view(),
                        outcomes@,
                        outlines@,
                    );
                    assert(old_p + (seq![pagev] + part.0) =~= old_p.push(pagev) + part.0);
                    assert(old_e + (seq![entryv] + part.2) =~= old_e.push(entryv) + part.2);
                }
            },
            Result::Err(e) => {
                let fail = FeatureFailure { name: f.name.clone(), error: e };
                let ghost prev_fails = fails@;
                let ghost failv = fail@;
                fails.push(fail);
                proof {
                    let old_f = Seq::new(prev_fails.len(), |j: int| prev_fails[j].deep_view());
                    assert forall|j: int|
                        0 <= j < prev_fails.len() + 1 implies fails.deep_view()[j] == old_f.push(
                        failv,
                    )[j] by {
                        assert(fails.deep_view()[j] == fails@[j]@);
                        if j < prev_fails.len() {
                            assert(fails@[j] == prev_fails[j]);
                        }
                    }
                    assert(fails.deep_view() =~= old_f.push(failv));
                    let part = spec_build_pages(
                        all.skip(i as int + 1),
                        templates.deep_view(),
                        outcomes@,
                        outlines@,
                    );
                    assert(old_f + (seq![failv] + part.1) =~= old_f.push(failv) + part.1);
                }
            },
        }
        i = i + 1;
    }
    proof {
        assert(all.skip(n as int) =~= Seq::<FeatureDocView>::empty());
        let full = spec_build_pages(all, templates.deep_view(), outcomes@, o0);
        assert(pages.deep_view() + Seq::<FeatureRenderDataView>::empty() =~= pages.deep_view());
        assert(fails.deep_view() + Seq::<FeatureFailureView>::empty() =~= fails.deep_view());
        assert(entries.deep_view() + Seq::<FeatureRenderStatsDataView>::empty()
            =~= entries.deep_view());
    }
    let index = IndexRenderData { features: sort_entries(entries) };
    ReportModel { features: pages, failures: fails, index: index }
}

} // verus!
