//! Per-feature summary statistics, recomputed by walking the feature's own
//! tree — the union of its top-level scenarios and its rules' scenarios —
//! against the outcome tracker. Counts saturate at the machine limit instead
//! of overflowing.

use vstd::prelude::*;
use crate::doc_model::{FeatureDoc, FeatureDocView, RuleDoc, RuleDocView, ScenarioDoc, ScenarioDocView, StepDoc, StepDocView};
use crate::identity::{spec_step_id, step_id};
use crate::links::{link_of, spec_link_of};
use crate::outcome::{spec_lookup, OutcomeTracker, StepState};
use crate::render::{opt_string_or_empty, spec_or_empty, FeatureRenderStatsData, FeatureRenderStatsDataView};

verus! {

/// A count clamped to the machine's range.
pub open spec fn sat_usize(x: int) -> nat {
    if x > usize::MAX as int {
        usize::MAX as nat
    } else if x < 0 {
        0
    } else {
        x as nat
    }
}

/// Adds two counts, saturating at the machine limit.
pub fn sat_add(a: usize, b: usize) -> (r: usize)
    ensures
        r as nat == sat_usize(a as int + b as int),
{
    if a <= usize::MAX - b {
        a + b
    } else {
        usize::MAX
    }
}

/// The scenarios nested under a sequence of rules, in order.
pub open spec fn spec_rule_scenarios(rules: Seq<RuleDocView>) -> Seq<ScenarioDocView>
    decreases rules.len(),
{
    if rules.len() == 0 {
        Seq::empty()
    } else {
        rules[0].scenarios + spec_rule_scenarios(rules.drop_first())
    }
}

/// The union a feature's statistics are computed over: its top-level
/// scenarios followed by every rule's scenarios.
pub open spec fn spec_all_scenarios(f: FeatureDocView) -> Seq<ScenarioDocView> {
    f.scenarios + spec_rule_scenarios(f.rules)
}

/// The total number of steps of a sequence of scenarios.
pub open spec fn spec_count_steps(ss: Seq<ScenarioDocView>) -> nat
    decreases ss.len(),
{
    if ss.len() == 0 {
        0
    } else {
        ss[0].steps.len() + spec_count_steps(ss.drop_first())
    }
}

/// How many steps of one scenario's step list track outcome `st`.
pub open spec fn spec_count_steps_in(steps: Seq<StepDocView>, m: Map<u64, StepState>, st: StepState) -> nat
    decreases steps.len(),
{
    if steps.len() == 0 {
        0
    } else {
        (if spec_lookup(m, spec_step_id(steps[0])) == st {
            1nat
        } else {
            0nat
        }) + spec_count_steps_in(steps.drop_first(), m, st)
    }
}

/// How many steps across a sequence of scenarios track outcome `st`.
pub open spec fn spec_count_state(ss: Seq<ScenarioDocView>, m: Map<u64, StepState>, st: StepState) -> nat
    decreases ss.len(),
{
    if ss.len() == 0 {
        0
    } else {
        spec_count_steps_in(ss[0].steps, m, st) + spec_count_state(ss.drop_first(), m, st)
    }
}

/// Step counts add up over concatenation.
proof fn lemma_count_steps_concat(a: Seq<ScenarioDocView>, b: Seq<ScenarioDocView>)
    ensures
        spec_count_steps(a + b) == spec_count_steps(a) + spec_count_steps(b),
    decreases a.len(),
{
    if a.len() == 0 {
        assert(a + b =~= b);
    } else {
        assert((a + b).drop_first() =~= a.drop_first() + b);
        assert((a + b)[0] == a[0]);
        lemma_count_steps_concat(a.drop_first(), b);
    }
}

/// Outcome counts add up over concatenation.
proof fn lemma_count_state_concat(
    a: Seq<ScenarioDocView>,
    b: Seq<ScenarioDocView>,
    m: Map<u64, StepState>,
    st: StepState,
)
    ensures
        spec_count_state(a + b, m, st) == spec_count_state(a, m, st) + spec_count_state(b, m, st),
    decreases a.len(),
{
    if a.len() == 0 {
        assert(a + b =~= b);
    } else {
        assert((a + b).drop_first() =~= a.drop_first() + b);
        assert((a + b)[0] == a[0]);
        lemma_count_state_concat(a.drop_first(), b, m, st);
    }
}

/// Counts the steps of every scenario in the list, saturating.
fn count_steps_vec(ss: &Vec<ScenarioDoc>) -> (r: usize)
    ensures
        r as nat == sat_usize(spec_count_steps(ss.deep_view()) as int),
{
    let ghost all = ss.deep_view();
    let mut acc: usize = 0;
    let n = ss.len();
    proof {
        assert(all.skip(0) =~= all);
    }
    for i in 0..n
        invariant
            n == ss.len(),
            all == ss.deep_view(),
            sat_usize(spec_count_steps(all) as int) == sat_usize(
                acc + spec_count_steps(all.skip(i as int)),
            ),
    {
        proof {
            assert(all.skip(i as int)[0] == all[i as int]);
            assert(all[i as int] == ss@[i as int]@);
            assert(all.skip(i as int).drop_first() =~= all.skip(i as int + 1));
        }
        acc = sat_add(acc, ss[i].steps.len());
    }
    proof {
        assert(all.skip(n as int) =~= Seq::<ScenarioDocView>::empty());
    }
    acc
}

/// Counts the steps of one scenario's list that track outcome `st`.
fn count_state_steps(steps: &Vec<StepDoc>, outcomes: &OutcomeTracker, st: StepState) -> (r: usize)
    ensures
        r as nat == sat_usize(spec_count_steps_in(steps.deep_view(), outcomes@, st) as int),
{
    let ghost all = steps.deep_view();
    let mut acc: usize = 0;
    let n = steps.len();
    proof {
        assert(all.skip(0) =~= all);
    }
    for i in 0..n
        invariant
            n == steps.len(),
            all == steps.deep_view(),
            sat_usize(spec_count_steps_in(all, outcomes@, st) as int) == sat_usize(
                acc + spec_count_steps_in(all.skip(i as int), outcomes@, st),
            ),
    {
        proof {
            assert(all.skip(i as int)[0] == all[i as int]);
            assert(all[i as int] == steps@[i as int]@);
            assert(all.skip(i as int).drop_first() =~= all.skip(i as int + 1));
        }
        let id = step_id(&steps[i]);
        if outcomes.lookup(id) == st {
            acc = sat_add(acc, 1);
        }
    }
    proof {
        assert(all.skip(n as int) =~= Seq::<StepDocView>::empty());
    }
    acc
}

/// Counts the steps across the scenario list that track outcome `st`.
fn count_state_vec(ss: &Vec<ScenarioDoc>, outcomes: &OutcomeTracker, st: StepState) -> (r: usize)
    ensures
        r as nat == sat_usize(spec_count_state(ss.deep_view(), outcomes@, st) as int),
{
    let ghost all = ss.deep_view();
    let mut acc: usize = 0;
    let n = ss.len();
    proof {
        assert(all.skip(0) =~= all);
    }
    for i in 0..n
        invariant
            n == ss.len(),
            all == ss.deep_view(),
            sat_usize(spec_count_state(all, outcomes@, st) as int) == sat_usize(
                acc + spec_count_state(all.skip(i as int), outcomes@, st),
            ),
    {
        proof {
            assert(all.skip(i as int)[0] == all[i as int]);
            assert(all[i as int] == ss@[i as int]@);
            assert(all.skip(i as int).drop_first() =~= all.skip(i as int + 1));
        }
        let c = count_state_steps(&ss[i].steps, outcomes, st);
        acc = sat_add(acc, c);
    }
    proof {
        assert(all.skip(n as int) =~= Seq::<ScenarioDocView>::empty());
    }
    acc
}

/// The statistics of one feature: scenario, rule, step, error and skipped
/// counts over the union of top-level and rule-nested scenarios, with the
/// feature's name, description, and stable page link. An error is a step
/// tracked `Failed`; a skipped step is one tracked neither passed nor failed.
#[verifier::opaque]
pub open spec fn spec_feature_stats(f: FeatureDocView, m: Map<u64, StepState>) -> FeatureRenderStatsDataView {
    let all = spec_all_scenarios(f);
    FeatureRenderStatsDataView {
        name: f.name,
        link: spec_link_of(f.name),
        description: spec_or_empty(f.description),
        nr_scenarios: sat_usize(all.len() as int),
        nr_rules: f.rules.len(),
        nr_steps: sat_usize(spec_count_steps(all) as int),
        nr_errors: sat_usize(spec_count_state(all, m, StepState::Failed) as int),
        nr_skipped: sat_usize(spec_count_state(all, m, StepState::NotRun) as int),
    }
}

/// Counts the scenarios nested under the rules, saturating.
fn count_rule_scenarios(rules: &Vec<RuleDoc>) -> (r: usize)
    ensures
        r as nat == sat_usize(spec_rule_scenarios(rules.deep_view()).len() as int),
{
    let ghost all = rules.deep_view();
    let mut acc: usize = 0;
    let n = rules.len();
    proof {
        assert(all.skip(0) =~= all);
    }
    for i in 0..n
        invariant
            n == rules.len(),
            all == rules.deep_view(),
            sat_usize(spec_rule_scenarios(all).len() as int) == sat_usize(
                acc + spec_rule_scenarios(all.skip(i as int)).len(),
            ),
    {
        proof {
            assert(all.skip(i as int)[0] == all[i as int]);
            assert(all[i as int] == rules@[i as int]@);
            assert(all.skip(i as int).drop_first() =~= all.skip(i as int + 1));
        }
        acc = sat_add(acc, rules[i].scenarios.len());
    }
    proof {
        assert(all.skip(n as int) =~= Seq::<RuleDocView>::empty());
    }
    acc
}

/// Counts the steps of the scenarios nested under the rules, saturating.
fn count_rule_steps(rules: &Vec<RuleDoc>) -> (r: usize)
    ensures
        r as nat == sat_usize(spec_count_steps(spec_rule_scenarios(rules.deep_view())) as int),
{
    let ghost all = rules.deep_view();
    let mut acc: usize = 0;
    let n = rules.len();
    proof {
        assert(all.skip(0) =~= all);
    }
    for i in 0..n
        invariant
            n == rules.len(),
            all == rules.deep_view(),
            sat_usize(spec_count_steps(spec_rule_scenarios(all)) as int) == sat_usize(
                acc + spec_count_steps(spec_rule_scenarios(all.skip(i as int))),
            ),
    {
        proof {
            assert(all.skip(i as int)[0] == all[i as int]);
            assert(all[i as int] == rules@[i as int]@);
            assert(all.skip(i as int).drop_first() =~= all.skip(i as int + 1));
            lemma_count_steps_concat(
                all[i as int].scenarios,
                spec_rule_scenarios(all.skip(i as int + 1)),
            );
        }
        let c = count_steps_vec(&rules[i].scenarios);
        acc = sat_add(acc, c);
    }
    proof {
        assert(all.skip(n as int) =~= Seq::<RuleDocView>::empty());
    }
    acc
}

/// Counts the rule-nested steps that track outcome `st`, saturating.
fn count_rule_state(rules: &Vec<RuleDoc>, outcomes: &OutcomeTracker, st: StepState) -> (r: usize)
    ensures
        r as nat == sat_usize(
            spec_count_state(spec_rule_scenarios(rules.deep_view()), outcomes@, st) as int,
        ),
{
    let ghost all = rules.deep_view();
    let mut acc: usize = 0;
    let n = rules.len();
    proof {
        assert(all.skip(0) =~= all);
    }
    for i in 0..n
        invariant
            n == rules.len(),
            all == rules.deep_view(),
            sat_usize(spec_count_state(spec_rule_scenarios(all), outcomes@, st) as int)
                == sat_usize(
                acc + spec_count_state(spec_rule_scenarios(all.skip(i as int)), outcomes@, st),
            ),
    {
        proof {
            assert(all.skip(i as int)[0] == all[i as int]);
            assert(all[i as int] == rules@[i as int]@);
            assert(all.skip(i as int).drop_first() =~= all.skip(i as int + 1));
            lemma_count_state_concat(
                all[i as int].scenarios,
                spec_rule_scenarios(all.skip(i as int + 1)),
                outcomes@,
                st,
            );
        }
        let c = count_state_vec(&rules[i].scenarios, outcomes, st);
        acc = sat_add(acc, c);
    }
    proof {
        assert(all.skip(n as int) =~= Seq::<RuleDocView>::empty());
    }
    acc
}

/// Computes one feature's index entry: counts over the union of top-level
/// and rule-nested scenarios, with the stable page link.
pub fn feature_stats(f: &FeatureDoc, outcomes: &OutcomeTracker) -> (r: FeatureRenderStatsData)
    ensures
        r@ == spec_feature_stats(f@, outcomes@),
{
    let ghost all = spec_all_scenarios(f@);
    proof {
        reveal(spec_feature_stats);
        lemma_count_steps_concat(f@.scenarios, spec_rule_scenarios(f@.rules));
        lemma_count_state_concat(
            f@.scenarios,
            spec_rule_scenarios(f@.rules),
            outcomes@,
            StepState::Failed,
        );
        lemma_count_state_concat(
            f@.scenarios,
            spec_rule_scenarios(f@.rules),
            outcomes@,
            StepState::NotRun,
        );
    }
    let nr_scenarios = sat_add(f.scenarios.len(), count_rule_scenarios(&f.rules));
    let nr_steps = sat_add(count_steps_vec(&f.scenarios), count_rule_steps(&f.rules));
    let nr_errors = sat_add(
        count_state_vec(&f.scenarios, outcomes, StepState::Failed),
        count_rule_state(&f.rules, outcomes, StepState::Failed),
    );
    let nr_skipped = sat_add(
        count_state_vec(&f.scenarios, outcomes, StepState::NotRun),
        count_rule_state(&f.rules, outcomes, StepState::NotRun),
    );
    FeatureRenderStatsData {
        name: f.name.clone(),
        link: link_of(f.name.as_str()),
        description: opt_string_or_empty(&f.description),
        nr_scenarios: nr_scenarios,
        nr_rules: f.rules.len(),
        nr_steps: nr_steps,
        nr_errors: nr_errors,
        nr_skipped: nr_skipped,
    }
}

} // verus!
