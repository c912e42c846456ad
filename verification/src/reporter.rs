//! The aggregation engine: a single sequential consumer of an ordered event
//! stream. It deduplicates feature documents on first sight, asks its caller
//! to parse a template copy when a new document contains an outline, tracks
//! step outcomes by content identity, bumps its run counters, and builds the
//! report model once, at the terminal finished signal.

use vstd::prelude::*;
use std::collections::HashSet;
use crate::doc_model::{spec_doc_has_outline, FeatureDoc, FeatureDocView, StepDoc, StepDocView};
use crate::identity::{spec_step_id, step_id};
use crate::outcome::{OutcomeTracker, StepState};
use crate::render::ReportModel;
use crate::report::{build_model, spec_build_model};

verus! {

broadcast use vstd::std_specs::hash::group_hash_axioms;

/// What the runner reports of one step's execution.
#[derive(Clone, Copy, Debug, PartialEq, Eq, Structural)]
pub enum StepEvent {
    Passed,
    Failed,
    Skipped,
    Other,
}

/// One event inside a scenario: a step concluded, or anything else.
pub enum ScenarioEvent {
    Step(StepDoc, StepEvent),
    Other,
}

/// Mathematical content of a [`ScenarioEvent`].
#[verifier::ext_equal]
pub ghost enum ScenarioEventView {
    Step(StepDocView, StepEvent),
    Other,
}

impl View for ScenarioEvent {
    type V = ScenarioEventView;

    open spec fn view(&self) -> ScenarioEventView {
        match self {
            ScenarioEvent::Step(s, e) => ScenarioEventView::Step(s@, *e),
            ScenarioEvent::Other => ScenarioEventView::Other,
        }
    }
}

/// One event inside a rule: a scenario event, or anything else.
pub enum RuleEvent {
    Scenario(ScenarioEvent),
    Other,
}

/// Mathematical content of a [`RuleEvent`].
#[verifier::ext_equal]
pub ghost enum RuleEventView {
    Scenario(ScenarioEventView),
    Other,
}

impl View for RuleEvent {
    type V = RuleEventView;

    open spec fn view(&self) -> RuleEventView {
        match self {
            RuleEvent::Scenario(e) => RuleEventView::Scenario(e@),
            RuleEvent::Other => RuleEventView::Other,
        }
    }
}

/// One event inside a feature: a rule entered, a scenario event, or
/// anything else.
pub enum FeatureEvent {
    Rule(RuleEvent),
    Scenario(ScenarioEvent),
    Other,
}

/// Mathematical content of a [`FeatureEvent`].
#[verifier::ext_equal]
pub ghost enum FeatureEventView {
    Rule(RuleEventView),
    Scenario(ScenarioEventView),
    Other,
}

impl View for FeatureEvent {
    type V = FeatureEventView;

    open spec fn view(&self) -> FeatureEventView {
        match self {
            FeatureEvent::Rule(e) => FeatureEventView::Rule(e@),
            FeatureEvent::Scenario(e) => FeatureEventView::Scenario(e@),
            FeatureEvent::Other => FeatureEventView::Other,
        }
    }
}

/// One event of the stream: something happened within a feature, the stream
/// finished, or anything else.
pub enum ReporterEvent {
    Feature(FeatureDoc, FeatureEvent),
    Finished,
    Other,
}

/// Mathematical content of a [`ReporterEvent`].
#[verifier::ext_equal]
pub ghost enum ReporterEventView {
    Feature(FeatureDocView, FeatureEventView),
    Finished,
    Other,
}

impl View for ReporterEvent {
    type V = ReporterEventView;

    open spec fn view(&self) -> ReporterEventView {
        match self {
            ReporterEvent::Feature(d, e) => ReporterEventView::Feature(d@, e@),
            ReporterEvent::Finished => ReporterEventView::Finished,
            ReporterEvent::Other => ReporterEventView::Other,
        }
    }
}

/// What the engine asks its caller to do after an event: nothing, parse the
/// template copy of a newly seen document from its source path, or build the
/// report because the stream finished.
pub enum EngineAction {
    Proceed,
    ParseTemplate(String),
    BuildReport,
}

/// Mathematical content of an [`EngineAction`].
#[verifier::ext_equal]
pub ghost enum EngineActionView {
    Proceed,
    ParseTemplate(Seq<char>),
    BuildReport,
}

impl View for EngineAction {
    type V = EngineActionView;

    open spec fn view(&self) -> EngineActionView {
        match self {
            EngineAction::Proceed => EngineActionView::Proceed,
            EngineAction::ParseTemplate(p) => EngineActionView::ParseTemplate(p@),
            EngineAction::BuildReport => EngineActionView::BuildReport,
        }
    }
}

/// Mathematical content of a [`CucumberReporter`]: the document store (live
/// documents and their template copies), the outcome map, the set of
/// already-rendered outlines, and the run counters.
#[verifier::ext_equal]
pub ghost struct ReporterView {
    pub features: Seq<FeatureDocView>,
    pub templates: Seq<FeatureDocView>,
    pub outcomes: Map<u64, StepState>,
    pub outlines: Set<u64>,
    pub nr_scenarios: nat,
    pub nr_rules: nat,
    pub nr_steps: nat,
    pub nr_errors: nat,
    pub nr_skipped: nat,
}

/// The aggregation engine's state.
pub struct CucumberReporter {
    features: Vec<FeatureDoc>,
    orig_features: Vec<FeatureDoc>,
    step_states: OutcomeTracker,
    outlines: HashSet<u64>,
    nr_scenarios: u32,
    nr_rules: u32,
    nr_steps: u32,
    nr_errors: u32,
    nr_skipped: u32,
}

impl View for CucumberReporter {
    type V = ReporterView;

    closed spec fn view(&self) -> ReporterView {
        ReporterView {
            features: self.features.deep_view(),
            templates: self.orig_features.deep_view(),
            outcomes: self.step_states@,
            outlines: self.outlines@,
            nr_scenarios: self.nr_scenarios as nat,
            nr_rules: self.nr_rules as nat,
            nr_steps: self.nr_steps as nat,
            nr_errors: self.nr_errors as nat,
            nr_skipped: self.nr_skipped as nat,
        }
    }
}

/// A counter bumped by one event, stopping at the machine limit rather than
/// overflowing.
pub open spec fn spec_bump(c: nat) -> nat {
    if c < u32::MAX as nat {
        c + 1
    } else {
        c
    }
}

/// True if the store already holds a document of equal content.
pub open spec fn spec_contains_doc(s: Seq<FeatureDocView>, f: FeatureDocView) -> bool {
    exists|i: int| 0 <= i < s.len() && s[i] == f
}

/// The store after a document is offered: unchanged when an equal document
/// is already held, else the document appended.
pub open spec fn spec_add_feature(s: ReporterView, f: FeatureDocView) -> ReporterView {
    if spec_contains_doc(s.features, f) {
        s
    } else {
        ReporterView { features: s.features.push(f), ..s }
    }
}

/// The template parse a newly seen document demands: its source path, if the
/// document is new, contains an outline, and carries a path.
pub open spec fn spec_template_request(s: ReporterView, f: FeatureDocView) -> Option<Seq<char>> {
    if !spec_contains_doc(s.features, f) && spec_doc_has_outline(f) && f.path is Some {
        Option::Some(f.path->0)
    } else {
        Option::None
    }
}

/// The template store after a template copy is handed in: unchanged when an
/// equal document is already held, else the template appended.
pub open spec fn spec_add_template(s: ReporterView, t: FeatureDocView) -> ReporterView {
    if spec_contains_doc(s.templates, t) {
        s
    } else {
        ReporterView { templates: s.templates.push(t), ..s }
    }
}

/// The state after one scenario event: the scenario counter bumped; for a
/// step event also the step counter, and the step's outcome recorded —
/// `Passed` or `Failed` overwrite any earlier outcome for the same identity,
/// a skipped step only bumps the skip counter.
pub open spec fn spec_process_scenario(s: ReporterView, ev: ScenarioEventView) -> ReporterView {
    let s1 = ReporterView { nr_scenarios: spec_bump(s.nr_scenarios), ..s };
    match ev {
        ScenarioEventView::Step(step, sev) => {
            let s2 = ReporterView { nr_steps: spec_bump(s1.nr_steps), ..s1 };
            match sev {
                StepEvent::Passed => ReporterView {
                    outcomes: s2.outcomes.insert(spec_step_id(step), StepState::Passed),
                    ..s2
                },
                StepEvent::Failed => ReporterView {
                    nr_errors: spec_bump(s2.nr_errors),
                    outcomes: s2.outcomes.insert(spec_step_id(step), StepState::Failed),
                    ..s2
                },
                StepEvent::Skipped => ReporterView { nr_skipped: spec_bump(s2.nr_skipped), ..s2 },
                StepEvent::Other => s2,
            }
        },
        ScenarioEventView::Other => s1,
    }
}

/// The state and action after one stream event. A feature event stores the
/// document (and may demand its template parse), then processes what
/// happened inside; the finished signal demands the report build.
pub open spec fn spec_handle_event(s: ReporterView, ev: ReporterEventView) -> (
    ReporterView,
    EngineActionView,
) {
    match ev {
        ReporterEventView::Feature(doc, fev) => {
            let act = match spec_template_request(s, doc) {
                Option::Some(p) => EngineActionView::ParseTemplate(p),
                Option::None => EngineActionView::Proceed,
            };
            let s1 = spec_add_feature(s, doc);
            let s2 = match fev {
                FeatureEventView::Rule(rev) => {
                    let sr = ReporterView { nr_rules: spec_bump(s1.nr_rules), ..s1 };
                    match rev {
                        RuleEventView::Scenario(sev) => spec_process_scenario(sr, sev),
                        RuleEventView::Other => sr,
                    }
                },
                FeatureEventView::Scenario(sev) => spec_process_scenario(s1, sev),
                FeatureEventView::Other => s1,
            };
            (s2, act)
        },
        ReporterEventView::Finished => (s, EngineActionView::BuildReport),
        ReporterEventView::Other => (s, EngineActionView::Proceed),
    }
}

/// Deduplication: offering a document the store already holds changes
/// nothing, so two equal events add one entry, and everything built from the
/// state is the same.
pub proof fn lemma_add_feature_dedup(s: ReporterView, f: FeatureDocView)
    ensures
        spec_add_feature(spec_add_feature(s, f), f) == spec_add_feature(s, f),
{
    if !spec_contains_doc(s.features, f) {
        let s1 = spec_add_feature(s, f);
        assert(s1.features[s.features.len() as int] == f);
        assert(spec_contains_doc(s1.features, f));
    }
}

impl CucumberReporter {
    /// A fresh engine: empty stores, no outcomes, no rendered outlines, all
    /// counters zero.
    pub fn new() -> (r: Self)
        ensures
            r@ == (ReporterView {
                features: Seq::empty(),
                templates: Seq::empty(),
                outcomes: Map::empty(),
                outlines: Set::empty(),
                nr_scenarios: 0,
                nr_rules: 0,
                nr_steps: 0,
                nr_errors: 0,
                nr_skipped: 0,
            }),
    {
        let r = CucumberReporter {
            features: Vec::new(),
            orig_features: Vec::new(),
            step_states: OutcomeTracker::new(),
            outlines: HashSet::new(),
            nr_scenarios: 0,
            nr_rules: 0,
            nr_steps: 0,
            nr_errors: 0,
            nr_skipped: 0,
        };
        proof {
            assert(r.features.deep_view() =~= Seq::<FeatureDocView>::empty());
            assert(r.orig_features.deep_view() =~= Seq::<FeatureDocView>::empty());
        }
        r
    }

    /// Offers a feature document to the store: deduplicated by deep content
    /// equality. Returns the source path whose template copy the caller must
    /// parse and hand back through [`CucumberReporter::add_template`] — only
    /// for a new document that contains an outline and knows its path.
    pub fn add_feature(&mut self, doc: FeatureDoc) -> (r: Option<String>)
        ensures
            final(self)@ == spec_add_feature(old(self)@, doc@),
            r.deep_view() == spec_template_request(old(self)@, doc@),
    {
        let n = self.features.len();
        for i in 0..n
            invariant
                n == self.features.len(),
                forall|j: int| 0 <= j < i ==> self.features.deep_view()[j] != doc@,
        {
            proof {
                assert(self.features.deep_view()[i as int] == self.features@[i as int]@);
            }
            if self.features[i].content_eq(&doc) {
                proof {
                    assert(spec_contains_doc(self@.features, doc@));
                }
                return Option::None;
            }
        }
        proof {
            assert(!spec_contains_doc(self@.features, doc@));
        }
        let ghost prev = self@;
        let needs_template = doc.has_outline();
        let path = if needs_template {
            match &doc.path {
                Option::Some(p) => Option::Some(p.clone()),
                Option::None => Option::None,
            }
        } else {
            Option::None
        };
        let ghost prev_features = self.features@;
        let ghost docv = doc@;
        self.features.push(doc);
        proof {
            assert forall|j: int|
                0 <= j < prev_features.len() + 1 implies self.features.deep_view()[j]
                == prev.features.push(docv)[j] by {
                assert(self.features.deep_view()[j] == self.features@[j]@);
                if j < prev_features.len() {
                    assert(self.features@[j] == prev_features[j]);
                    assert(prev.features[j] == prev_features[j]@);
                }
            }
            assert(self.features.deep_view() =~= prev.features.push(docv));
            assert(self@ =~= spec_add_feature(prev, docv));
        }
        path
    }

    /// Hands in the independently parsed template copy of a document,
    /// deduplicated by deep content equality.
    pub fn add_template(&mut self, doc: FeatureDoc)
        ensures
            final(self)@ == spec_add_template(old(self)@, doc@),
    {
        let n = self.orig_features.len();
        for i in 0..n
            invariant
                n == self.orig_features.len(),
                forall|j: int| 0 <= j < i ==> self.orig_features.deep_view()[j] != doc@,
        {
            proof {
                assert(self.orig_features.deep_view()[i as int] == self.orig_features@[i as int]@);
            }
            if self.orig_features[i].content_eq(&doc) {
                proof {
                    assert(spec_contains_doc(self@.templates, doc@));
                }
                return ;
            }
        }
        proof {
            assert(!spec_contains_doc(self@.templates, doc@));
        }
        let ghost prev = self@;
        let ghost prev_templates = self.orig_features@;
        let ghost docv = doc@;
        self.orig_features.push(doc);
        proof {
            assert forall|j: int|
                0 <= j < prev_templates.len() + 1 implies self.orig_features.deep_view()[j]
                == prev.templates.push(docv)[j] by {
                assert(self.orig_features.deep_view()[j] == self.orig_features@[j]@);
                if j < prev_templates.len() {
                    assert(self.orig_features@[j] == prev_templates[j]);
                    assert(prev.templates[j] == prev_templates[j]@);
                }
            }
            assert(self.orig_features.deep_view() =~= prev.templates.push(docv));
            assert(self@ =~= spec_add_template(prev, docv));
        }
    }

    /// Records one step's concluded outcome under its content identity.
    pub fn add_step(&mut self, step: &StepDoc, state: StepState)
        ensures
            final(self)@ == (ReporterView {
                outcomes: old(self)@.outcomes.insert(spec_step_id(step@), state),
                ..old(self)@
            }),
    {
        let id = step_id(step);
        self.step_states.record(id, state);
        proof {
            assert(self@ =~= ReporterView {
                outcomes: old(self)@.outcomes.insert(spec_step_id(step@), state),
                ..old(self)@
            });
        }
    }

    /// Consumes one scenario event: counters, and the step outcome if one
    /// concluded.
    pub fn process_scenario(&mut self, ev: ScenarioEvent)
        ensures
            final(self)@ == spec_process_scenario(old(self)@, ev@),
    {
        if self.nr_scenarios < u32::MAX {
            self.nr_scenarios = self.nr_scenarios + 1;
        }
        let ghost s1 = ReporterView { nr_scenarios: spec_bump(old(self)@.nr_scenarios), ..old(self)@ };
        proof {
            assert(self@ =~= s1);
        }
        match ev {
            ScenarioEvent::Step(step, sev) => {
                if self.nr_steps < u32::MAX {
                    self.nr_steps = self.nr_steps + 1;
                }
                let ghost s2 = ReporterView { nr_steps: spec_bump(s1.nr_steps), ..s1 };
                proof {
                    assert(self@ =~= s2);
                }
                match sev {
                    StepEvent::Passed => {
                        self.add_step(&step, StepState::Passed);
                        proof {
                            assert(self@ =~= spec_process_scenario(old(self)@, ev@));
                        }
                    },
                    StepEvent::Failed => {
                        if self.nr_errors < u32::MAX {
                            self.nr_errors = self.nr_errors + 1;
                        }
                        self.add_step(&step, StepState::Failed);
                        proof {
                            assert(self@ =~= spec_process_scenario(old(self)@, ev@));
                        }
                    },
                    StepEvent::Skipped => {
                        if self.nr_skipped < u32::MAX {
                            self.nr_skipped = self.nr_skipped + 1;
                        }
                        proof {
                            assert(self@ =~= spec_process_scenario(old(self)@, ev@));
                        }
                    },
                    StepEvent::Other => {
                        proof {
                            assert(self@ =~= spec_process_scenario(old(self)@, ev@));
                        }
                    },
                }
            },
            ScenarioEvent::Other => {
                proof {
                    assert(self@ =~= spec_process_scenario(old(self)@, ev@));
                }
            },
        }
    }

    /// Consumes one stream event and says what the caller must do next.
    pub fn handle_event(&mut self, ev: ReporterEvent) -> (act: EngineAction)
        ensures
            final(self)@ == spec_handle_event(old(self)@, ev@).0,
            act@ == spec_handle_event(old(self)@, ev@).1,
    {
        match ev {
            ReporterEvent::Feature(doc, fev) => {
                let ghost docv = doc@;
                let path = self.add_feature(doc);
                let act = match path {
                    Option::Some(p) => EngineAction::ParseTemplate(p),
                    Option::None => EngineAction::Proceed,
                };
                let ghost s1 = spec_add_feature(old(self)@, docv);
                match fev {
                    FeatureEvent::Rule(rev) => {
                        if self.nr_rules < u32::MAX {
                            self.nr_rules = self.nr_rules + 1;
                        }
                        let ghost sr = ReporterView { nr_rules: spec_bump(s1.nr_rules), ..s1 };
                        proof {
                            assert(self@ =~= sr);
                        }
                        match rev {
                            RuleEvent::Scenario(sev) => {
                                self.process_scenario(sev);
                            },
                            RuleEvent::Other => {},
                        }
                    },
                    FeatureEvent::Scenario(sev) => {
                        self.process_scenario(sev);
                    },
                    FeatureEvent::Other => {},
                }
                act
            },
            ReporterEvent::Finished => EngineAction::BuildReport,
            ReporterEvent::Other => EngineAction::Proceed,
        }
    }

    /// Builds the report model over everything aggregated so far: one page
    /// and one index entry per stored feature that builds, a failure record
    /// per feature that does not, the index sorted by name. Only the set of
    /// rendered outlines changes in the engine's state.
    pub fn finish(&mut self) -> (r: ReportModel)
        ensures
            ({
                let (mv, so) = spec_build_model(
                    old(self)@.features,
                    old(self)@.templates,
                    old(self)@.outcomes,
                    old(self)@.outlines,
                );
                r@ == mv && final(self)@ == (ReporterView { outlines: so, ..old(self)@ })
            }),
    {
        let r = build_model(
            &self.features,
            &self.orig_features,
            &self.step_states,
            &mut self.outlines,
        );
        proof {
            let (mv, so) = spec_build_model(
                old(self)@.features,
                old(self)@.templates,
                old(self)@.outcomes,
                old(self)@.outlines,
            );
            assert(self@ =~= ReporterView { outlines: so, ..old(self)@ });
        }
        r
    }

    /// How many scenario events were consumed (saturating).
    pub fn nr_scenarios(&self) -> (r: u32)
        ensures
            r as nat == self@.nr_scenarios,
    {
        self.nr_scenarios
    }

    /// How many rule events were consumed (saturating).
    pub fn nr_rules(&self) -> (r: u32)
        ensures
            r as nat == self@.nr_rules,
    {
        self.nr_rules
    }

    /// How many step events were consumed (saturating).
    pub fn nr_steps(&self) -> (r: u32)
        ensures
            r as nat == self@.nr_steps,
    {
        self.nr_steps
    }

    /// How many steps failed (saturating).
    pub fn nr_errors(&self) -> (r: u32)
        ensures
            r as nat == self@.nr_errors,
    {
        self.nr_errors
    }

    /// How many steps were skipped (saturating).
    pub fn nr_skipped(&self) -> (r: u32)
        ensures
            r as nat == self@.nr_skipped,
    {
        self.nr_skipped
    }
}

impl Default for CucumberReporter {
    /// The same fresh engine [`CucumberReporter::new`] builds.
    fn default() -> (r: Self)
        ensures
            r@ == (ReporterView {
                features: Seq::empty(),
                templates: Seq::empty(),
                outcomes: Map::empty(),
                outlines: Set::empty(),
                nr_scenarios: 0,
                nr_rules: 0,
                nr_steps: 0,
                nr_errors: 0,
                nr_skipped: 0,
            }),
    {
        Self::new()
    }
}

} // verus!
