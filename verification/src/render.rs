//! The render model: the fully populated, render-ready values the report
//! builder hands to a rendering collaborator, together with the small pure
//! functions that fill them — keyword trimming, defaulting of optional
//! descriptions, and the derivation of an example row's aggregate state.

use vstd::prelude::*;
use crate::doc_model::StepDocView;
use crate::doc_model::StepDoc;
use crate::outcome::StepState;

verus! {

/// True of the ASCII whitespace characters a step keyword may carry around
/// itself in source text.
pub open spec fn is_space(c: char) -> bool {
    c == ' ' || c == '\t' || c == '\r' || c == '\n'
}

/// Executable whitespace test.
pub fn is_space_char(c: char) -> (r: bool)
    ensures
        r == is_space(c),
{
    c == ' ' || c == '\t' || c == '\r' || c == '\n'
}

/// The number of leading whitespace characters of `s`.
pub open spec fn leading_spaces(s: Seq<char>) -> int
    decreases s.len(),
{
    if s.len() == 0 || !is_space(s[0]) {
        0
    } else {
        1 + leading_spaces(s.drop_first())
    }
}

/// The length of `s` with its trailing whitespace removed.
pub open spec fn trimmed_end(s: Seq<char>) -> int
    decreases s.len(),
{
    if s.len() == 0 || !is_space(s[s.len() - 1]) {
        s.len() as int
    } else {
        trimmed_end(s.drop_last())
    }
}

/// `s` without leading and trailing whitespace.
pub open spec fn spec_trim(s: Seq<char>) -> Seq<char> {
    let a = leading_spaces(s);
    let b = trimmed_end(s);
    if a <= b {
        s.subrange(a, b)
    } else {
        Seq::empty()
    }
}

/// A scan that stopped at the first non-space character found exactly the
/// leading whitespace count.
proof fn lemma_leading_spaces(s: Seq<char>, i: int)
    requires
        0 <= i <= s.len(),
        forall|j: int| 0 <= j < i ==> is_space(s[j]),
        i < s.len() ==> !is_space(s[i]),
    ensures
        leading_spaces(s) == i,
    decreases i,
{
    if i == 0 {
    } else {
        assert(is_space(s[0]));
        let t = s.drop_first();
        assert forall|j: int| 0 <= j < i - 1 implies is_space(t[j]) by {
            assert(t[j] == s[j + 1]);
        }
        if i - 1 < t.len() {
            assert(t[i - 1] == s[i]);
        }
        lemma_leading_spaces(t, i - 1);
    }
}

/// A scan that stopped at the last non-space character found exactly the
/// trimmed length.
proof fn lemma_trimmed_end(s: Seq<char>, b: int)
    requires
        0 <= b <= s.len(),
        forall|j: int| b <= j < s.len() ==> is_space(s[j]),
        b > 0 ==> !is_space(s[b - 1]),
    ensures
        trimmed_end(s) == b,
    decreases s.len() - b,
{
    if b == s.len() {
        if s.len() > 0 && is_space(s[s.len() - 1]) {
            assert(!is_space(s[b - 1]));
        }
    } else {
        assert(is_space(s[s.len() - 1]));
        let t = s.drop_last();
        assert forall|j: int| b <= j < t.len() implies is_space(t[j]) by {
            assert(t[j] == s[j]);
        }
        if b > 0 {
            assert(t[b - 1] == s[b - 1]);
        }
        lemma_trimmed_end(t, b);
    }
}

/// The trimmed length never exceeds the string's length.
proof fn lemma_trimmed_end_bounds(s: Seq<char>)
    ensures
        0 <= trimmed_end(s) <= s.len(),
    decreases s.len(),
{
    if s.len() == 0 || !is_space(s[s.len() - 1]) {
    } else {
        lemma_trimmed_end_bounds(s.drop_last());
    }
}

/// Removes leading and trailing ASCII whitespace from `s`.
pub fn trim_spaces(s: &str) -> (r: String)
    ensures
        r@ == spec_trim(s@),
{
    let n = s.unicode_len();
    let mut start: usize = 0;
    while start < n && is_space_char(s.get_char(start))
        invariant
            n == s@.len(),
            0 <= start <= n,
            forall|j: int| 0 <= j < start ==> is_space(s@[j]),
        decreases n - start,
    {
        start = start + 1;
    }
    proof {
        lemma_leading_spaces(s@, start as int);
    }
    let mut end: usize = n;
    while end > start && is_space_char(s.get_char(end - 1))
        invariant
            n == s@.len(),
            start <= end <= n,
            forall|j: int| end <= j < n ==> is_space(s@[j]),
        decreases end,
    {
        end = end - 1;
    }
    if start == end {
        proof {
            if !(end == n || (end > 0 && !is_space(s@[end as int - 1]))) {
                assert(is_space(s@[end as int - 1]));
            }
            if end < n {
                lemma_trimmed_end(s@, end as int);
                assert(spec_trim(s@) =~= Seq::<char>::empty());
            } else {
                assert(forall|j: int| 0 <= j < n ==> is_space(s@[j]));
                assert(leading_spaces(s@) == n);
                lemma_trimmed_end_bounds(s@);
                if trimmed_end(s@) < n {
                    assert(spec_trim(s@) =~= Seq::<char>::empty());
                } else {
                    assert(spec_trim(s@) =~= s@.subrange(n as int, n as int));
                    assert(spec_trim(s@) =~= Seq::<char>::empty());
                }
            }
        }
        String::new()
    } else {
        proof {
            lemma_trimmed_end(s@, end as int);
        }
        let out = s.substring_char(start, end);
        out.to_owned()
    }
}

/// The empty sequence where no description was given, else the description.
pub open spec fn spec_or_empty(o: Option<Seq<char>>) -> Seq<char> {
    match o {
        Option::None => Seq::empty(),
        Option::Some(s) => s,
    }
}

/// Clones an optional string, defaulting to the empty string.
pub fn opt_string_or_empty(o: &Option<String>) -> (r: String)
    ensures
        r@ == spec_or_empty(o.deep_view()),
{
    match o {
        Option::None => String::new(),
        Option::Some(s) => s.clone(),
    }
}

/// A step as rendered: trimmed keyword, tracked state, step text, and the
/// data table if present.
pub struct StepRenderData {
    pub step_type: String,
    pub step_state: StepState,
    pub step_template: String,
    pub step_table: Option<Vec<Vec<String>>>,
}

/// Mathematical content of a [`StepRenderData`].
#[verifier::ext_equal]
pub ghost struct StepRenderDataView {
    pub step_type: Seq<char>,
    pub step_state: StepState,
    pub step_template: Seq<char>,
    pub step_table: Option<Seq<Seq<Seq<char>>>>,
}

impl View for StepRenderData {
    type V = StepRenderDataView;

    open spec fn view(&self) -> StepRenderDataView {
        StepRenderDataView {
            step_type: self.step_type@,
            step_state: self.step_state,
            step_template: self.step_template@,
            step_table: self.step_table.deep_view(),
        }
    }
}

impl DeepView for StepRenderData {
    type V = StepRenderDataView;

    open spec fn deep_view(&self) -> StepRenderDataView {
        self.view()
    }
}

/// What rendering a step from its document form and a tracked state yields.
pub open spec fn spec_step_render(s: StepDocView, st: StepState) -> StepRenderDataView {
    StepRenderDataView {
        step_type: spec_trim(s.keyword),
        step_state: st,
        step_template: s.text,
        step_table: s.table,
    }
}

/// Clones one table row.
pub fn clone_row(v: &Vec<String>) -> (r: Vec<String>)
    ensures
        r.deep_view() == v.deep_view(),
{
    let mut out: Vec<String> = Vec::new();
    let n = v.len();
    for k in 0..n
        invariant
            n == v.len(),
            out.len() == k,
            forall|j: int| 0 <= j < k ==> out@[j]@ == v@[j]@,
    {
        out.push(v[k].clone());
    }
    proof {
        assert forall|j: int| 0 <= j < n implies out.deep_view()[j] == v.deep_view()[j] by {
            assert(out.deep_view()[j] == out@[j]@);
            assert(v.deep_view()[j] == v@[j]@);
        }
        assert(out.deep_view() =~= v.deep_view());
    }
    out
}

/// Clones an optional table.
fn clone_opt_table(t: &Option<Vec<Vec<String>>>) -> (r: Option<Vec<Vec<String>>>)
    ensures
        r.deep_view() == t.deep_view(),
{
    match t {
        Option::None => Option::None,
        Option::Some(rows) => {
            let mut out: Vec<Vec<String>> = Vec::new();
            let n = rows.len();
            for i in 0..n
                invariant
                    n == rows.len(),
                    out.len() == i,
                    forall|j: int| 0 <= j < i ==> out.deep_view()[j] == rows.deep_view()[j],
            {
                let mut row: Vec<String> = Vec::new();
                let m = rows[i].len();
                for k in 0..m
                    invariant
                        n == rows.len(),
                        i < n,
                        m == rows@[i as int].len(),
                        row.len() == k,
                        forall|j: int|
                            0 <= j < k ==> row.deep_view()[j] == rows@[i as int].deep_view()[j],
                {
                    let cell = rows[i][k].clone();
                    let ghost prev = row@;
                    let ghost prev_dv = row.deep_view();
                    row.push(cell);
                    proof {
                        assert forall|j: int|
                            0 <= j < k + 1 implies row.deep_view()[j] == rows@[
                            i as int
                        ].deep_view()[j] by {
                            assert(row.deep_view()[j] == row@[j]@);
                            assert(rows@[i as int].deep_view()[j] == rows@[i as int]@[j]@);
                            if j < k {
                                assert(prev_dv[j] == rows@[i as int].deep_view()[j]);
                                assert(prev_dv[j] == prev[j]@);
                                assert(row@[j] == prev[j]);
                            } else {
                                assert(row@[j] == cell);
                                assert(cell@ == rows@[i as int]@[k as int]@);
                            }
                        }
                    }
                }
                proof {
                    assert(row.deep_view() =~= rows@[i as int].deep_view());
                }
                let ghost prev_out = out@;
                let ghost row_view = row.deep_view();
                out.push(row);
                proof {
                    assert forall|j: int|
                        0 <= j < i + 1 implies out.deep_view()[j] == rows.deep_view()[j] by {
                        assert(out.deep_view()[j] == out@[j].deep_view());
                        assert(rows.deep_view()[j] == rows@[j].deep_view());
                        if j < i {
                            assert(out@[j] == prev_out[j]);
                        } else {
                            assert(out@[j].deep_view() == row_view);
                        }
                    }
                }
            }
            proof {
                assert(out.deep_view() =~= rows.deep_view());
            }
            Option::Some(out)
        },
    }
}

impl StepRenderData {
    /// Renders a step: the keyword is trimmed, text and table carried over,
    /// and the given tracked state attached.
    pub fn new(step: &StepDoc, state: StepState) -> (r: Self)
        ensures
            r@ == spec_step_render(step@, state),
    {
        StepRenderData {
            step_type: trim_spaces(step.keyword.as_str()),
            step_state: state,
            step_template: step.text.clone(),
            step_table: clone_opt_table(&step.table),
        }
    }
}

/// The sequence of states of a sequence of rendered steps.
pub open spec fn states_of(steps: Seq<StepRenderDataView>) -> Seq<StepState> {
    steps.map_values(|s: StepRenderDataView| s.step_state)
}

/// The aggregate state of an example row: `Failed` if any step failed, else
/// `Passed` if every step passed, else `NotRun`. A mixed Passed/NotRun row
/// without a failure yields `NotRun` by policy.
pub open spec fn spec_row_state(states: Seq<StepState>) -> StepState {
    if exists|i: int| 0 <= i < states.len() && states[i] == StepState::Failed {
        StepState::Failed
    } else if forall|i: int| 0 <= i < states.len() ==> states[i] == StepState::Passed {
        StepState::Passed
    } else {
        StepState::NotRun
    }
}

/// Derives the aggregate state of a row from its rendered steps.
pub fn row_state(steps: &Vec<StepRenderData>) -> (r: StepState)
    ensures
        r == spec_row_state(states_of(steps.deep_view())),
{
    let ghost states = states_of(steps.deep_view());
    let n = steps.len();
    let mut any_failed = false;
    let mut all_passed = true;
    for i in 0..n
        invariant
            n == steps.len(),
            states == states_of(steps.deep_view()),
            states.len() == n,
            any_failed == exists|j: int| 0 <= j < i && states[j] == StepState::Failed,
            all_passed == forall|j: int| 0 <= j < i ==> states[j] == StepState::Passed,
    {
        proof {
            assert(states[i as int] == steps.deep_view()[i as int].step_state);
        }
        if steps[i].step_state == StepState::Failed {
            any_failed = true;
        }
        if !(steps[i].step_state == StepState::Passed) {
            all_passed = false;
        }
    }
    if any_failed {
        StepState::Failed
    } else if all_passed {
        StepState::Passed
    } else {
        StepState::NotRun
    }
}

/// Aggregate outcome derivation: a row with a failed step is `Failed`; a row
/// whose steps all passed is `Passed`; a fail-free row with an unexecuted
/// step is `NotRun`.
pub proof fn lemma_row_state_derivation(states: Seq<StepState>)
    ensures
        (exists|i: int| 0 <= i < states.len() && states[i] == StepState::Failed)
            ==> spec_row_state(states) == StepState::Failed,
        (forall|i: int| 0 <= i < states.len() ==> states[i] == StepState::Passed)
            ==> spec_row_state(states) == StepState::Passed,
        ((forall|i: int| 0 <= i < states.len() ==> states[i] != StepState::Failed) && (exists|i: int|
            0 <= i < states.len() && states[i] == StepState::NotRun)) ==> spec_row_state(states)
            == StepState::NotRun,
{
    if (exists|i: int| 0 <= i < states.len() && states[i] == StepState::Failed) {
    } else if (forall|i: int| 0 <= i < states.len() ==> states[i] == StepState::Passed) {
    } else {
        if exists|i: int| 0 <= i < states.len() && states[i] == StepState::NotRun {
            let i = choose|i: int| 0 <= i < states.len() && states[i] == StepState::NotRun;
            assert(states[i] != StepState::Passed);
        }
    }
}

/// A plain scenario as rendered: name, description, steps with outcomes.
pub struct ScenarioRenderData {
    pub name: String,
    pub description: String,
    pub steps: Vec<StepRenderData>,
}

/// Mathematical content of a [`ScenarioRenderData`].
#[verifier::ext_equal]
pub ghost struct ScenarioRenderDataView {
    pub name: Seq<char>,
    pub description: Seq<char>,
    pub steps: Seq<StepRenderDataView>,
}

impl View for ScenarioRenderData {
    type V = ScenarioRenderDataView;

    open spec fn view(&self) -> ScenarioRenderDataView {
        ScenarioRenderDataView {
            name: self.name@,
            description: self.description@,
            steps: self.steps.deep_view(),
        }
    }
}

impl DeepView for ScenarioRenderData {
    type V = ScenarioRenderDataView;

    open spec fn deep_view(&self) -> ScenarioRenderDataView {
        self.view()
    }
}

/// One expanded example row as rendered: the row's cells, its steps with
/// outcomes, and the aggregate row state.
pub struct ExampleRowRenderData {
    pub example: Vec<String>,
    pub steps: Vec<StepRenderData>,
    pub example_state: StepState,
}

/// Mathematical content of an [`ExampleRowRenderData`].
#[verifier::ext_equal]
pub ghost struct ExampleRowRenderDataView {
    pub example: Seq<Seq<char>>,
    pub steps: Seq<StepRenderDataView>,
    pub example_state: StepState,
}

impl View for ExampleRowRenderData {
    type V = ExampleRowRenderDataView;

    open spec fn view(&self) -> ExampleRowRenderDataView {
        ExampleRowRenderDataView {
            example: self.example.deep_view(),
            steps: self.steps.deep_view(),
            example_state: self.example_state,
        }
    }
}

impl DeepView for ExampleRowRenderData {
    type V = ExampleRowRenderDataView;

    open spec fn deep_view(&self) -> ExampleRowRenderDataView {
        self.view()
    }
}

/// One `Examples` block as rendered: header row and mapped data rows.
pub struct ExampleRenderData {
    pub name: String,
    pub description: String,
    pub headers: Vec<String>,
    pub rows: Vec<ExampleRowRenderData>,
}

/// Mathematical content of an [`ExampleRenderData`].
#[verifier::ext_equal]
pub ghost struct ExampleRenderDataView {
    pub name: Seq<char>,
    pub description: Seq<char>,
    pub headers: Seq<Seq<char>>,
    pub rows: Seq<ExampleRowRenderDataView>,
}

impl View for ExampleRenderData {
    type V = ExampleRenderDataView;

    open spec fn view(&self) -> ExampleRenderDataView {
        ExampleRenderDataView {
            name: self.name@,
            description: self.description@,
            headers: self.headers.deep_view(),
            rows: self.rows.deep_view(),
        }
    }
}

impl DeepView for ExampleRenderData {
    type V = ExampleRenderDataView;

    open spec fn deep_view(&self) -> ExampleRenderDataView {
        self.view()
    }
}

/// A scenario outline as rendered: the template's name and description, its
/// example blocks with mapped rows, and the template steps (never executed,
/// so always `NotRun`).
pub struct OutlineRenderData {
    pub name: String,
    pub scenario_description: String,
    pub examples: Vec<ExampleRenderData>,
    pub steps: Vec<StepRenderData>,
}

/// Mathematical content of an [`OutlineRenderData`].
#[verifier::ext_equal]
pub ghost struct OutlineRenderDataView {
    pub name: Seq<char>,
    pub scenario_description: Seq<char>,
    pub examples: Seq<ExampleRenderDataView>,
    pub steps: Seq<StepRenderDataView>,
}

impl View for OutlineRenderData {
    type V = OutlineRenderDataView;

    open spec fn view(&self) -> OutlineRenderDataView {
        OutlineRenderDataView {
            name: self.name@,
            scenario_description: self.scenario_description@,
            examples: self.examples.deep_view(),
            steps: self.steps.deep_view(),
        }
    }
}

impl DeepView for OutlineRenderData {
    type V = OutlineRenderDataView;

    open spec fn deep_view(&self) -> OutlineRenderDataView {
        self.view()
    }
}

/// What rendering one top-level scenario occurrence yields: a plain
/// scenario, a reconstructed outline (on the first expansion seen), or
/// nothing, because the owning outline was already rendered for an earlier
/// expansion.
pub enum ScenarioFragment {
    Plain(ScenarioRenderData),
    Outline(OutlineRenderData),
    AlreadyRendered,
}

/// Mathematical content of a [`ScenarioFragment`].
#[verifier::ext_equal]
pub ghost enum ScenarioFragmentView {
    Plain(ScenarioRenderDataView),
    Outline(OutlineRenderDataView),
    AlreadyRendered,
}

impl View for ScenarioFragment {
    type V = ScenarioFragmentView;

    open spec fn view(&self) -> ScenarioFragmentView {
        match self {
            ScenarioFragment::Plain(s) => ScenarioFragmentView::Plain(s@),
            ScenarioFragment::Outline(o) => ScenarioFragmentView::Outline(o@),
            ScenarioFragment::AlreadyRendered => ScenarioFragmentView::AlreadyRendered,
        }
    }
}

impl DeepView for ScenarioFragment {
    type V = ScenarioFragmentView;

    open spec fn deep_view(&self) -> ScenarioFragmentView {
        self.view()
    }
}

/// A rule as rendered: its scenarios concatenated under it.
pub struct RuleRenderData {
    pub name: String,
    pub description: String,
    pub scenarios: Vec<ScenarioFragment>,
}

/// Mathematical content of a [`RuleRenderData`].
#[verifier::ext_equal]
pub ghost struct RuleRenderDataView {
    pub name: Seq<char>,
    pub description: Seq<char>,
    pub scenarios: Seq<ScenarioFragmentView>,
}

impl View for RuleRenderData {
    type V = RuleRenderDataView;

    open spec fn view(&self) -> RuleRenderDataView {
        RuleRenderDataView {
            name: self.name@,
            description: self.description@,
            scenarios: self.scenarios.deep_view(),
        }
    }
}

impl DeepView for RuleRenderData {
    type V = RuleRenderDataView;

    open spec fn deep_view(&self) -> RuleRenderDataView {
        self.view()
    }
}

/// A feature page: the feature's own fields with every scenario and rule
/// fragment rendered.
pub struct FeatureRenderData {
    pub name: String,
    pub description: String,
    pub scenarios: Vec<ScenarioFragment>,
    pub rules: Vec<RuleRenderData>,
}

/// Mathematical content of a [`FeatureRenderData`].
#[verifier::ext_equal]
pub ghost struct FeatureRenderDataView {
    pub name: Seq<char>,
    pub description: Seq<char>,
    pub scenarios: Seq<ScenarioFragmentView>,
    pub rules: Seq<RuleRenderDataView>,
}

impl View for FeatureRenderData {
    type V = FeatureRenderDataView;

    open spec fn view(&self) -> FeatureRenderDataView {
        FeatureRenderDataView {
            name: self.name@,
            description: self.description@,
            scenarios: self.scenarios.deep_view(),
            rules: self.rules.deep_view(),
        }
    }
}

impl DeepView for FeatureRenderData {
    type V = FeatureRenderDataView;

    open spec fn deep_view(&self) -> FeatureRenderDataView {
        self.view()
    }
}

/// One feature's line in the report index: link and summary statistics.
pub struct FeatureRenderStatsData {
    pub name: String,
    pub link: String,
    pub description: String,
    pub nr_scenarios: usize,
    pub nr_rules: usize,
    pub nr_steps: usize,
    pub nr_errors: usize,
    pub nr_skipped: usize,
}

/// Mathematical content of a [`FeatureRenderStatsData`].
#[verifier::ext_equal]
pub ghost struct FeatureRenderStatsDataView {
    pub name: Seq<char>,
    pub link: Seq<char>,
    pub description: Seq<char>,
    pub nr_scenarios: nat,
    pub nr_rules: nat,
    pub nr_steps: nat,
    pub nr_errors: nat,
    pub nr_skipped: nat,
}

impl View for FeatureRenderStatsData {
    type V = FeatureRenderStatsDataView;

    open spec fn view(&self) -> FeatureRenderStatsDataView {
        FeatureRenderStatsDataView {
            name: self.name@,
            link: self.link@,
            description: self.description@,
            nr_scenarios: self.nr_scenarios as nat,
            nr_rules: self.nr_rules as nat,
            nr_steps: self.nr_steps as nat,
            nr_errors: self.nr_errors as nat,
            nr_skipped: self.nr_skipped as nat,
        }
    }
}

impl DeepView for FeatureRenderStatsData {
    type V = FeatureRenderStatsDataView;

    open spec fn deep_view(&self) -> FeatureRenderStatsDataView {
        self.view()
    }
}

/// Why a feature's page could not be built. Failures are per feature: one
/// feature's failure never corrupts another feature's output.
#[derive(Clone, Copy, Debug, PartialEq, Eq, Structural)]
pub enum ReportError {
    /// The independently parsed template tree needed for an outline is
    /// missing, or does not contain the outline scenario.
    TemplateError,
    /// An outline's example table is missing or has no header row, or a data
    /// row resolves to no expanded scenario at its computed source position.
    ReconciliationError,
}

/// One feature whose page could not be built, and why.
pub struct FeatureFailure {
    pub name: String,
    pub error: ReportError,
}

/// Mathematical content of a [`FeatureFailure`].
#[verifier::ext_equal]
pub ghost struct FeatureFailureView {
    pub name: Seq<char>,
    pub error: ReportError,
}

impl View for FeatureFailure {
    type V = FeatureFailureView;

    open spec fn view(&self) -> FeatureFailureView {
        FeatureFailureView { name: self.name@, error: self.error }
    }
}

impl DeepView for FeatureFailure {
    type V = FeatureFailureView;

    open spec fn deep_view(&self) -> FeatureFailureView {
        self.view()
    }
}

/// The report index: every successfully built feature, sorted by name.
pub struct IndexRenderData {
    pub features: Vec<FeatureRenderStatsData>,
}

impl View for IndexRenderData {
    type V = Seq<FeatureRenderStatsDataView>;

    open spec fn view(&self) -> Seq<FeatureRenderStatsDataView> {
        self.features.deep_view()
    }
}

/// The finished report model: one page per feature that built, the features
/// that failed with their errors, and the index over the successes, sorted
/// by name.
pub struct ReportModel {
    pub features: Vec<FeatureRenderData>,
    pub failures: Vec<FeatureFailure>,
    pub index: IndexRenderData,
}

/// Mathematical content of a [`ReportModel`].
#[verifier::ext_equal]
pub ghost struct ReportModelView {
    pub features: Seq<FeatureRenderDataView>,
    pub failures: Seq<FeatureFailureView>,
    pub index: Seq<FeatureRenderStatsDataView>,
}

impl View for ReportModel {
    type V = ReportModelView;

    open spec fn view(&self) -> ReportModelView {
        ReportModelView {
            features: self.features.deep_view(),
            failures: self.failures.deep_view(),
            index: self.index@,
        }
    }
}

} // verus!
