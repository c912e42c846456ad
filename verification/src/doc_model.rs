//! The document model: a feature document as an immutable tree of rules,
//! scenarios and steps, holding exactly the fields the aggregation engine
//! reads. Two independently parsed trees of the same source text compare
//! equal by deep content equality, which the `*_content_eq` functions decide.

use vstd::prelude::*;

verus! {

/// A scenario step: keyword, step text, and the optional data table.
pub struct StepDoc {
    pub keyword: String,
    pub text: String,
    pub table: Option<Vec<Vec<String>>>,
}

/// Mathematical content of a [`StepDoc`].
#[verifier::ext_equal]
pub ghost struct StepDocView {
    pub keyword: Seq<char>,
    pub text: Seq<char>,
    pub table: Option<Seq<Seq<Seq<char>>>>,
}

impl View for StepDoc {
    type V = StepDocView;

    open spec fn view(&self) -> StepDocView {
        StepDocView {
            keyword: self.keyword@,
            text: self.text@,
            table: self.table.deep_view(),
        }
    }
}

impl DeepView for StepDoc {
    type V = StepDocView;

    open spec fn deep_view(&self) -> StepDocView {
        self.view()
    }
}

/// An `Examples` block of a scenario outline: its optional name and
/// description, the example table (first row headers, rest data rows), and
/// the source line the block's keyword stands on.
pub struct ExamplesBlock {
    pub name: Option<String>,
    pub description: Option<String>,
    pub table: Option<Vec<Vec<String>>>,
    pub position_line: usize,
}

/// Mathematical content of an [`ExamplesBlock`].
#[verifier::ext_equal]
pub ghost struct ExamplesBlockView {
    pub name: Option<Seq<char>>,
    pub description: Option<Seq<char>>,
    pub table: Option<Seq<Seq<Seq<char>>>>,
    pub position_line: nat,
}

impl View for ExamplesBlock {
    type V = ExamplesBlockView;

    open spec fn view(&self) -> ExamplesBlockView {
        ExamplesBlockView {
            name: self.name.deep_view(),
            description: self.description.deep_view(),
            table: self.table.deep_view(),
            position_line: self.position_line as nat,
        }
    }
}

impl DeepView for ExamplesBlock {
    type V = ExamplesBlockView;

    open spec fn deep_view(&self) -> ExamplesBlockView {
        self.view()
    }
}

/// A scenario: name, description, steps, `Examples` blocks (non-empty exactly
/// when the scenario is an outline or the expansion of one), the source line
/// it starts on, and the source span of its directive.
pub struct ScenarioDoc {
    pub name: String,
    pub description: Option<String>,
    pub steps: Vec<StepDoc>,
    pub examples: Vec<ExamplesBlock>,
    pub position_line: usize,
    pub span_start: usize,
    pub span_end: usize,
}

/// Mathematical content of a [`ScenarioDoc`].
#[verifier::ext_equal]
pub ghost struct ScenarioDocView {
    pub name: Seq<char>,
    pub description: Option<Seq<char>>,
    pub steps: Seq<StepDocView>,
    pub examples: Seq<ExamplesBlockView>,
    pub position_line: nat,
    pub span_start: nat,
    pub span_end: nat,
}

impl View for ScenarioDoc {
    type V = ScenarioDocView;

    open spec fn view(&self) -> ScenarioDocView {
        ScenarioDocView {
            name: self.name@,
            description: self.description.deep_view(),
            steps: self.steps.deep_view(),
            examples: self.examples.deep_view(),
            position_line: self.position_line as nat,
            span_start: self.span_start as nat,
            span_end: self.span_end as nat,
        }
    }
}

impl DeepView for ScenarioDoc {
    type V = ScenarioDocView;

    open spec fn deep_view(&self) -> ScenarioDocView {
        self.view()
    }
}

/// A rule grouping scenarios under a feature.
pub struct RuleDoc {
    pub name: String,
    pub description: Option<String>,
    pub scenarios: Vec<ScenarioDoc>,
}

/// Mathematical content of a [`RuleDoc`].
#[verifier::ext_equal]
pub ghost struct RuleDocView {
    pub name: Seq<char>,
    pub description: Option<Seq<char>>,
    pub scenarios: Seq<ScenarioDocView>,
}

impl View for RuleDoc {
    type V = RuleDocView;

    open spec fn view(&self) -> RuleDocView {
        RuleDocView {
            name: self.name@,
            description: self.description.deep_view(),
            scenarios: self.scenarios.deep_view(),
        }
    }
}

impl DeepView for RuleDoc {
    type V = RuleDocView;

    open spec fn deep_view(&self) -> RuleDocView {
        self.view()
    }
}

/// A feature document: name, description, the source path it was parsed
/// from (if known), top-level scenarios and rules.
pub struct FeatureDoc {
    pub name: String,
    pub description: Option<String>,
    pub path: Option<String>,
    pub scenarios: Vec<ScenarioDoc>,
    pub rules: Vec<RuleDoc>,
}

/// Mathematical content of a [`FeatureDoc`].
#[verifier::ext_equal]
pub ghost struct FeatureDocView {
    pub name: Seq<char>,
    pub description: Option<Seq<char>>,
    pub path: Option<Seq<char>>,
    pub scenarios: Seq<ScenarioDocView>,
    pub rules: Seq<RuleDocView>,
}

impl View for FeatureDoc {
    type V = FeatureDocView;

    open spec fn view(&self) -> FeatureDocView {
        FeatureDocView {
            name: self.name@,
            description: self.description.deep_view(),
            path: self.path.deep_view(),
            scenarios: self.scenarios.deep_view(),
            rules: self.rules.deep_view(),
        }
    }
}

impl DeepView for FeatureDoc {
    type V = FeatureDocView;

    open spec fn deep_view(&self) -> FeatureDocView {
        self.view()
    }
}

/// True if some scenario of the feature carries a non-empty `Examples`
/// list, i.e. the feature contains at least one outline or expansion.
pub open spec fn spec_doc_has_outline(f: FeatureDocView) -> bool {
    exists|i: int| 0 <= i < f.scenarios.len() && #[trigger] f.scenarios[i].examples.len() > 0
}

/// Decides equality of two optional strings by content.
pub fn opt_string_eq(a: &Option<String>, b: &Option<String>) -> (r: bool)
    ensures
        r == (a.deep_view() == b.deep_view()),
{
    match (a, b) {
        (Option::None, Option::None) => true,
        (Option::Some(x), Option::Some(y)) => x.eq(y),
        _ => false,
    }
}

/// Decides equality of two table rows by content.
pub fn row_eq(a: &Vec<String>, b: &Vec<String>) -> (r: bool)
    ensures
        r == (a.deep_view() == b.deep_view()),
{
    if a.len() != b.len() {
        proof {
            assert(a.deep_view().len() == a@.len());
            assert(b.deep_view().len() == b@.len());
        }
        return false;
    }
    let n = a.len();
    for i in 0..n
        invariant
            n == a.len() == b.len(),
            forall|j: int| 0 <= j < i ==> a.deep_view()[j] == b.deep_view()[j],
    {
        if !a[i].eq(&b[i]) {
            proof {
                assert(a.deep_view()[i as int] == a@[i as int]@);
                assert(b.deep_view()[i as int] == b@[i as int]@);
            }
            return false;
        }
    }
    proof {
        assert(a.deep_view() =~= b.deep_view());
    }
    true
}

/// Decides equality of two tables by content.
pub fn table_eq(a: &Vec<Vec<String>>, b: &Vec<Vec<String>>) -> (r: bool)
    ensures
        r == (a.deep_view() == b.deep_view()),
{
    if a.len() != b.len() {
        proof {
            assert(a.deep_view().len() == a@.len());
            assert(b.deep_view().len() == b@.len());
        }
        return false;
    }
    let n = a.len();
    for i in 0..n
        invariant
            n == a.len() == b.len(),
            forall|j: int| 0 <= j < i ==> a.deep_view()[j] == b.deep_view()[j],
    {
        if !row_eq(&a[i], &b[i]) {
            proof {
                assert(a.deep_view()[i as int] == a@[i as int].deep_view());
                assert(b.deep_view()[i as int] == b@[i as int].deep_view());
            }
            return false;
        }
    }
    proof {
        assert(a.deep_view() =~= b.deep_view());
    }
    true
}

/// Decides equality of two optional tables by content.
pub fn opt_table_eq(a: &Option<Vec<Vec<String>>>, b: &Option<Vec<Vec<String>>>) -> (r: bool)
    ensures
        r == (a.deep_view() == b.deep_view()),
{
    match (a, b) {
        (Option::None, Option::None) => true,
        (Option::Some(x), Option::Some(y)) => table_eq(x, y),
        _ => false,
    }
}

impl StepDoc {
    /// Decides deep content equality of two steps.
    pub fn content_eq(&self, other: &StepDoc) -> (r: bool)
        ensures
            r == (self@ == other@),
    {
        self.keyword == other.keyword && self.text == other.text
            && opt_table_eq(&self.table, &other.table)
    }
}

/// Decides element-wise content equality of two step sequences.
pub fn steps_eq(a: &Vec<StepDoc>, b: &Vec<StepDoc>) -> (r: bool)
    ensures
        r == (a.deep_view() == b.deep_view()),
{
    if a.len() != b.len() {
        proof {
            assert(a.deep_view().len() == a@.len());
            assert(b.deep_view().len() == b@.len());
        }
        return false;
    }
    let n = a.len();
    for i in 0..n
        invariant
            n == a.len() == b.len(),
            forall|j: int| 0 <= j < i ==> a.deep_view()[j] == b.deep_view()[j],
    {
        if !a[i].content_eq(&b[i]) {
            proof {
                assert(a.deep_view()[i as int] == a@[i as int].deep_view());
                assert(b.deep_view()[i as int] == b@[i as int].deep_view());
            }
            return false;
        }
    }
    proof {
        assert(a.deep_view() =~= b.deep_view());
    }
    true
}

impl ExamplesBlock {
    /// Decides deep content equality of two `Examples` blocks.
    pub fn content_eq(&self, other: &ExamplesBlock) -> (r: bool)
        ensures
            r == (self@ == other@),
    {
        opt_string_eq(&self.name, &other.name)
            && opt_string_eq(&self.description, &other.description)
            && opt_table_eq(&self.table, &other.table)
            && self.position_line == other.position_line
    }
}

/// Decides element-wise content equality of two `Examples` sequences.
pub fn examples_eq(a: &Vec<ExamplesBlock>, b: &Vec<ExamplesBlock>) -> (r: bool)
    ensures
        r == (a.deep_view() == b.deep_view()),
{
    if a.len() != b.len() {
        proof {
            assert(a.deep_view().len() == a@.len());
            assert(b.deep_view().len() == b@.len());
        }
        return false;
    }
    let n = a.len();
    for i in 0..n
        invariant
            n == a.len() == b.len(),
            forall|j: int| 0 <= j < i ==> a.deep_view()[j] == b.deep_view()[j],
    {
        if !a[i].content_eq(&b[i]) {
            proof {
                assert(a.deep_view()[i as int] == a@[i as int].deep_view());
                assert(b.deep_view()[i as int] == b@[i as int].deep_view());
            }
            return false;
        }
    }
    proof {
        assert(a.deep_view() =~= b.deep_view());
    }
    true
}

impl ScenarioDoc {
    /// Decides deep content equality of two scenarios.
    pub fn content_eq(&self, other: &ScenarioDoc) -> (r: bool)
        ensures
            r == (self@ == other@),
    {
        self.name == other.name && opt_string_eq(&self.description, &other.description)
            && steps_eq(&self.steps, &other.steps)
            && examples_eq(&self.examples, &other.examples)
            && self.position_line == other.position_line
            && self.span_start == other.span_start
            && self.span_end == other.span_end
    }
}

/// Decides element-wise content equality of two scenario sequences.
pub fn scenarios_eq(a: &Vec<ScenarioDoc>, b: &Vec<ScenarioDoc>) -> (r: bool)
    ensures
        r == (a.deep_view() == b.deep_view()),
{
    if a.len() != b.len() {
        proof {
            assert(a.deep_view().len() == a@.len());
            assert(b.deep_view().len() == b@.len());
        }
        return false;
    }
    let n = a.len();
    for i in 0..n
        invariant
            n == a.len() == b.len(),
            forall|j: int| 0 <= j < i ==> a.deep_view()[j] == b.deep_view()[j],
    {
        if !a[i].content_eq(&b[i]) {
            proof {
                assert(a.deep_view()[i as int] == a@[i as int].deep_view());
                assert(b.deep_view()[i as int] == b@[i as int].deep_view());
            }
            return false;
        }
    }
    proof {
        assert(a.deep_view() =~= b.deep_view());
    }
    true
}

impl RuleDoc {
    /// Decides deep content equality of two rules.
    pub fn content_eq(&self, other: &RuleDoc) -> (r: bool)
        ensures
            r == (self@ == other@),
    {
        self.name == other.name && opt_string_eq(&self.description, &other.description)
            && scenarios_eq(&self.scenarios, &other.scenarios)
    }
}

/// Decides element-wise content equality of two rule sequences.
pub fn rules_eq(a: &Vec<RuleDoc>, b: &Vec<RuleDoc>) -> (r: bool)
    ensures
        r == (a.deep_view() == b.deep_view()),
{
    if a.len() != b.len() {
        proof {
            assert(a.deep_view().len() == a@.len());
            assert(b.deep_view().len() == b@.len());
        }
        return false;
    }
    let n = a.len();
    for i in 0..n
        invariant
            n == a.len() == b.len(),
            forall|j: int| 0 <= j < i ==> a.deep_view()[j] == b.deep_view()[j],
    {
        if !a[i].content_eq(&b[i]) {
            proof {
                assert(a.deep_view()[i as int] == a@[i as int].deep_view());
                assert(b.deep_view()[i as int] == b@[i as int].deep_view());
            }
            return false;
        }
    }
    proof {
        assert(a.deep_view() =~= b.deep_view());
    }
    true
}

impl FeatureDoc {
    /// Decides deep content equality of two feature documents, the equality
    /// by which the document store deduplicates.
    pub fn content_eq(&self, other: &FeatureDoc) -> (r: bool)
        ensures
            r == (self@ == other@),
    {
        self.name == other.name && opt_string_eq(&self.description, &other.description)
            && opt_string_eq(&self.path, &other.path)
            && scenarios_eq(&self.scenarios, &other.scenarios)
            && rules_eq(&self.rules, &other.rules)
    }

    /// Reports whether any top-level scenario has a non-empty `Examples` list.
    pub fn has_outline(&self) -> (r: bool)
        ensures
            r == spec_doc_has_outline(self@),
    {
        let n = self.scenarios.len();
        for i in 0..n
            invariant
                n == self.scenarios.len(),
                forall|j: int| 0 <= j < i ==> #[trigger] self@.scenarios[j].examples.len() == 0,
        {
            if self.scenarios[i].examples.len() > 0 {
                assert(self@.scenarios[i as int].examples.len() > 0);
                return true;
            }
        }
        false
    }
}

} // verus!
