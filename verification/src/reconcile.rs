//! The outline reconciler. The event stream exposes only expanded scenarios,
//! one per example row, with no back-pointer to the outline they came from.
//! Given the outline's template scenario (from the independently parsed
//! template tree) and the live feature's scenarios, this module recovers the
//! example table and maps each data row back to the expanded scenario that
//! realized it, by source-position arithmetic: the expanded scenario of data
//! row `i` (0-based, header excluded) stands exactly at line
//! `examples line + 2 + i`. A row whose computed position matches no expanded
//! scenario is a hard reconciliation error, never silently skipped.

use vstd::prelude::*;
use crate::doc_model::{ExamplesBlock, ExamplesBlockView, ScenarioDoc, ScenarioDocView, StepDoc};
use crate::identity::{spec_step_id, step_id};
use crate::outcome::{spec_lookup, OutcomeTracker, StepState};
use crate::render::{
    clone_row, opt_string_or_empty, spec_or_empty, spec_row_state, spec_step_render, states_of,
    ExampleRenderData, ExampleRenderDataView, ExampleRowRenderData, ExampleRowRenderDataView,
    OutlineRenderData, OutlineRenderDataView, ReportError, StepRenderData, StepRenderDataView,
};
use crate::render::row_state;

verus! {

/// The source line at which the expanded scenario of data row `idx` of an
/// `Examples` block starting at `line` must stand: one line for the
/// `Examples:` keyword, one for the header row, then one per data row.
pub open spec fn spec_row_position(line: int, idx: int) -> int {
    line + 2 + idx
}

/// Computes the expected source position of a data row's expanded scenario;
/// `None` when the position exceeds the machine's line-number range (no
/// scenario can stand there).
pub fn row_position(line: usize, idx: usize) -> (r: Option<usize>)
    ensures
        match r {
            Option::Some(p) => p == spec_row_position(line as int, idx as int),
            Option::None => spec_row_position(line as int, idx as int) > usize::MAX,
        },
{
    if line <= usize::MAX - 2 && idx <= usize::MAX - 2 - line {
        Option::Some(line + 2 + idx)
    } else {
        Option::None
    }
}

/// The first scenario standing at source line `line`, if any.
pub open spec fn spec_find_at(s: Seq<ScenarioDocView>, line: int) -> Option<int>
    decreases s.len(),
{
    if s.len() == 0 {
        Option::None
    } else if s[0].position_line == line {
        Option::Some(0)
    } else {
        match spec_find_at(s.drop_first(), line) {
            Option::None => Option::None,
            Option::Some(i) => Option::Some(i + 1),
        }
    }
}

/// A scan that matched at `i` after missing everywhere earlier found the
/// first match.
proof fn lemma_find_at_hit(s: Seq<ScenarioDocView>, line: int, i: int)
    requires
        0 <= i < s.len(),
        s[i].position_line == line,
        forall|j: int| 0 <= j < i ==> s[j].position_line != line,
    ensures
        spec_find_at(s, line) == Option::Some(i),
    decreases i,
{
    if i == 0 {
    } else {
        let t = s.drop_first();
        assert forall|j: int| 0 <= j < i - 1 implies t[j].position_line != line by {
            assert(t[j] == s[j + 1]);
        }
        assert(t[i - 1] == s[i]);
        lemma_find_at_hit(t, line, i - 1);
    }
}

/// A scan that missed everywhere found nothing.
proof fn lemma_find_at_miss(s: Seq<ScenarioDocView>, line: int)
    requires
        forall|j: int| 0 <= j < s.len() ==> s[j].position_line != line,
    ensures
        spec_find_at(s, line) == Option::None::<int>,
    decreases s.len(),
{
    if s.len() == 0 {
    } else {
        let t = s.drop_first();
        assert forall|j: int| 0 <= j < t.len() implies t[j].position_line != line by {
            assert(t[j] == s[j + 1]);
        }
        lemma_find_at_miss(t, line);
    }
}

/// Finds the index of the first scenario at source line `line`.
pub fn find_at(s: &Vec<ScenarioDoc>, line: usize) -> (r: Option<usize>)
    ensures
        match r {
            Option::Some(i) => i < s.len() && spec_find_at(s.deep_view(), line as int)
                == Option::Some(i as int),
            Option::None => spec_find_at(s.deep_view(), line as int) == Option::None::<int>,
        },
{
    let n = s.len();
    for i in 0..n
        invariant
            n == s.len(),
            forall|j: int| 0 <= j < i ==> s.deep_view()[j].position_line != line as nat,
    {
        proof {
            assert(s.deep_view()[i as int] == s@[i as int]@);
        }
        if s[i].position_line == line {
            proof {
                lemma_find_at_hit(s.deep_view(), line as int, i as int);
            }
            return Option::Some(i);
        }
    }
    proof {
        lemma_find_at_miss(s.deep_view(), line as int);
    }
    Option::None
}

/// No scenario stands beyond the machine's line-number range.
proof fn lemma_find_at_out_of_range(s: Seq<ScenarioDocView>, line: int)
    requires
        forall|j: int| 0 <= j < s.len() ==> #[trigger] s[j].position_line <= usize::MAX,
        line > usize::MAX,
    ensures
        spec_find_at(s, line) == Option::None::<int>,
{
    lemma_find_at_miss(s, line);
}

/// The steps of a scenario, each rendered with its tracked outcome — an
/// identity never recorded defaults to `NotRun`.
pub open spec fn spec_render_steps(steps: Seq<crate::doc_model::StepDocView>, m: Map<
    u64,
    StepState,
>) -> Seq<StepRenderDataView> {
    Seq::new(
        steps.len(),
        |i: int| spec_step_render(steps[i], spec_lookup(m, spec_step_id(steps[i]))),
    )
}

/// The steps of an outline template, rendered `NotRun`: templates are never
/// executed, only their expansions are.
pub open spec fn spec_render_template_steps(steps: Seq<crate::doc_model::StepDocView>) -> Seq<
    StepRenderDataView,
> {
    Seq::new(steps.len(), |i: int| spec_step_render(steps[i], StepState::NotRun))
}

/// Renders a scenario's steps with their tracked outcomes.
pub fn render_steps(steps: &Vec<StepDoc>, outcomes: &OutcomeTracker) -> (r: Vec<StepRenderData>)
    ensures
        r.deep_view() == spec_render_steps(steps.deep_view(), outcomes@),
{
    let ghost target = spec_render_steps(steps.deep_view(), outcomes@);
    let mut out: Vec<StepRenderData> = Vec::new();
    let n = steps.len();
    for i in 0..n
        invariant
            n == steps.len(),
            target == spec_render_steps(steps.deep_view(), outcomes@),
            out.len() == i,
            forall|j: int| 0 <= j < i ==> out@[j]@ == target[j],
    {
        let id = step_id(&steps[i]);
        let st = outcomes.lookup(id);
        let rd = StepRenderData::new(&steps[i], st);
        proof {
            assert(steps.deep_view()[i as int] == steps@[i as int]@);
            assert(target[i as int] == spec_step_render(
                steps.deep_view()[i as int],
                spec_lookup(outcomes@, spec_step_id(steps.deep_view()[i as int])),
            ));
        }
        out.push(rd);
    }
    proof {
        assert forall|j: int| 0 <= j < n implies out.deep_view()[j] == target[j] by {
            assert(out.deep_view()[j] == out@[j]@);
        }
        assert(out.deep_view() =~= target);
    }
    out
}

/// Renders an outline template's steps, all `NotRun`.
pub fn render_template_steps(steps: &Vec<StepDoc>) -> (r: Vec<StepRenderData>)
    ensures
        r.deep_view() == spec_render_template_steps(steps.deep_view()),
{
    let ghost target = spec_render_template_steps(steps.deep_view());
    let mut out: Vec<StepRenderData> = Vec::new();
    let n = steps.len();
    for i in 0..n
        invariant
            n == steps.len(),
            target == spec_render_template_steps(steps.deep_view()),
            out.len() == i,
            forall|j: int| 0 <= j < i ==> out@[j]@ == target[j],
    {
        let rd = StepRenderData::new(&steps[i], StepState::NotRun);
        proof {
            assert(steps.deep_view()[i as int] == steps@[i as int]@);
            assert(target[i as int] == spec_step_render(
                steps.deep_view()[i as int],
                StepState::NotRun,
            ));
        }
        out.push(rd);
    }
    proof {
        assert forall|j: int| 0 <= j < n implies out.deep_view()[j] == target[j] by {
            assert(out.deep_view()[j] == out@[j]@);
        }
        assert(out.deep_view() =~= target);
    }
    out
}

/// What mapping one data row yields: the expanded scenario at the computed
/// position, its steps with outcomes and the aggregate row state — or a
/// reconciliation error when no scenario stands at that position.
pub open spec fn spec_row_of(
    live: Seq<ScenarioDocView>,
    m: Map<u64, StepState>,
    cells: Seq<Seq<char>>,
    pos: int,
) -> Result<ExampleRowRenderDataView, ReportError> {
    match spec_find_at(live, pos) {
        Option::None => Result::Err(ReportError::ReconciliationError),
        Option::Some(i) => {
            let steps = spec_render_steps(live[i].steps, m);
            Result::Ok(
                ExampleRowRenderDataView {
                    example: cells,
                    steps: steps,
                    example_state: spec_row_state(states_of(steps)),
                },
            )
        },
    }
}

/// The view of an executable row-mapping result.
pub open spec fn row_res_view(r: Result<ExampleRowRenderData, ReportError>) -> Result<
    ExampleRowRenderDataView,
    ReportError,
> {
    match r {
        Result::Ok(v) => Result::Ok(v@),
        Result::Err(e) => Result::Err(e),
    }
}

/// Maps one data row of an `Examples` block starting at `ex_line` to its
/// expanded scenario among `live`, rendering the row.
pub fn new_example_row(
    live: &Vec<ScenarioDoc>,
    outcomes: &OutcomeTracker,
    cells: &Vec<String>,
    ex_line: usize,
    idx: usize,
) -> (r: Result<ExampleRowRenderData, ReportError>)
    ensures
        row_res_view(r) == spec_row_of(
            live.deep_view(),
            outcomes@,
            cells.deep_view(),
            spec_row_position(ex_line as int, idx as int),
        ),
{
    let ghost pos = spec_row_position(ex_line as int, idx as int);
    match row_position(ex_line, idx) {
        Option::None => {
            proof {
                assert forall|j: int|
                    0 <= j < live.deep_view().len() implies #[trigger] live.deep_view()[j].position_line
                    <= usize::MAX by {
                    assert(live.deep_view()[j] == live@[j]@);
                }
                lemma_find_at_out_of_range(live.deep_view(), pos);
            }
            Result::Err(ReportError::ReconciliationError)
        },
        Option::Some(p) => {
            match find_at(live, p) {
                Option::None => Result::Err(ReportError::ReconciliationError),
                Option::Some(i) => {
                    let steps = render_steps(&live[i].steps, outcomes);
                    let state = row_state(&steps);
                    proof {
                        assert(live.deep_view()[i as int] == live@[i as int]@);
                    }
                    Result::Ok(
                        ExampleRowRenderData {
                            example: clone_row(cells),
                            steps: steps,
                            example_state: state,
                        },
                    )
                },
            }
        },
    }
}

/// What mapping every data row yields: the rows in table order, or the first
/// row's error. `rows` holds the data rows only; `base` is the position of
/// the first data row's expanded scenario.
pub open spec fn spec_rows_of(
    live: Seq<ScenarioDocView>,
    m: Map<u64, StepState>,
    rows: Seq<Seq<Seq<char>>>,
    base: int,
) -> Result<Seq<ExampleRowRenderDataView>, ReportError>
    decreases rows.len(),
{
    if rows.len() == 0 {
        Result::Ok(Seq::empty())
    } else {
        match spec_row_of(live, m, rows[0], base) {
            Result::Err(e) => Result::Err(e),
            Result::Ok(r0) => match spec_rows_of(live, m, rows.drop_first(), base + 1) {
                Result::Err(e) => Result::Err(e),
                Result::Ok(rest) => Result::Ok(seq![r0] + rest),
            },
        }
    }
}

/// Row mapping is total: mapping the data rows succeeds exactly when every
/// row's computed position hits an expanded scenario; then row `i` is the
/// rendering of the scenario standing at `base + i`, and no row is ever
/// silently dropped — a single unresolved row fails the whole mapping.
pub proof fn lemma_rows_of_total(
    live: Seq<ScenarioDocView>,
    m: Map<u64, StepState>,
    rows: Seq<Seq<Seq<char>>>,
    base: int,
)
    ensures
        spec_rows_of(live, m, rows, base) is Ok <==> (forall|i: int|
            0 <= i < rows.len() ==> #[trigger] spec_find_at(live, base + i) is Some),
        spec_rows_of(live, m, rows, base) is Ok ==> {
            let mapped = spec_rows_of(live, m, rows, base)->Ok_0;
            &&& mapped.len() == rows.len()
            &&& forall|i: int|
                0 <= i < rows.len() ==> #[trigger] mapped[i] == spec_row_of(
                    live,
                    m,
                    rows[i],
                    base + i,
                )->Ok_0
        },
    decreases rows.len(),
{
    if rows.len() == 0 {
    } else {
        lemma_rows_of_total(live, m, rows.drop_first(), base + 1);
        assert(forall|i: int|
            0 <= i < rows.drop_first().len() ==> rows.drop_first()[i] == rows[i + 1]);
        match spec_row_of(live, m, rows[0], base) {
            Result::Err(_) => {
                assert(spec_find_at(live, base + 0) is None);
            },
            Result::Ok(r0) => {
                assert(spec_find_at(live, base + 0) is Some);
                if spec_rows_of(live, m, rows.drop_first(), base + 1) is Ok {
                    assert forall|i: int|
                        0 <= i < rows.len() implies #[trigger] spec_find_at(live, base + i)
                        is Some by {
                        if i > 0 {
                            assert(spec_find_at(live, (base + 1) + (i - 1)) is Some);
                        }
                    }
                    let rest = spec_rows_of(live, m, rows.drop_first(), base + 1)->Ok_0;
                    let mapped = spec_rows_of(live, m, rows, base)->Ok_0;
                    assert(mapped == seq![r0] + rest);
                    assert forall|i: int|
                        0 <= i < rows.len() implies #[trigger] mapped[i] == spec_row_of(
                        live,
                        m,
                        rows[i],
                        base + i,
                    )->Ok_0 by {
                        if i > 0 {
                            assert(mapped[i] == rest[i - 1]);
                            assert(rest[i - 1] == spec_row_of(
                                live,
                                m,
                                rows.drop_first()[i - 1],
                                (base + 1) + (i - 1),
                            )->Ok_0);
                        }
                    }
                } else {
                    let k = choose|k: int|
                        0 <= k < rows.drop_first().len() && !(#[trigger] spec_find_at(
                            live,
                            (base + 1) + k,
                        ) is Some);
                    assert(!(spec_find_at(live, base + (k + 1)) is Some));
                }
            },
        }
    }
}

/// The view of an executable row-sequence result.
pub open spec fn rows_res_view(r: Result<Vec<ExampleRowRenderData>, ReportError>) -> Result<
    Seq<ExampleRowRenderDataView>,
    ReportError,
> {
    match r {
        Result::Ok(v) => Result::Ok(v.deep_view()),
        Result::Err(e) => Result::Err(e),
    }
}

/// Maps every data row of a table whose `Examples` block starts at `ex_line`;
/// `table` still carries the header row in front.
fn map_rows(
    live: &Vec<ScenarioDoc>,
    outcomes: &OutcomeTracker,
    table: &Vec<Vec<String>>,
    ex_line: usize,
) -> (r: Result<Vec<ExampleRowRenderData>, ReportError>)
    requires
        table.len() >= 1,
    ensures
        rows_res_view(r) == spec_rows_of(
            live.deep_view(),
            outcomes@,
            table.deep_view().drop_first(),
            spec_row_position(ex_line as int, 0),
        ),
{
    let ghost data = table.deep_view().drop_first();
    let ghost base = spec_row_position(ex_line as int, 0);
    let mut acc: Vec<ExampleRowRenderData> = Vec::new();
    let n = table.len();
    proof {
        assert(data.skip(0) =~= data);
        assert(acc.deep_view() =~= Seq::<ExampleRowRenderDataView>::empty());
        if spec_rows_of(live.deep_view(), outcomes@, data, base) is Ok {
            let full = spec_rows_of(live.deep_view(), outcomes@, data, base);
            assert(acc.deep_view() + full->Ok_0 =~= full->Ok_0);
        }
    }
    let mut i: usize = 1;
    while i < n
        invariant
            n == table.len(),
            1 <= i <= n,
            data == table.deep_view().drop_first(),
            base == spec_row_position(ex_line as int, 0),
            acc.len() == i - 1,
            match spec_rows_of(live.deep_view(), outcomes@, data.skip(i - 1), base + (i - 1)) {
                Result::Ok(rest) => spec_rows_of(live.deep_view(), outcomes@, data, base)
                    == Result::Ok::<_, ReportError>(acc.deep_view() + rest),
                Result::Err(e) => spec_rows_of(live.deep_view(), outcomes@, data, base)
                    == Result::Err::<Seq<ExampleRowRenderDataView>, _>(e),
            },
        decreases n - i,
    {
        let ghost k = i - 1;
        proof {
            assert(data.skip(k as int)[0] == data[k as int]);
            assert(data[k as int] == table.deep_view()[k as int + 1]);
            assert(table.deep_view()[k as int + 1] == table@[k as int + 1].deep_view());
            assert(data.skip(k as int).drop_first() =~= data.skip(k as int + 1));
            assert(spec_row_position(ex_line as int, k as int) == base + k);
        }
        match new_example_row(live, outcomes, &table[i], ex_line, i - 1) {
            Result::Err(e) => {
                return Result::Err(e);
            },
            Result::Ok(row) => {
                let ghost prev = acc@;
                let ghost rowv = row@;
                acc.push(row);
                proof {
                    assert forall|j: int|
                        0 <= j < k + 1 implies acc.deep_view()[j] == (prev.map_values(
                        |x: ExampleRowRenderData| x.deep_view(),
                    ).push(rowv))[j] by {
                        assert(acc.deep_view()[j] == acc@[j]@);
                        if j < k {
                            assert(acc@[j] == prev[j]);
                        }
                    }
                    // relate old and new accumulator views
                    let old_dv = Seq::new(prev.len(), |j: int| prev[j].deep_view());
                    assert(acc.deep_view() =~= old_dv.push(rowv));
                    match spec_rows_of(
                        live.deep_view(),
                        outcomes@,
                        data.skip(k + 1),
                        base + k + 1,
                    ) {
                        Result::Ok(rest) => {
                            assert(spec_rows_of(live.deep_view(), outcomes@, data.skip(k), base + k)
                                == Result::Ok::<_, ReportError>(seq![rowv] + rest));
                            assert(old_dv + (seq![rowv] + rest) =~= old_dv.push(rowv) + rest);
                        },
                        Result::Err(_) => {},
                    }
                }
                i = i + 1;
            },
        }
    }
    proof {
        assert(data.skip(n - 1) =~= Seq::<Seq<Seq<char>>>::empty());
        assert(acc.deep_view() + Seq::<ExampleRowRenderDataView>::empty() =~= acc.deep_view());
    }
    Result::Ok(acc)
}

/// What rendering one `Examples` block yields: header and mapped data rows —
/// or an error where the table is missing, empty, or a row fails to map.
pub open spec fn spec_example_of(
    live: Seq<ScenarioDocView>,
    m: Map<u64, StepState>,
    ex: ExamplesBlockView,
) -> Result<ExampleRenderDataView, ReportError> {
    match ex.table {
        Option::None => Result::Err(ReportError::ReconciliationError),
        Option::Some(t) => {
            if t.len() == 0 {
                Result::Err(ReportError::ReconciliationError)
            } else {
                match spec_rows_of(
                    live,
                    m,
                    t.drop_first(),
                    spec_row_position(ex.position_line as int, 0),
                ) {
                    Result::Err(e) => Result::Err(e),
                    Result::Ok(rows) => Result::Ok(
                        ExampleRenderDataView {
                            name: spec_or_empty(ex.name),
                            description: spec_or_empty(ex.description),
                            headers: t[0],
                            rows: rows,
                        },
                    ),
                }
            }
        },
    }
}

/// The view of an executable `Examples`-block result.
pub open spec fn example_res_view(r: Result<ExampleRenderData, ReportError>) -> Result<
    ExampleRenderDataView,
    ReportError,
> {
    match r {
        Result::Ok(v) => Result::Ok(v@),
        Result::Err(e) => Result::Err(e),
    }
}

/// Renders one `Examples` block of an outline template against the live
/// feature's expanded scenarios.
pub fn render_example(
    live: &Vec<ScenarioDoc>,
    outcomes: &OutcomeTracker,
    ex: &ExamplesBlock,
) -> (r: Result<ExampleRenderData, ReportError>)
    ensures
        example_res_view(r) == spec_example_of(live.deep_view(), outcomes@, ex@),
{
    match &ex.table {
        Option::None => Result::Err(ReportError::ReconciliationError),
        Option::Some(t) => {
            if t.len() == 0 {
                Result::Err(ReportError::ReconciliationError)
            } else {
                match map_rows(live, outcomes, t, ex.position_line) {
                    Result::Err(e) => Result::Err(e),
                    Result::Ok(rows) => {
                        proof {
                            assert(t.deep_view()[0] == t@[0].deep_view());
                        }
                        Result::Ok(
                            ExampleRenderData {
                                name: opt_string_or_empty(&ex.name),
                                description: opt_string_or_empty(&ex.description),
                                headers: clone_row(&t[0]),
                                rows: rows,
                            },
                        )
                    },
                }
            }
        },
    }
}

/// What rendering every `Examples` block of a template outline yields, in
/// order — or the first block's error.
pub open spec fn spec_examples_of(
    live: Seq<ScenarioDocView>,
    m: Map<u64, StepState>,
    exs: Seq<ExamplesBlockView>,
) -> Result<Seq<ExampleRenderDataView>, ReportError>
    decreases exs.len(),
{
    if exs.len() == 0 {
        Result::Ok(Seq::empty())
    } else {
        match spec_example_of(live, m, exs[0]) {
            Result::Err(e) => Result::Err(e),
            Result::Ok(e0) => match spec_examples_of(live, m, exs.drop_first()) {
                Result::Err(e) => Result::Err(e),
                Result::Ok(rest) => Result::Ok(seq![e0] + rest),
            },
        }
    }
}

/// The view of an executable `Examples`-sequence result.
pub open spec fn examples_res_view(r: Result<Vec<ExampleRenderData>, ReportError>) -> Result<
    Seq<ExampleRenderDataView>,
    ReportError,
> {
    match r {
        Result::Ok(v) => Result::Ok(v.deep_view()),
        Result::Err(e) => Result::Err(e),
    }
}

/// Renders every `Examples` block of a template outline.
fn render_examples(
    live: &Vec<ScenarioDoc>,
    outcomes: &OutcomeTracker,
    exs: &Vec<ExamplesBlock>,
) -> (r: Result<Vec<ExampleRenderData>, ReportError>)
    ensures
        examples_res_view(r) == spec_examples_of(live.deep_view(), outcomes@, exs.deep_view()),
{
    let ghost all = exs.deep_view();
    let mut acc: Vec<ExampleRenderData> = Vec::new();
    let n = exs.len();
    proof {
        assert(all.skip(0) =~= all);
        if spec_examples_of(live.deep_view(), outcomes@, all) is Ok {
            let full = spec_examples_of(live.deep_view(), outcomes@, all);
            assert(acc.deep_view() + full->Ok_0 =~= full->Ok_0);
        }
    }
    let mut i: usize = 0;
    while i < n
        invariant
            n == exs.len(),
            i <= n,
            all == exs.deep_view(),
            acc.len() == i,
            match spec_examples_of(live.deep_view(), outcomes@, all.skip(i as int)) {
                Result::Ok(rest) => spec_examples_of(live.deep_view(), outcomes@, all)
                    == Result::Ok::<_, ReportError>(acc.deep_view() + rest),
                Result::Err(e) => spec_examples_of(live.deep_view(), outcomes@, all)
                    == Result::Err::<Seq<ExampleRenderDataView>, _>(e),
            },
        decreases n - i,
    {
        proof {
            assert(all.skip(i as int)[0] == all[i as int]);
            assert(all[i as int] == exs@[i as int]@);
            assert(all.skip(i as int).drop_first() =~= all.skip(i as int + 1));
        }
        match render_example(live, outcomes, &exs[i]) {
            Result::Err(e) => {
                return Result::Err(e);
            },
            Result::Ok(one) => {
                let ghost prev = acc@;
                let ghost onev = one@;
                acc.push(one);
                proof {
                    let old_dv = Seq::new(prev.len(), |j: int| prev[j].deep_view());
                    assert forall|j: int| 0 <= j < i + 1 implies acc.deep_view()[j] == old_dv.push(
                        onev,
                    )[j] by {
                        assert(acc.deep_view()[j] == acc@[j]@);
                        if j < i {
                            assert(acc@[j] == prev[j]);
                        }
                    }
                    assert(acc.deep_view() =~= old_dv.push(onev));
                    match spec_examples_of(live.deep_view(), outcomes@, all.skip(i as int + 1)) {
                        Result::Ok(rest) => {
                            assert(old_dv + (seq![onev] + rest) =~= old_dv.push(onev) + rest);
                        },
                        Result::Err(_) => {},
                    }
                }
                i = i + 1;
            },
        }
    }
    proof {
        assert(all.skip(n as int) =~= Seq::<ExamplesBlockView>::empty());
        assert(acc.deep_view() + Seq::<ExampleRenderDataView>::empty() =~= acc.deep_view());
    }
    Result::Ok(acc)
}

/// What reconstructing an outline from its template scenario yields: the
/// template's name, description and `NotRun` steps, and every example block
/// with its rows mapped against the live feature's expanded scenarios.
pub open spec fn spec_outline_of(
    tpl: ScenarioDocView,
    live: Seq<ScenarioDocView>,
    m: Map<u64, StepState>,
) -> Result<OutlineRenderDataView, ReportError> {
    match spec_examples_of(live, m, tpl.examples) {
        Result::Err(e) => Result::Err(e),
        Result::Ok(exs) => Result::Ok(
            OutlineRenderDataView {
                name: tpl.name,
                scenario_description: spec_or_empty(tpl.description),
                examples: exs,
                steps: spec_render_template_steps(tpl.steps),
            },
        ),
    }
}

/// The view of an executable outline result.
pub open spec fn outline_res_view(r: Result<OutlineRenderData, ReportError>) -> Result<
    OutlineRenderDataView,
    ReportError,
> {
    match r {
        Result::Ok(v) => Result::Ok(v@),
        Result::Err(e) => Result::Err(e),
    }
}

/// Reconstructs a scenario outline from its template scenario and the live
/// feature's expanded scenarios.
pub fn render_outline(
    tpl: &ScenarioDoc,
    live: &Vec<ScenarioDoc>,
    outcomes: &OutcomeTracker,
) -> (r: Result<OutlineRenderData, ReportError>)
    ensures
        outline_res_view(r) == spec_outline_of(tpl@, live.deep_view(), outcomes@),
{
    match render_examples(live, outcomes, &tpl.examples) {
        Result::Err(e) => Result::Err(e),
        Result::Ok(exs) => Result::Ok(
            OutlineRenderData {
                name: tpl.name.clone(),
                scenario_description: opt_string_or_empty(&tpl.description),
                examples: exs,
                steps: render_template_steps(&tpl.steps),
            },
        ),
    }
}

} // verus!
