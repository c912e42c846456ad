use cucumber_reporter::reconcile::row_position;
use cucumber_reporter::{
    CucumberReporter, ExamplesBlock, FeatureDoc, ReportError, ScenarioDoc, ScenarioFragment,
    StepDoc, StepState,
};

fn step(keyword: &str, text: &str) -> StepDoc {
    StepDoc { keyword: keyword.to_string(), text: text.to_string(), table: None }
}

fn examples_block(line: usize, table: Option<Vec<Vec<&str>>>) -> ExamplesBlock {
    ExamplesBlock {
        name: Some("first block".to_string()),
        description: None,
        table: table.map(|t| {
            t.into_iter()
                .map(|r| r.into_iter().map(|c| c.to_string()).collect())
                .collect()
        }),
        position_line: line,
    }
}

fn expanded_scenario(line: usize, text: &str) -> ScenarioDoc {
    ScenarioDoc {
        name: "Counting".to_string(),
        description: None,
        steps: vec![step("Given ", text)],
        examples: vec![examples_block(10, Some(vec![vec!["v"], vec!["1"], vec!["2"]]))],
        position_line: line,
        span_start: 7,
        span_end: 99,
    }
}

fn template_outline(table: Option<Vec<Vec<&str>>>) -> ScenarioDoc {
    ScenarioDoc {
        name: "Counting".to_string(),
        description: Some("counts values".to_string()),
        steps: vec![step("Given ", "value is <v>")],
        examples: vec![examples_block(10, table)],
        position_line: 5,
        span_start: 7,
        span_end: 99,
    }
}

fn live_feature(scenarios: Vec<ScenarioDoc>) -> FeatureDoc {
    FeatureDoc {
        name: "Numbers".to_string(),
        description: None,
        path: Some("numbers.feature".to_string()),
        scenarios,
        rules: vec![],
    }
}

fn template_feature(table: Option<Vec<Vec<&str>>>) -> FeatureDoc {
    FeatureDoc {
        name: "Numbers".to_string(),
        description: None,
        path: Some("numbers.feature".to_string()),
        scenarios: vec![template_outline(table)],
        rules: vec![],
    }
}

#[test]
fn row_position_arithmetic() {
    // An Examples block at line 10: header at 11, data rows expand at 12, 13.
    assert_eq!(row_position(10, 0), Some(12));
    assert_eq!(row_position(10, 1), Some(13));
    assert_eq!(row_position(0, 0), Some(2));
    assert_eq!(row_position(usize::MAX, 0), None);
}

#[test]
fn outline_rows_map_to_expanded_scenarios() {
    let mut reporter = CucumberReporter::new();
    let path = reporter.add_feature(live_feature(vec![
        expanded_scenario(12, "value is 1"),
        expanded_scenario(13, "value is 2"),
    ]));
    assert_eq!(path, Some("numbers.feature".to_string()));
    reporter.add_template(template_feature(Some(vec![vec!["v"], vec!["1"], vec!["2"]])));
    reporter.add_step(&step("Given ", "value is 1"), StepState::Passed);
    reporter.add_step(&step("Given ", "value is 2"), StepState::Failed);
    let model = reporter.finish();

    assert!(model.failures.is_empty());
    assert_eq!(model.features.len(), 1);
    let page = &model.features[0];
    assert_eq!(page.scenarios.len(), 2);
    let outline = match &page.scenarios[0] {
        ScenarioFragment::Outline(o) => o,
        _ => panic!("first expansion must render the outline"),
    };
    // The second expansion of the same outline renders nothing.
    assert!(matches!(page.scenarios[1], ScenarioFragment::AlreadyRendered));

    assert_eq!(outline.name, "Counting");
    assert_eq!(outline.scenario_description, "counts values");
    assert_eq!(outline.steps.len(), 1);
    assert_eq!(outline.steps[0].step_template, "value is <v>");
    assert_eq!(outline.steps[0].step_state, StepState::NotRun);

    assert_eq!(outline.examples.len(), 1);
    let ex = &outline.examples[0];
    assert_eq!(ex.name, "first block");
    assert_eq!(ex.description, "");
    assert_eq!(ex.headers, vec!["v".to_string()]);
    assert_eq!(ex.rows.len(), 2);
    // Row 0 maps to the scenario at line 12, row 1 to the one at line 13.
    assert_eq!(ex.rows[0].example, vec!["1".to_string()]);
    assert_eq!(ex.rows[0].steps[0].step_template, "value is 1");
    assert_eq!(ex.rows[0].example_state, StepState::Passed);
    assert_eq!(ex.rows[1].example, vec!["2".to_string()]);
    assert_eq!(ex.rows[1].steps[0].step_template, "value is 2");
    assert_eq!(ex.rows[1].example_state, StepState::Failed);
}

#[test]
fn missing_row_is_a_hard_error() {
    // Two data rows but only the scenario at line 12 exists: the build must
    // surface a reconciliation error, not silently drop the row.
    let mut reporter = CucumberReporter::new();
    reporter.add_feature(live_feature(vec![expanded_scenario(12, "value is 1")]));
    reporter.add_template(template_feature(Some(vec![vec!["v"], vec!["1"], vec!["2"]])));
    let model = reporter.finish();

    assert!(model.features.is_empty());
    assert!(model.index.features.is_empty());
    assert_eq!(model.failures.len(), 1);
    assert_eq!(model.failures[0].name, "Numbers");
    assert_eq!(model.failures[0].error, ReportError::ReconciliationError);
}

#[test]
fn missing_table_is_a_hard_error() {
    let mut reporter = CucumberReporter::new();
    reporter.add_feature(live_feature(vec![expanded_scenario(12, "value is 1")]));
    reporter.add_template(template_feature(None));
    let model = reporter.finish();

    assert_eq!(model.failures.len(), 1);
    assert_eq!(model.failures[0].error, ReportError::ReconciliationError);
}

#[test]
fn headerless_table_is_a_hard_error() {
    let mut reporter = CucumberReporter::new();
    reporter.add_feature(live_feature(vec![expanded_scenario(12, "value is 1")]));
    reporter.add_template(template_feature(Some(vec![])));
    let model = reporter.finish();

    assert_eq!(model.failures.len(), 1);
    assert_eq!(model.failures[0].error, ReportError::ReconciliationError);
}

#[test]
fn missing_template_is_a_hard_error() {
    // A feature with an outline expansion but no parsed template copy.
    let mut reporter = CucumberReporter::new();
    reporter.add_feature(live_feature(vec![expanded_scenario(12, "value is 1")]));
    let model = reporter.finish();

    assert_eq!(model.failures.len(), 1);
    assert_eq!(model.failures[0].error, ReportError::TemplateError);
}

#[test]
fn failing_feature_does_not_corrupt_others() {
    // One feature fails reconciliation; an unrelated plain feature still
    // renders, and the index lists only the success.
    let mut reporter = CucumberReporter::new();
    reporter.add_feature(live_feature(vec![expanded_scenario(12, "value is 1")]));
    reporter.add_feature(FeatureDoc {
        name: "Plain".to_string(),
        description: None,
        path: None,
        scenarios: vec![ScenarioDoc {
            name: "works".to_string(),
            description: None,
            steps: vec![step("Given ", "a fact")],
            examples: vec![],
            position_line: 3,
            span_start: 1,
            span_end: 2,
        }],
        rules: vec![],
    });
    let model = reporter.finish();

    assert_eq!(model.failures.len(), 1);
    assert_eq!(model.features.len(), 1);
    assert_eq!(model.features[0].name, "Plain");
    assert_eq!(model.index.features.len(), 1);
    assert_eq!(model.index.features[0].name, "Plain");
}
