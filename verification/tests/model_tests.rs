use cucumber_reporter::order::{sort_entries, string_le};
use cucumber_reporter::render::FeatureRenderStatsData;
use cucumber_reporter::{
    CucumberReporter, EngineAction, FeatureDoc, FeatureEvent, ReportModel, ReporterEvent,
    RuleDoc, RuleEvent, ScenarioDoc, ScenarioEvent, ScenarioFragment, StepDoc, StepEvent,
    StepState,
};

fn step(keyword: &str, text: &str) -> StepDoc {
    StepDoc { keyword: keyword.to_string(), text: text.to_string(), table: None }
}

fn plain_scenario(name: &str, line: usize, steps: Vec<StepDoc>) -> ScenarioDoc {
    ScenarioDoc {
        name: name.to_string(),
        description: None,
        steps,
        examples: vec![],
        position_line: line,
        span_start: line * 10,
        span_end: line * 10 + 5,
    }
}

fn plain_feature(name: &str) -> FeatureDoc {
    FeatureDoc {
        name: name.to_string(),
        description: None,
        path: None,
        scenarios: vec![plain_scenario("s", 3, vec![step("Given ", "a fact")])],
        rules: vec![],
    }
}

fn state_name(st: &StepState) -> &'static str {
    match st {
        StepState::Passed => "Passed",
        StepState::Failed => "Failed",
        StepState::NotRun => "NotRun",
    }
}

fn fingerprint(model: &ReportModel) -> String {
    let mut out = String::new();
    for page in &model.features {
        out.push_str(&format!("feature {} [{}]\n", page.name, page.description));
        for (fragment, tag) in page
            .scenarios
            .iter()
            .map(|f| (f, "top"))
            .chain(page.rules.iter().flat_map(|r| r.scenarios.iter().map(move |f| (f, "rule"))))
        {
            match fragment {
                ScenarioFragment::Plain(sc) => {
                    out.push_str(&format!("  {} plain {}\n", tag, sc.name));
                    for st in &sc.steps {
                        out.push_str(&format!(
                            "    {} {} {}\n",
                            st.step_type,
                            st.step_template,
                            state_name(&st.step_state)
                        ));
                    }
                },
                ScenarioFragment::Outline(o) => {
                    out.push_str(&format!("  {} outline {}\n", tag, o.name));
                    for ex in &o.examples {
                        out.push_str(&format!("    ex {:?}\n", ex.headers));
                        for row in &ex.rows {
                            out.push_str(&format!(
                                "      row {:?} {}\n",
                                row.example,
                                state_name(&row.example_state)
                            ));
                        }
                    }
                },
                ScenarioFragment::AlreadyRendered => out.push_str("  repeat\n"),
            }
        }
    }
    for fail in &model.failures {
        out.push_str(&format!("failure {} {:?}\n", fail.name, fail.error));
    }
    for entry in &model.index.features {
        out.push_str(&format!(
            "index {} {} {} {} {} {} {}\n",
            entry.name,
            entry.link,
            entry.nr_scenarios,
            entry.nr_rules,
            entry.nr_steps,
            entry.nr_errors,
            entry.nr_skipped
        ));
    }
    out
}

fn stats_feature() -> FeatureDoc {
    FeatureDoc {
        name: "Stats".to_string(),
        description: Some("checks the numbers".to_string()),
        path: None,
        scenarios: vec![
            plain_scenario(
                "a",
                3,
                vec![step("Given ", "a1"), step("When ", "a2"), step("Then ", "a3")],
            ),
            plain_scenario(
                "b",
                8,
                vec![step("Given ", "b1"), step("When ", "b2"), step("Then ", "b3")],
            ),
        ],
        rules: vec![RuleDoc {
            name: "r".to_string(),
            description: None,
            scenarios: vec![plain_scenario(
                "c",
                14,
                vec![step("Given ", "c1"), step("Then ", "c2")],
            )],
        }],
    }
}

fn feed_stats_events(reporter: &mut CucumberReporter) {
    let passed = [
        ("Given ", "a1"),
        ("When ", "a2"),
        ("Then ", "a3"),
        ("Given ", "b1"),
        ("Then ", "b3"),
    ];
    for (kw, text) in passed {
        let act = reporter.handle_event(ReporterEvent::Feature(
            stats_feature(),
            FeatureEvent::Scenario(ScenarioEvent::Step(step(kw, text), StepEvent::Passed)),
        ));
        assert!(matches!(act, EngineAction::Proceed));
    }
    reporter.handle_event(ReporterEvent::Feature(
        stats_feature(),
        FeatureEvent::Scenario(ScenarioEvent::Step(step("When ", "b2"), StepEvent::Failed)),
    ));
    for (kw, text) in [("Given ", "c1"), ("Then ", "c2")] {
        reporter.handle_event(ReporterEvent::Feature(
            stats_feature(),
            FeatureEvent::Rule(RuleEvent::Scenario(ScenarioEvent::Step(
                step(kw, text),
                StepEvent::Passed,
            ))),
        ));
    }
    let act = reporter.handle_event(ReporterEvent::Finished);
    assert!(matches!(act, EngineAction::BuildReport));
}

#[test]
fn stats_are_recomputed_from_the_tree() {
    // 2 plain scenarios of 3 steps (one failing) and 1 rule with a 2-step
    // scenario: scenarioCount 3, ruleCount 1, stepCount 8, errorCount 1.
    let mut reporter = CucumberReporter::new();
    feed_stats_events(&mut reporter);
    let model = reporter.finish();

    assert!(model.failures.is_empty());
    assert_eq!(model.index.features.len(), 1);
    let entry = &model.index.features[0];
    assert_eq!(entry.name, "Stats");
    assert_eq!(entry.nr_scenarios, 3);
    assert_eq!(entry.nr_rules, 1);
    assert_eq!(entry.nr_steps, 8);
    assert_eq!(entry.nr_errors, 1);
    assert_eq!(entry.nr_skipped, 0);
    assert_eq!(entry.description, "checks the numbers");
}

#[test]
fn skipped_steps_count_as_not_run() {
    // A step never concluded stays NotRun and counts as skipped.
    let mut reporter = CucumberReporter::new();
    reporter.add_feature(stats_feature());
    reporter.add_step(&step("Given ", "a1"), StepState::Passed);
    let model = reporter.finish();
    let entry = &model.index.features[0];
    assert_eq!(entry.nr_steps, 8);
    assert_eq!(entry.nr_errors, 0);
    assert_eq!(entry.nr_skipped, 7);
}

#[test]
fn build_is_deterministic() {
    // The same event sequence produces byte-identical report content.
    let mut first = CucumberReporter::new();
    feed_stats_events(&mut first);
    let mut second = CucumberReporter::new();
    feed_stats_events(&mut second);
    assert_eq!(fingerprint(&first.finish()), fingerprint(&second.finish()));
}

#[test]
fn duplicate_documents_are_stored_once() {
    // The same document content offered twice: one store entry, one index
    // entry.
    let mut reporter = CucumberReporter::new();
    reporter.handle_event(ReporterEvent::Feature(plain_feature("Only"), FeatureEvent::Other));
    reporter.handle_event(ReporterEvent::Feature(plain_feature("Only"), FeatureEvent::Other));
    let model = reporter.finish();
    assert_eq!(model.features.len(), 1);
    assert_eq!(model.index.features.len(), 1);
    assert_eq!(model.index.features[0].name, "Only");
}

#[test]
fn index_is_sorted_by_name() {
    // Zebra, Apple, Mango render as Apple, Mango, Zebra.
    let mut reporter = CucumberReporter::new();
    for name in ["Zebra", "Apple", "Mango"] {
        reporter.handle_event(ReporterEvent::Feature(plain_feature(name), FeatureEvent::Other));
    }
    let model = reporter.finish();
    let names: Vec<&str> = model.index.features.iter().map(|e| e.name.as_str()).collect();
    assert_eq!(names, vec!["Apple", "Mango", "Zebra"]);
}

#[test]
fn links_are_sanitized_filenames() {
    // The page link passes the feature name through the filename sanitizer.
    let mut reporter = CucumberReporter::new();
    reporter.add_feature(plain_feature("foo/bar"));
    let model = reporter.finish();
    assert_eq!(model.index.features[0].link, "foo_bar.html");
}

#[test]
fn plain_link_keeps_its_name() {
    let mut reporter = CucumberReporter::new();
    reporter.add_feature(plain_feature("simple"));
    let model = reporter.finish();
    assert_eq!(model.index.features[0].link, "simple.html");
}

#[test]
fn counters_follow_events() {
    let mut reporter = CucumberReporter::new();
    feed_stats_events(&mut reporter);
    // 8 step events, one per step, each inside a scenario event; 2 of them
    // under the rule; one failed; none skipped.
    assert_eq!(reporter.nr_steps(), 8);
    assert_eq!(reporter.nr_scenarios(), 8);
    assert_eq!(reporter.nr_rules(), 2);
    assert_eq!(reporter.nr_errors(), 1);
    assert_eq!(reporter.nr_skipped(), 0);
}

#[test]
fn skipped_event_only_bumps_the_counter() {
    let mut reporter = CucumberReporter::new();
    reporter.handle_event(ReporterEvent::Feature(
        plain_feature("Skips"),
        FeatureEvent::Scenario(ScenarioEvent::Step(step("Given ", "a fact"), StepEvent::Skipped)),
    ));
    assert_eq!(reporter.nr_skipped(), 1);
    let model = reporter.finish();
    // The step was skipped, never concluded: its tracked outcome is NotRun.
    let page = &model.features[0];
    match &page.scenarios[0] {
        ScenarioFragment::Plain(sc) => {
            assert_eq!(sc.steps[0].step_state, StepState::NotRun);
        },
        _ => panic!("expected a plain scenario"),
    }
}

#[test]
fn string_order_is_case_sensitive_by_code_point() {
    assert!(string_le("Apple", "Mango"));
    assert!(!string_le("Zebra", "Apple"));
    assert!(string_le("Apple", "Apple"));
    assert!(string_le("", "Apple"));
    assert!(!string_le("Apple", ""));
    // Upper case sorts before lower case by code point.
    assert!(string_le("Zebra", "apple"));
    assert!(string_le("ab", "abc"));
}

fn entry(name: &str, link: &str) -> FeatureRenderStatsData {
    FeatureRenderStatsData {
        name: name.to_string(),
        link: link.to_string(),
        description: String::new(),
        nr_scenarios: 0,
        nr_rules: 0,
        nr_steps: 0,
        nr_errors: 0,
        nr_skipped: 0,
    }
}

#[test]
fn step_tables_are_carried_through() {
    let mut reporter = CucumberReporter::new();
    reporter.add_feature(FeatureDoc {
        name: "Tables".to_string(),
        description: None,
        path: None,
        scenarios: vec![ScenarioDoc {
            name: "with data".to_string(),
            description: None,
            steps: vec![StepDoc {
                keyword: "Given ".to_string(),
                text: "these values".to_string(),
                table: Some(vec![
                    vec!["a".to_string(), "b".to_string()],
                    vec!["1".to_string(), "2".to_string()],
                ]),
            }],
            examples: vec![],
            position_line: 3,
            span_start: 1,
            span_end: 2,
        }],
        rules: vec![],
    });
    let model = reporter.finish();
    match &model.features[0].scenarios[0] {
        ScenarioFragment::Plain(sc) => {
            let table = sc.steps[0].step_table.as_ref().expect("table expected");
            assert_eq!(table.len(), 2);
            assert_eq!(table[0], vec!["a".to_string(), "b".to_string()]);
            assert_eq!(table[1], vec!["1".to_string(), "2".to_string()]);
        }
        _ => panic!("expected a plain scenario"),
    }
}

#[test]
fn rule_scenarios_render_under_the_rule() {
    let mut reporter = CucumberReporter::new();
    reporter.add_feature(stats_feature());
    reporter.add_step(&step("Given ", "c1"), StepState::Passed);
    let model = reporter.finish();
    let page = &model.features[0];
    assert_eq!(page.rules.len(), 1);
    assert_eq!(page.rules[0].name, "r");
    match &page.rules[0].scenarios[0] {
        ScenarioFragment::Plain(sc) => {
            assert_eq!(sc.name, "c");
            assert_eq!(sc.steps.len(), 2);
            assert_eq!(sc.steps[0].step_state, StepState::Passed);
            assert_eq!(sc.steps[1].step_state, StepState::NotRun);
        }
        _ => panic!("expected a plain scenario under the rule"),
    }
}

#[test]
fn sort_entries_is_stable() {
    let sorted = sort_entries(vec![
        entry("b", "b1"),
        entry("a", "a1"),
        entry("b", "b2"),
        entry("a", "a2"),
    ]);
    let keys: Vec<(&str, &str)> =
        sorted.iter().map(|e| (e.name.as_str(), e.link.as_str())).collect();
    assert_eq!(keys, vec![("a", "a1"), ("a", "a2"), ("b", "b1"), ("b", "b2")]);
}
