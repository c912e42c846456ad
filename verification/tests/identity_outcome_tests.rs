use cucumber_reporter::identity::{scenario_id, step_id};
use cucumber_reporter::outcome::OutcomeTracker;
use cucumber_reporter::render::{row_state, trim_spaces, StepRenderData};
use cucumber_reporter::{StepDoc, StepState};

fn step(keyword: &str, text: &str) -> StepDoc {
    StepDoc { keyword: keyword.to_string(), text: text.to_string(), table: None }
}

fn step_with_table(keyword: &str, text: &str, table: Vec<Vec<&str>>) -> StepDoc {
    StepDoc {
        keyword: keyword.to_string(),
        text: text.to_string(),
        table: Some(
            table
                .into_iter()
                .map(|r| r.into_iter().map(|c| c.to_string()).collect())
                .collect(),
        ),
    }
}

#[test]
fn identity_stable_across_parses() {
    // Two separately constructed steps with the same content: same key.
    let a = step("Given", "a fact");
    let b = step("Given", "a fact");
    assert_eq!(step_id(&a), step_id(&b));
}

#[test]
fn identity_depends_on_text() {
    let a = step("Given", "a fact");
    let b = step("Given", "another fact");
    assert_ne!(step_id(&a), step_id(&b));
}

#[test]
fn identity_depends_on_keyword() {
    let a = step("Given", "a fact");
    let b = step("When", "a fact");
    assert_ne!(step_id(&a), step_id(&b));
}

#[test]
fn identity_depends_on_table() {
    let a = step("Given", "a fact");
    let b = step_with_table("Given", "a fact", vec![vec!["x"]]);
    let c = step_with_table("Given", "a fact", vec![vec!["y"]]);
    assert_ne!(step_id(&a), step_id(&b));
    assert_ne!(step_id(&b), step_id(&c));
}

#[test]
fn identity_empty_table_differs_from_none() {
    let a = step("Given", "a fact");
    let b = step_with_table("Given", "a fact", vec![]);
    assert_ne!(step_id(&a), step_id(&b));
}

#[test]
fn scenario_identity_stable() {
    assert_eq!(scenario_id("Outline", 7, 99), scenario_id("Outline", 7, 99));
    assert_ne!(scenario_id("Outline", 7, 99), scenario_id("Outline", 7, 98));
    assert_ne!(scenario_id("Outline", 7, 99), scenario_id("Other", 7, 99));
}

#[test]
fn lookup_defaults_to_not_run() {
    // A step never mentioned in any event yields NotRun.
    let tracker = OutcomeTracker::new();
    let never_recorded = step_id(&step("Given", "a step that never ran"));
    assert_eq!(tracker.lookup(never_recorded), StepState::NotRun);
}

#[test]
fn last_write_wins() {
    let mut tracker = OutcomeTracker::new();
    let id = step_id(&step("When", "it runs"));
    tracker.record(id, StepState::Passed);
    tracker.record(id, StepState::Failed);
    assert_eq!(tracker.lookup(id), StepState::Failed);
}

#[test]
fn keyword_is_trimmed() {
    let rendered = StepRenderData::new(&step("  Given \t", "a fact"), StepState::Passed);
    assert_eq!(rendered.step_type, "Given");
    assert_eq!(rendered.step_template, "a fact");
    assert_eq!(rendered.step_state, StepState::Passed);
    assert!(rendered.step_table.is_none());
}

#[test]
fn trim_handles_edges() {
    assert_eq!(trim_spaces("Given "), "Given");
    assert_eq!(trim_spaces("   "), "");
    assert_eq!(trim_spaces(""), "");
    assert_eq!(trim_spaces("a b"), "a b");
    assert_eq!(trim_spaces("\r\n x \t"), "x");
}

fn rendered(states: Vec<StepState>) -> Vec<StepRenderData> {
    states
        .into_iter()
        .map(|st| StepRenderData::new(&step("Given", "s"), st))
        .collect()
}

#[test]
fn row_state_failed_dominates() {
    let steps = rendered(vec![StepState::Passed, StepState::Failed]);
    assert_eq!(row_state(&steps), StepState::Failed);
}

#[test]
fn row_state_all_passed() {
    let steps = rendered(vec![StepState::Passed, StepState::Passed]);
    assert_eq!(row_state(&steps), StepState::Passed);
}

#[test]
fn row_state_not_run_without_failure() {
    // Documented policy: a mixed Passed/NotRun row without a failure is
    // NotRun — the explicit default, not an accident.
    let steps = rendered(vec![StepState::Passed, StepState::NotRun]);
    assert_eq!(row_state(&steps), StepState::NotRun);
}

#[test]
fn row_state_empty_is_passed() {
    let steps = rendered(vec![]);
    assert_eq!(row_state(&steps), StepState::Passed);
}
