//! Aggregation engine for behaviour-driven test reports.
//!
//! The library consumes a stream of test-execution events (features, rules,
//! scenarios, steps and their outcomes), deduplicates the feature documents it
//! sees, tracks the last observed outcome of every step, reconciles expanded
//! scenario-outline rows with their un-expanded templates, and builds a
//! render-ready report model with per-feature statistics and a sorted index.

pub mod doc_model;
pub mod identity;
pub mod outcome;
pub mod render;
pub mod links;
pub mod order;
pub mod reconcile;
pub mod stats;
pub mod report;
pub mod reporter;

pub use doc_model::{ExamplesBlock, FeatureDoc, RuleDoc, ScenarioDoc, StepDoc};
pub use outcome::{OutcomeTracker, StepState};
pub use render::{
    ExampleRenderData, ExampleRowRenderData, FeatureFailure, FeatureRenderData,
    FeatureRenderStatsData, IndexRenderData, OutlineRenderData, ReportError, ReportModel,
    RuleRenderData, ScenarioFragment, ScenarioRenderData, StepRenderData,
};
pub use reporter::{
    CucumberReporter, EngineAction, FeatureEvent, ReporterEvent, RuleEvent, ScenarioEvent,
    StepEvent,
};
