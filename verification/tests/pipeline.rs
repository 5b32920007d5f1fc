use hpptest::cli::parse_args;
use hpptest::enumerate::{enumerate_tests, FsNode};
use hpptest::invoke::plan_invocation;
use hpptest::outcome::{outcome_of, Color, TestResult};
use hpptest::summary::RunSummary;

fn file(path: &str) -> FsNode {
    FsNode::File { path: path.to_string() }
}

fn dir(path: &str, children: Vec<FsNode>) -> FsNode {
    FsNode::Dir { path: path.to_string(), children }
}

fn strings(names: &[&str]) -> Vec<String> {
    names.iter().map(|s| s.to_string()).collect()
}

#[test]
fn enumerate_finds_each_library_file_once() {
    let tree = dir(
        "/r",
        vec![
            file("/r/a.hpp"),
            file("/r/notes.txt"),
            dir(
                "/r/graph",
                vec![file("/r/graph/dijkstra.hpp"), dir("/r/graph/empty", vec![])],
            ),
            dir("/r/misc", vec![file("/r/misc/README")]),
            file("/r/b.hpp"),
        ],
    );
    let units = enumerate_tests(&tree);
    let libraries: Vec<&str> = units.iter().map(|t| t.library.as_str()).collect();
    assert_eq!(libraries, vec!["/r/a.hpp", "/r/graph/dijkstra.hpp", "/r/b.hpp"]);
    let projects: Vec<&str> = units.iter().map(|t| t.project.as_str()).collect();
    assert_eq!(projects, vec!["/r/a.test", "/r/graph/dijkstra.test", "/r/b.test"]);
}

#[test]
fn enumerate_ignores_non_library_entries() {
    let tree = dir("/r", vec![file("/r/x.cpp"), dir("/r/d", vec![file("/r/d/.hpp")])]);
    assert_eq!(enumerate_tests(&tree).len(), 0);
    let lone = file("/r/only.hpp");
    let units = enumerate_tests(&lone);
    assert_eq!(units.len(), 1);
    assert_eq!(units[0].library, "/r/only.hpp");
}

#[test]
fn outcome_classification() {
    assert_eq!(outcome_of(true, true), TestResult::Succeeded);
    assert_eq!(outcome_of(true, false), TestResult::Failed);
    assert_eq!(outcome_of(false, true), TestResult::NotFound);
    assert_eq!(outcome_of(false, false), TestResult::NotFound);
}

#[test]
fn labels_and_colors() {
    assert_eq!(TestResult::Succeeded.label(), "SUCCESS");
    assert_eq!(TestResult::Failed.label(), "FAILURE");
    assert_eq!(TestResult::NotFound.label(), "MISSING");
    assert_eq!(TestResult::Succeeded.get_color(), Color::LightGreen);
    assert_eq!(TestResult::Failed.get_color(), Color::Red);
    assert_eq!(TestResult::NotFound.get_color(), Color::Yellow);
}

#[test]
fn summary_counters_add_up() {
    let mut s = RunSummary::new();
    s.record(TestResult::Succeeded);
    s.record(TestResult::Failed);
    s.record(TestResult::NotFound);
    s.record(TestResult::Succeeded);
    assert_eq!(s.succeeded, 2);
    assert_eq!(s.failed, 1);
    assert_eq!(s.not_found, 1);
    assert_eq!(s.total(), 4);
    assert!(s.run_failed());
}

#[test]
fn scenario_single_unit_succeeds() {
    let tree = dir("/r", vec![file("/r/a.hpp")]);
    let units = enumerate_tests(&tree);
    assert_eq!(units.len(), 1);
    assert_eq!(units[0].project, "/r/a.test");
    // the test project exists and its tool exits 0
    let outcome = outcome_of(true, true);
    assert_eq!(outcome.label(), "SUCCESS");
    let mut s = RunSummary::new();
    s.record(outcome);
    assert_eq!(s.total(), 1);
    assert_eq!(s.not_found, 0);
    assert_eq!(s.succeeded, 1);
    assert_eq!(s.failed, 0);
    assert!(!s.run_failed());
}

#[test]
fn scenario_missing_project_skips_without_failing() {
    let tree = dir("/r", vec![file("/r/b.hpp")]);
    let units = enumerate_tests(&tree);
    assert_eq!(units.len(), 1);
    // no /r/b.test directory exists: no tool is run
    let outcome = outcome_of(false, false);
    assert_eq!(outcome, TestResult::NotFound);
    let mut s = RunSummary::new();
    s.record(outcome);
    assert_eq!(s.total(), 1);
    assert_eq!(s.not_found, 1);
    assert!(!s.run_failed());
}

#[test]
fn scenario_failing_tool_fails_the_run() {
    let tree = dir("/r", vec![file("/r/c.hpp")]);
    let units = enumerate_tests(&tree);
    assert_eq!(units.len(), 1);
    // the tool exits 1
    let outcome = outcome_of(true, false);
    assert_eq!(outcome, TestResult::Failed);
    let mut s = RunSummary::new();
    s.record(outcome);
    assert!(s.run_failed());
}

#[test]
fn defaults_follow_terminal_detection() {
    let cfg = parse_args(&strings(&[]), true).unwrap();
    assert!(cfg.colorize);
    assert!(cfg.force);
    assert!(!cfg.simple);
    let cfg = parse_args(&strings(&[]), false).unwrap();
    assert!(!cfg.colorize);
}

#[test]
fn color_flags_override_detection() {
    let cfg = parse_args(&strings(&["--color=always"]), false).unwrap();
    assert!(cfg.colorize);
    let cfg = parse_args(&strings(&["--color=none"]), true).unwrap();
    assert!(!cfg.colorize);
    let cfg = parse_args(&strings(&["--color=none", "--color=auto"]), true).unwrap();
    assert!(!cfg.colorize);
}

#[test]
fn unknown_argument_is_reported_by_position() {
    let r = parse_args(&strings(&["--simple", "--frobnicate"]), true);
    assert_eq!(r.unwrap_err(), 1);
    let r = parse_args(&strings(&["oops"]), true);
    assert_eq!(r.unwrap_err(), 0);
}

#[test]
fn no_force_omits_rebuild_flag() {
    let cfg = parse_args(&strings(&["--no-force"]), true).unwrap();
    assert!(!cfg.force);
    let inv = plan_invocation(cfg.force, cfg.simple);
    assert_eq!(inv.program, "procon-assistant");
    assert_eq!(inv.args, vec!["--quiet".to_string(), "run".to_string()]);
    assert!(!inv.args.iter().any(|a| a == "--force"));

    let short = parse_args(&strings(&["-n"]), true).unwrap();
    assert!(!short.force);

    let default_inv = plan_invocation(true, false);
    assert_eq!(
        default_inv.args,
        vec!["--quiet".to_string(), "run".to_string(), "--force".to_string()]
    );
}

#[test]
fn simple_suppresses_stderr() {
    let cfg = parse_args(&strings(&["--simple"]), true).unwrap();
    assert!(cfg.simple);
    assert!(plan_invocation(cfg.force, cfg.simple).suppress_stderr);
    let short = parse_args(&strings(&["-s"]), true).unwrap();
    assert!(short.simple);
    assert!(!plan_invocation(true, false).suppress_stderr);
}
