use smithy_cargo::config::execute::{
    publish_output_dir, report_diagnostics, BuildAction, BuildError, BuildEvent, BuildState,
    Invocation, InvocationResult, Transition,
};
use smithy_cargo::SmithyBuild;

const FORMATTING: &str = "cargo:warning=\r   \x1b[32;1mFormatting\x1b[0m smithy models";
const BUILDING: &str = "cargo:warning=\r   \x1b[32;1mBuilding\x1b[0m smithy models \r\x0C\r\t";

fn texts(args: &[&str]) -> Vec<String> {
    args.iter().map(|arg| arg.to_string()).collect()
}

fn exited(status: Option<i32>, stderr: &[u8]) -> InvocationResult {
    InvocationResult { stdout: b"out".to_vec(), stderr: stderr.to_vec(), status }
}

fn demo() -> SmithyBuild {
    let mut build = SmithyBuild::new("/work", Some("/out"), None);
    build.projection("source").plugin("demo");
    build
}

fn run(_build: &SmithyBuild, args: &[&str]) -> BuildAction {
    BuildAction::Run(Invocation {
        program: "smithy".to_string(),
        args: texts(args),
        current_dir: "/work".to_string(),
        env: Vec::new(),
    })
}

const DEMO_BUILD: [&str; 8] = [
    "build",
    "--output",
    "/out/smithy",
    "--projection",
    "source",
    "--plugin",
    "demo",
    "--force-color",
];

#[test]
fn start_leads_into_the_formatting_pass() {
    let build = demo();
    let step = build.execute(BuildState::Idle, BuildEvent::Start, false).unwrap();
    assert_eq!(
        step,
        Transition {
            state: BuildState::Formatting,
            lines: texts(&[FORMATTING]),
            action: run(&build, &["build"]),
        }
    );
}

#[test]
fn a_quiet_start_announces_nothing() {
    let mut build = demo();
    build.quiet();
    let step = build.execute(BuildState::Idle, BuildEvent::Start, false).unwrap();
    assert_eq!(step.state, BuildState::Formatting);
    assert!(step.lines.is_empty());
    assert_eq!(step.action, run(&build, &["build", "--quiet"]));
}

#[test]
fn the_formatting_pass_watches_the_paths_it_names() {
    let mut build = demo();
    build.model("extra.smithy");
    let step = build.execute(BuildState::Idle, BuildEvent::Start, true).unwrap();
    assert_eq!(
        step.lines,
        texts(&[
            FORMATTING,
            "cargo:rerun-if-changed=model/",
            "cargo:rerun-if-changed=extra.smithy",
        ])
    );
    assert_eq!(step.action, run(&build, &["build", "model/", "extra.smithy"]));
}

#[test]
fn the_build_follows_a_formatting_pass_that_succeeded() {
    let build = demo();
    let step = build
        .execute(BuildState::Formatting, BuildEvent::Exited(exited(Some(0), b"")), false)
        .unwrap();
    assert_eq!(
        step,
        Transition {
            state: BuildState::Building,
            lines: Vec::new(),
            action: run(&build, &DEMO_BUILD),
        }
    );
}

#[test]
fn the_build_follows_a_formatting_pass_that_failed() {
    let build = demo();
    for status in [Some(1), Some(-1), Some(127), None] {
        let step = build
            .execute(
                BuildState::Formatting,
                BuildEvent::Exited(exited(status, b"formatting went wrong")),
                false,
            )
            .unwrap();
        assert_eq!(
            step,
            Transition {
                state: BuildState::Building,
                lines: Vec::new(),
                action: run(&build, &DEMO_BUILD),
            }
        );
    }
}

#[test]
fn the_build_watches_the_paths_it_names() {
    let mut build = demo();
    build.model("extra.smithy");
    let step = build
        .execute(BuildState::Formatting, BuildEvent::Exited(exited(Some(0), b"")), true)
        .unwrap();
    assert_eq!(
        step.lines,
        texts(&["cargo:rerun-if-changed=model/", "cargo:rerun-if-changed=extra.smithy"])
    );
    let mut args = texts(&DEMO_BUILD);
    args.push("model/".to_string());
    args.push("extra.smithy".to_string());
    match step.action {
        BuildAction::Run(invocation) => assert_eq!(invocation.args, args),
        other => panic!("expected a run, got {:?}", other),
    }
}

#[test]
fn a_run_gets_root_path_and_environment() {
    let mut build = SmithyBuild::new("/work", None, None).path("/work", "api");
    build.env("JAVA_HOME", "/opt/java").env("SMITHY_OPTS", "-x").env("JAVA_HOME", "/opt/other");
    let step = build.execute(BuildState::Idle, BuildEvent::Start, false).unwrap();
    match step.action {
        BuildAction::Run(invocation) => {
            assert_eq!(invocation.program, "smithy");
            assert_eq!(invocation.current_dir, "/work/api");
            assert_eq!(
                invocation.env,
                vec![
                    ("JAVA_HOME".to_string(), "/opt/java".to_string()),
                    ("SMITHY_OPTS".to_string(), "-x".to_string()),
                    ("JAVA_HOME".to_string(), "/opt/other".to_string()),
                ]
            );
        }
        other => panic!("expected a run, got {:?}", other),
    }
}

#[test]
fn a_build_that_ends_with_zero_succeeds_and_publishes() {
    let build = demo();
    let step = build
        .execute(BuildState::Building, BuildEvent::Exited(exited(Some(0), b"")), false)
        .unwrap();
    assert_eq!(
        step,
        Transition {
            state: BuildState::Succeeded,
            lines: texts(&[BUILDING, "cargo:rustc-env=SMITHY_OUTPUT_DIR=/out/smithy"]),
            action: BuildAction::Finish(Ok(exited(Some(0), b""))),
        }
    );
}

#[test]
fn a_build_that_ends_with_one_fails_and_publishes_nothing() {
    let build = demo();
    let step = build
        .execute(BuildState::Building, BuildEvent::Exited(exited(Some(1), b"ERROR: bad model")), false)
        .unwrap();
    assert_eq!(
        step,
        Transition {
            state: BuildState::Failed,
            lines: vec![format!("{}ERROR: bad model", BUILDING)],
            action: BuildAction::Finish(Err(BuildError::ExternalToolFailure)),
        }
    );
    assert!(step.lines.iter().all(|line| !line.starts_with("cargo:rustc-env=")));
}

#[test]
fn a_build_that_was_ended_from_outside_fails() {
    let build = demo();
    let step = build
        .execute(BuildState::Building, BuildEvent::Exited(exited(None, b"")), false)
        .unwrap();
    assert_eq!(step.state, BuildState::Failed);
    assert_eq!(step.action, BuildAction::Finish(Err(BuildError::ExternalToolFailure)));
    assert_eq!(step.lines, texts(&[BUILDING]));
}

#[test]
fn the_report_reflows_the_diagnostics() {
    let build = demo();
    let long = "x".repeat(85);
    let stderr = format!("first line\n{}\nlast", long);
    let step = build
        .execute(BuildState::Building, BuildEvent::Exited(exited(Some(0), stderr.as_bytes())), false)
        .unwrap();
    let report = format!(
        "{}first line\x0C\r\t{}\x0C\r\t{}\x0C\r\tlast",
        BUILDING,
        "x".repeat(80),
        "x".repeat(5)
    );
    assert_eq!(step.lines, vec![report, "cargo:rustc-env=SMITHY_OUTPUT_DIR=/out/smithy".to_string()]);
}

#[test]
fn a_quiet_build_without_diagnostics_reports_nothing() {
    let mut build = demo();
    build.quiet();
    let step = build
        .execute(BuildState::Building, BuildEvent::Exited(exited(Some(0), b"")), false)
        .unwrap();
    assert_eq!(step.lines, texts(&["cargo:rustc-env=SMITHY_OUTPUT_DIR=/out/smithy"]));
    assert_eq!(step.state, BuildState::Succeeded);
}

#[test]
fn a_quiet_build_still_reports_its_diagnostics() {
    let mut build = demo();
    build.quiet();
    let step = build
        .execute(BuildState::Building, BuildEvent::Exited(exited(Some(1), b"ERROR: bad")), false)
        .unwrap();
    assert_eq!(step.lines, vec![format!("{}ERROR: bad", BUILDING)]);
    assert_eq!(step.state, BuildState::Failed);
}

#[test]
fn diagnostics_that_are_no_text_are_not_reported() {
    let build = demo();
    let step = build
        .execute(BuildState::Building, BuildEvent::Exited(exited(Some(0), &[b'a', 0xff, b'b'])), false)
        .unwrap();
    assert_eq!(step.lines, texts(&["cargo:rustc-env=SMITHY_OUTPUT_DIR=/out/smithy"]));
    let step = build
        .execute(BuildState::Building, BuildEvent::Exited(exited(Some(2), &[0xc3])), false)
        .unwrap();
    assert!(step.lines.is_empty());
    assert_eq!(step.action, BuildAction::Finish(Err(BuildError::ExternalToolFailure)));
}

#[test]
fn diagnostics_are_decoded_as_utf8() {
    let build = demo();
    let step = build
        .execute(
            BuildState::Building,
            BuildEvent::Exited(exited(Some(1), "Fehler: ungültig → ß".as_bytes())),
            false,
        )
        .unwrap();
    assert_eq!(step.lines, vec![format!("{}Fehler: ungültig → ß", BUILDING)]);
}

#[test]
fn the_result_of_a_successful_build_is_handed_on() {
    let build = demo();
    let result = InvocationResult {
        stdout: b"Smithy built 2 projections".to_vec(),
        stderr: b"warning".to_vec(),
        status: Some(0),
    };
    let step = build.execute(BuildState::Building, BuildEvent::Exited(result), false).unwrap();
    match step.action {
        BuildAction::Finish(Ok(result)) => {
            assert_eq!(result.stdout, b"Smithy built 2 projections".to_vec());
            assert_eq!(result.stderr, b"warning".to_vec());
            assert_eq!(result.status, Some(0));
            assert!(result.succeeded());
        }
        other => panic!("expected success, got {:?}", other),
    }
}

#[test]
fn only_status_zero_is_success() {
    assert!(exited(Some(0), b"").succeeded());
    assert!(!exited(Some(1), b"").succeeded());
    assert!(!exited(Some(-1), b"").succeeded());
    assert!(!exited(Some(256), b"").succeeded());
    assert!(!exited(None, b"").succeeded());
}

#[test]
fn a_tool_that_cannot_be_started_aborts_the_execution() {
    let build = demo();
    let step = build.execute(BuildState::Formatting, BuildEvent::LaunchFailed, false).unwrap();
    assert_eq!(
        step,
        Transition {
            state: BuildState::Aborted,
            lines: Vec::new(),
            action: BuildAction::Abort("Failed to execute Smithy format".to_string()),
        }
    );
    let step = build.execute(BuildState::Building, BuildEvent::LaunchFailed, false).unwrap();
    assert_eq!(
        step,
        Transition {
            state: BuildState::Aborted,
            lines: Vec::new(),
            action: BuildAction::Abort("Failed to execute Smithy build".to_string()),
        }
    );
}

#[test]
fn events_out_of_place_are_turned_down() {
    let build = demo();
    assert_eq!(build.execute(BuildState::Idle, BuildEvent::LaunchFailed, false), None);
    assert_eq!(build.execute(BuildState::Idle, BuildEvent::Exited(exited(Some(0), b"")), false), None);
    assert_eq!(build.execute(BuildState::Formatting, BuildEvent::Start, false), None);
    assert_eq!(build.execute(BuildState::Building, BuildEvent::Start, false), None);
    for state in [BuildState::Succeeded, BuildState::Failed, BuildState::Aborted] {
        assert_eq!(build.execute(state, BuildEvent::Start, false), None);
        assert_eq!(build.execute(state, BuildEvent::LaunchFailed, false), None);
        assert_eq!(build.execute(state, BuildEvent::Exited(exited(Some(0), b"")), false), None);
    }
}

#[test]
fn an_execution_runs_the_tool_once_for_each_phase() {
    let build = demo();
    let mut state = BuildState::Idle;
    let mut event = BuildEvent::Start;
    let mut runs = Vec::new();
    let outcome = loop {
        let step = build.execute(state, event, false).unwrap();
        state = step.state;
        match step.action {
            BuildAction::Run(invocation) => {
                runs.push(invocation.args);
                event = BuildEvent::Exited(exited(Some(0), b""));
            }
            BuildAction::Finish(outcome) => break outcome,
            BuildAction::Abort(message) => panic!("{}", message),
        }
    };
    assert_eq!(runs, vec![texts(&["build"]), texts(&DEMO_BUILD)]);
    assert_eq!(state, BuildState::Succeeded);
    assert_eq!(outcome, Ok(exited(Some(0), b"")));
}

#[test]
fn an_execution_against_a_failing_tool_ends_in_failure() {
    let build = demo();
    let mut state = BuildState::Idle;
    let mut event = BuildEvent::Start;
    let mut printed = Vec::new();
    let outcome = loop {
        let step = build.execute(state, event, false).unwrap();
        state = step.state;
        printed.extend(step.lines);
        match step.action {
            BuildAction::Run(_) => event = BuildEvent::Exited(exited(Some(1), b"")),
            BuildAction::Finish(outcome) => break outcome,
            BuildAction::Abort(message) => panic!("{}", message),
        }
    };
    assert_eq!(outcome, Err(BuildError::ExternalToolFailure));
    assert_eq!(state, BuildState::Failed);
    assert_eq!(printed, texts(&[FORMATTING, BUILDING]));
}

#[test]
fn report_diagnostics_joins_the_fragments_after_the_banner() {
    assert_eq!(report_diagnostics(""), BUILDING);
    assert_eq!(report_diagnostics("a\nb"), format!("{}a\x0C\r\tb", BUILDING));
    let line = "y".repeat(80);
    assert_eq!(report_diagnostics(&line), format!("{}{}", BUILDING, line));
    let longer = "y".repeat(81);
    assert_eq!(report_diagnostics(&longer), format!("{}{}\x0C\r\ty", BUILDING, line));
}

#[test]
fn publish_output_dir_names_the_variable() {
    assert_eq!(publish_output_dir("/out/smithy"), "cargo:rustc-env=SMITHY_OUTPUT_DIR=/out/smithy");
}

#[test]
fn the_error_in_words() {
    assert_eq!(BuildError::ExternalToolFailure.message(), "Smithy build failed");
}
