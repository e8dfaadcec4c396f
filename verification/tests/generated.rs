use smithy_cargo::config::execute::{
    BuildAction, BuildEvent, BuildState, InvocationResult,
};
use smithy_cargo::generated::{generated_dir, inclusions, splice, Entry, InclusionError};
use smithy_cargo::SmithyBuild;

/// What the code generator of the demonstration writes for its `Rectangle` shape.
#[derive(Debug)]
struct Rectangle {
    width: i32,
    height: i32,
}

/// What the code generator of the demonstration writes for its `Generated` shape.
#[derive(Debug)]
struct Generated {
    a: i32,
}

fn file(path: &str) -> Entry {
    Entry { path: path.to_string(), is_file: true }
}

fn directory(path: &str) -> Entry {
    Entry { path: path.to_string(), is_file: false }
}

/// Runs a build to its end against a tool that succeeds, and gives back the
/// output directory that was published.
fn published_by_a_successful_build(build: &SmithyBuild) -> String {
    let mut state = BuildState::Idle;
    let mut event = BuildEvent::Start;
    let mut published = None;
    loop {
        let step = build.execute(state, event, false).unwrap();
        for line in &step.lines {
            if let Some(value) = line.strip_prefix("cargo:rustc-env=SMITHY_OUTPUT_DIR=") {
                published = Some(value.to_string());
            }
        }
        state = step.state;
        match step.action {
            BuildAction::Run(_) => {
                event = BuildEvent::Exited(InvocationResult {
                    stdout: Vec::new(),
                    stderr: Vec::new(),
                    status: Some(0),
                });
            }
            BuildAction::Finish(result) => {
                assert!(result.is_ok());
                assert_eq!(state, BuildState::Succeeded);
                return published.unwrap();
            }
            BuildAction::Abort(message) => panic!("{}", message),
        }
    }
}

#[test]
fn test_added_demo() {
    let mut build = SmithyBuild::new("/work", Some("/work/target/out"), None);
    build.projection("source").plugin("test-rust-codegen");
    let out_dir = published_by_a_successful_build(&build);
    let dir = generated_dir(Some(&out_dir), "source", "test-rust-codegen").unwrap();
    assert_eq!(dir, "/work/target/out/smithy/source/test-rust-codegen/");

    let found = vec![
        directory(&dir),
        file(&format!("{}rectangle.rs", dir)),
        file(&format!("{}generated.rs", dir)),
    ];
    let lines = inclusions(&found).unwrap();
    assert!(lines.contains(
        &"include!(\"/work/target/out/smithy/source/test-rust-codegen/rectangle.rs\");".to_string()
    ));

    let shape = Rectangle { width: 52, height: 50 };
    assert_eq!(shape.width, 52);
    assert_eq!(shape.height, 50);
}

#[test]
fn test_added_other() {
    let mut build = SmithyBuild::new("/work", Some("/work/target/out"), None);
    build.projection("source").plugin("test-rust-codegen");
    let out_dir = published_by_a_successful_build(&build);
    let dir = generated_dir(Some(&out_dir), "source", "test-rust-codegen").unwrap();

    let found = vec![
        directory(&dir),
        file(&format!("{}rectangle.rs", dir)),
        file(&format!("{}generated.rs", dir)),
    ];
    let lines = inclusions(&found).unwrap();
    assert!(lines.contains(
        &"include!(\"/work/target/out/smithy/source/test-rust-codegen/generated.rs\");".to_string()
    ));

    let generated = Generated { a: 2 };
    assert_eq!(generated.a, 2);
}

#[test]
fn generated_dir_is_made_of_output_directory_projection_and_plugin() {
    assert_eq!(
        generated_dir(Some("/out/smithy"), "source", "demo"),
        Ok("/out/smithy/source/demo/".to_string())
    );
    assert_eq!(generated_dir(Some(""), "", ""), Ok("///".to_string()));
}

#[test]
fn generated_dir_needs_a_published_output_directory() {
    assert_eq!(generated_dir(None, "source", "demo"), Err(InclusionError::MissingGeneratedOutput));
}

#[test]
fn splice_quotes_the_path() {
    assert_eq!(splice("/out/a.rs"), "include!(\"/out/a.rs\");");
    assert_eq!(splice(""), "include!(\"\");");
}

#[test]
fn inclusions_take_the_regular_files_in_the_order_found() {
    let found = vec![
        directory("/out/source/demo/"),
        file("/out/source/demo/b.rs"),
        directory("/out/source/demo/nested"),
        file("/out/source/demo/nested/a.rs"),
        file("/out/source/demo/c.rs"),
    ];
    assert_eq!(
        inclusions(&found),
        Ok(vec![
            "include!(\"/out/source/demo/b.rs\");".to_string(),
            "include!(\"/out/source/demo/nested/a.rs\");".to_string(),
            "include!(\"/out/source/demo/c.rs\");".to_string(),
        ])
    );
}

#[test]
fn inclusions_of_nothing_is_an_error() {
    assert_eq!(inclusions(&Vec::new()), Err(InclusionError::MissingGeneratedOutput));
}

#[test]
fn inclusions_of_directories_alone_is_an_error() {
    let found = vec![directory("/out/source/demo/"), directory("/out/source/demo/nested")];
    assert_eq!(inclusions(&found), Err(InclusionError::MissingGeneratedOutput));
}

#[test]
fn a_successful_build_and_the_resolution_after_it_agree() {
    let mut build = SmithyBuild::new("/work", None, None);
    build.projection("source").plugin("demo");
    let out_dir = published_by_a_successful_build(&build);
    assert_eq!(out_dir, "/work/target/smithy");
    assert_eq!(build.build_args(false)[2], out_dir);

    let dir = generated_dir(Some(&out_dir), "source", "demo").unwrap();
    assert_eq!(dir, "/work/target/smithy/source/demo/");
    let found = vec![
        directory(&dir),
        file("/work/target/smithy/source/demo/first.rs"),
        file("/work/target/smithy/source/demo/second.rs"),
    ];
    assert_eq!(
        inclusions(&found).unwrap(),
        vec![
            "include!(\"/work/target/smithy/source/demo/first.rs\");".to_string(),
            "include!(\"/work/target/smithy/source/demo/second.rs\");".to_string(),
        ]
    );
}
