//! Executing a build: the decisions between the tool's runs. The caller runs
//! the tool and prints; what to run, what to print and how the execution ends
//! is decided here, one step at a time.

use crate::config::render::push_all;
use crate::config::render::push_text;
use crate::config::{BuildConfiguration, SmithyBuild};
use crate::reflow::{join_fragments, join_spec, reflow, reflow_spec};
use vstd::prelude::*;
use vstd::string::*;
use vstd::utf8::{decode_utf8, encode_utf8, encode_utf8_decode_utf8, valid_utf8};

verus! {

/// Where an execution stands.
#[derive(Clone, Copy, Debug, PartialEq, Eq)]
pub enum BuildState {
    /// Configured, nothing run yet.
    Idle,
    /// The formatting pass is running.
    Formatting,
    /// The build is running.
    Building,
    /// The build ended with status zero.
    Succeeded,
    /// The build ended with another status.
    Failed,
    /// The tool could not be started.
    Aborted,
}

impl BuildState {
    /// How far an execution has come: nothing run, formatting, building, over.
    pub open spec fn stage(self) -> nat {
        match self {
            BuildState::Idle => 0,
            BuildState::Formatting => 1,
            BuildState::Building => 2,
            _ => 3,
        }
    }
}

/// Why an execution failed.
#[derive(Clone, Copy, Debug, PartialEq, Eq)]
pub enum BuildError {
    /// The tool ran and ended the build with a status other than zero.
    ExternalToolFailure,
}

/// What one run of the tool left behind.
#[derive(Debug, PartialEq, Eq)]
pub struct InvocationResult {
    /// What the tool wrote to its standard output.
    pub stdout: Vec<u8>,
    /// What the tool wrote to its standard error.
    pub stderr: Vec<u8>,
    /// The status the tool ended with; `None` where it was ended from
    /// outside and left none.
    pub status: Option<i32>,
}

/// An [`InvocationResult`] as plain values.
pub struct InvocationResultView {
    pub stdout: Seq<u8>,
    pub stderr: Seq<u8>,
    pub status: Option<i32>,
}

impl View for InvocationResult {
    type V = InvocationResultView;

    open spec fn view(&self) -> InvocationResultView {
        InvocationResultView { stdout: self.stdout@, stderr: self.stderr@, status: self.status }
    }
}

impl InvocationResultView {
    /// The run ended with status zero.
    pub open spec fn succeeded(self) -> bool {
        self.status == Some(0i32)
    }
}

impl InvocationResult {
    /// Whether the run ended with status zero.
    pub fn succeeded(&self) -> (ok: bool)
        ensures
            ok == self@.succeeded(),
    {
        match self.status {
            Some(code) => code == 0,
            None => false,
        }
    }
}

/// What happened since the last step.
#[derive(Debug, PartialEq, Eq)]
pub enum BuildEvent {
    /// The caller asks for the execution to begin.
    Start,
    /// The run that the last step asked for has ended.
    Exited(InvocationResult),
    /// The run that the last step asked for could not be started.
    LaunchFailed,
}

/// A [`BuildEvent`] as plain values.
pub enum BuildEventView {
    Start,
    Exited(InvocationResultView),
    LaunchFailed,
}

impl View for BuildEvent {
    type V = BuildEventView;

    open spec fn view(&self) -> BuildEventView {
        match self {
            BuildEvent::Start => BuildEventView::Start,
            BuildEvent::Exited(result) => BuildEventView::Exited(result@),
            BuildEvent::LaunchFailed => BuildEventView::LaunchFailed,
        }
    }
}

/// One run of the tool, for the caller to perform.
#[derive(Debug, PartialEq, Eq)]
pub struct Invocation {
    /// The program, looked up on the search path.
    pub program: String,
    /// Its arguments.
    pub args: Vec<String>,
    /// Its working directory.
    pub current_dir: String,
    /// Variables to add to its environment, in this order.
    pub env: Vec<(String, String)>,
}

/// An [`Invocation`] as plain values.
pub struct InvocationView {
    pub program: Seq<char>,
    pub args: Seq<Seq<char>>,
    pub current_dir: Seq<char>,
    pub env: Seq<(Seq<char>, Seq<char>)>,
}

impl View for Invocation {
    type V = InvocationView;

    open spec fn view(&self) -> InvocationView {
        InvocationView {
            program: self.program@,
            args: self.args.deep_view(),
            current_dir: self.current_dir@,
            env: self.env.deep_view(),
        }
    }
}

/// What the caller does after a step, once it has printed the step's lines.
#[derive(Debug, PartialEq, Eq)]
pub enum BuildAction {
    /// Run the tool and come back with `Exited` or `LaunchFailed`.
    Run(Invocation),
    /// The execution is over: hand this to whoever asked for it.
    Finish(Result<InvocationResult, BuildError>),
    /// The execution cannot go on: give up with this message.
    Abort(String),
}

/// A [`BuildAction`] as plain values.
pub enum BuildActionView {
    Run(InvocationView),
    Finish(Result<InvocationResultView, BuildError>),
    Abort(Seq<char>),
}

impl View for BuildAction {
    type V = BuildActionView;

    open spec fn view(&self) -> BuildActionView {
        match self {
            BuildAction::Run(invocation) => BuildActionView::Run(invocation@),
            BuildAction::Finish(Ok(result)) => BuildActionView::Finish(Ok(result@)),
            BuildAction::Finish(Err(error)) => BuildActionView::Finish(Err(*error)),
            BuildAction::Abort(message) => BuildActionView::Abort(message@),
        }
    }
}

/// One step of an execution.
#[derive(Debug, PartialEq, Eq)]
pub struct Transition {
    /// The state after the step.
    pub state: BuildState,
    /// Lines for the build system, to be printed in this order before the
    /// action is taken.
    pub lines: Vec<String>,
    /// What to do next.
    pub action: BuildAction,
}

/// A [`Transition`] as plain values.
pub struct TransitionView {
    pub state: BuildState,
    pub lines: Seq<Seq<char>>,
    pub action: BuildActionView,
}

impl View for Transition {
    type V = TransitionView;

    open spec fn view(&self) -> TransitionView {
        TransitionView { state: self.state, lines: self.lines.deep_view(), action: self.action@ }
    }
}

/// The name the tool is run by.
pub open spec fn program_name() -> Seq<char> {
    "smithy"@
}

/// The line that announces the formatting pass.
pub open spec fn formatting_banner() -> Seq<char> {
    "cargo:warning=\r   \x1b[32;1mFormatting\x1b[0m smithy models"@
}

/// What the line that reports on the build starts with.
pub open spec fn building_banner() -> Seq<char> {
    "cargo:warning=\r   \x1b[32;1mBuilding\x1b[0m smithy models \r\x0C\r\t"@
}

/// What stands between two fragments of reflowed output: a break that shows
/// as an indented continuation line.
pub open spec fn fragment_separator() -> Seq<char> {
    "\x0C\r\t"@
}

/// The line that reports the build's diagnostics: the banner, then the
/// reflowed text.
pub open spec fn report_line(diagnostics: Seq<char>) -> Seq<char> {
    building_banner() + join_spec(reflow_spec(diagnostics), fragment_separator())
}

/// The report on a build: one line where output is not suppressed or there
/// are diagnostics, and the diagnostics are text; nothing otherwise.
pub open spec fn report(quiet: bool, stderr: Seq<u8>) -> Seq<Seq<char>> {
    if (!quiet || stderr.len() > 0) && valid_utf8(stderr) {
        seq![report_line(decode_utf8(stderr))]
    } else {
        Seq::empty()
    }
}

/// The line that publishes the output directory to what is compiled later.
pub open spec fn publish_line(out_dir: Seq<char>) -> Seq<char> {
    "cargo:rustc-env=SMITHY_OUTPUT_DIR="@ + out_dir
}

/// What is said when the tool cannot be started in `state`.
pub open spec fn launch_failure(state: BuildState) -> Seq<char> {
    if state == BuildState::Formatting {
        "Failed to execute Smithy format"@
    } else {
        "Failed to execute Smithy build"@
    }
}

impl BuildConfiguration {
    /// A run of the tool with `args`, in the root path, with the configured
    /// environment.
    pub open spec fn invocation(self, args: Seq<Seq<char>>) -> InvocationView {
        InvocationView { program: program_name(), args, current_dir: self.path, env: self.env }
    }

    /// The step into the formatting pass.
    pub open spec fn enter_format(self, default_models: bool) -> TransitionView {
        TransitionView {
            state: BuildState::Formatting,
            lines: (if self.quiet {
                Seq::empty()
            } else {
                seq![formatting_banner()]
            }) + self.watch_directives(default_models),
            action: BuildActionView::Run(self.invocation(self.format_args(default_models))),
        }
    }

    /// The step into the build.
    pub open spec fn enter_build(self, default_models: bool) -> TransitionView {
        TransitionView {
            state: BuildState::Building,
            lines: self.watch_directives(default_models),
            action: BuildActionView::Run(self.invocation(self.build_args(default_models))),
        }
    }

    /// The step out of the build: the report, and on success the published
    /// output directory and the result; on failure the error.
    pub open spec fn leave_build(self, result: InvocationResultView) -> TransitionView {
        if result.succeeded() {
            TransitionView {
                state: BuildState::Succeeded,
                lines: report(self.quiet, result.stderr).push(publish_line(self.out_dir)),
                action: BuildActionView::Finish(Ok(result)),
            }
        } else {
            TransitionView {
                state: BuildState::Failed,
                lines: report(self.quiet, result.stderr),
                action: BuildActionView::Finish(Err(BuildError::ExternalToolFailure)),
            }
        }
    }

    /// The step taken in `state` on `event`, or `None` where the event has
    /// no place in the state.
    ///
    /// From `Idle`, `Start` leads into the formatting pass where one is
    /// configured, and straight into the build where none is. However the
    /// formatting pass ends, the build follows. The end of the build ends the
    /// execution. A run that cannot be started aborts it.
    pub open spec fn execute(
        self,
        state: BuildState,
        event: BuildEventView,
        default_models: bool,
    ) -> Option<TransitionView> {
        match (state, event) {
            (BuildState::Idle, BuildEventView::Start) => Some(
                if self.format {
                    self.enter_format(default_models)
                } else {
                    self.enter_build(default_models)
                },
            ),
            (BuildState::Formatting, BuildEventView::Exited(_)) => Some(
                self.enter_build(default_models),
            ),
            (BuildState::Building, BuildEventView::Exited(result)) => Some(
                self.leave_build(result),
            ),
            (BuildState::Formatting, BuildEventView::LaunchFailed) | (
                BuildState::Building,
                BuildEventView::LaunchFailed,
            ) => Some(
                TransitionView {
                    state: BuildState::Aborted,
                    lines: Seq::empty(),
                    action: BuildActionView::Abort(launch_failure(state)),
                },
            ),
            _ => None,
        }
    }
}

/// Decodes `bytes` with `std::str::from_utf8`: there is a text exactly when
/// the bytes are valid UTF-8, and it is the text that they encode.
#[verifier::external_body]
fn text_of(bytes: &[u8]) -> (text: Option<&str>)
    ensures
        text is Some <==> valid_utf8(bytes@),
        text matches Some(t) ==> encode_utf8(t@) == bytes@,
{
    std::str::from_utf8(bytes).ok()
}

/// The line that reports the build's diagnostics.
pub fn report_diagnostics(diagnostics: &str) -> (line: String)
    ensures
        line@ == report_line(diagnostics@),
{
    let fragments = reflow(diagnostics);
    let wrapped = join_fragments(&fragments, "\x0C\r\t");
    let mut line = String::from_str(
        "cargo:warning=\r   \x1b[32;1mBuilding\x1b[0m smithy models \r\x0C\r\t",
    );
    line.append(wrapped.as_str());
    line
}

/// The line that publishes the output directory.
pub fn publish_output_dir(out_dir: &str) -> (line: String)
    ensures
        line@ == publish_line(out_dir@),
{
    let mut line = String::from_str("cargo:rustc-env=SMITHY_OUTPUT_DIR=");
    line.append(out_dir);
    line
}

impl BuildError {
    /// The error in words.
    pub fn message(&self) -> (text: String)
        ensures
            text@ == "Smithy build failed"@,
    {
        String::from_str("Smithy build failed")
    }
}

impl SmithyBuild {
    /// A run of the tool with `args`.
    fn invocation(&self, args: Vec<String>) -> (invocation: Invocation)
        ensures
            invocation@ == self@.invocation(args.deep_view()),
    {
        let mut env: Vec<(String, String)> = Vec::new();
        for i in 0..self.env.len()
            invariant
                env.deep_view() == self.env.deep_view().take(i as int),
        {
            let ghost before = env.deep_view();
            env.push((self.env[i].0.clone(), self.env[i].1.clone()));
            assert(self.env.deep_view().take(i + 1) =~= before.push(
                self.env.deep_view()[i as int],
            ));
        }
        assert(self.env.deep_view().take(self.env.len() as int) =~= self.env.deep_view());
        Invocation {
            program: String::from_str("smithy"),
            args,
            current_dir: self.path.clone(),
            env,
        }
    }

    /// The step into the build.
    fn enter_build(&self, default_models: bool) -> (transition: Transition)
        ensures
            transition@ == self@.enter_build(default_models),
    {
        Transition {
            state: BuildState::Building,
            lines: self.watch_directives(default_models),
            action: BuildAction::Run(self.invocation(self.build_args(default_models))),
        }
    }

    /// The step into the formatting pass.
    fn enter_format(&self, default_models: bool) -> (transition: Transition)
        ensures
            transition@ == self@.enter_format(default_models),
    {
        let mut lines: Vec<String> = Vec::new();
        assert(lines.deep_view() =~= Seq::<Seq<char>>::empty());
        if !self.quiet {
            push_text(&mut lines, "cargo:warning=\r   \x1b[32;1mFormatting\x1b[0m smithy models");
        }
        let watch = self.watch_directives(default_models);
        push_all(&mut lines, &watch);
        Transition {
            state: BuildState::Formatting,
            lines,
            action: BuildAction::Run(self.invocation(self.format_args(default_models))),
        }
    }

    /// The step out of the build.
    fn leave_build(&self, result: InvocationResult) -> (transition: Transition)
        ensures
            transition@ == self@.leave_build(result@),
    {
        let mut lines: Vec<String> = Vec::new();
        if !self.quiet || result.stderr.len() > 0 {
            match text_of(result.stderr.as_slice()) {
                Some(text) => {
                    proof {
                        encode_utf8_decode_utf8(text@);
                    }
                    let line = report_diagnostics(text);
                    push_text(&mut lines, line.as_str());
                },
                None => {},
            }
        }
        assert(lines.deep_view() =~= report(self@.quiet, result@.stderr));
        if result.succeeded() {
            let line = publish_output_dir(self.out_dir.as_str());
            push_text(&mut lines, line.as_str());
            Transition {
                state: BuildState::Succeeded,
                lines,
                action: BuildAction::Finish(Ok(result)),
            }
        } else {
            Transition {
                state: BuildState::Failed,
                lines,
                action: BuildAction::Finish(Err(BuildError::ExternalToolFailure)),
            }
        }
    }

    /// Takes one step of the execution: in `state`, on `event`, says which
    /// state follows, what to print and what to do then. `default_models`
    /// says whether the default model directory exists. Returns `None` where
    /// `event` has no place in `state`.
    pub fn execute(&self, state: BuildState, event: BuildEvent, default_models: bool) -> (next:
        Option<Transition>)
        ensures
            match next {
                Some(transition) => self@.execute(state, event@, default_models) == Some(
                    transition@,
                ),
                None => self@.execute(state, event@, default_models).is_none(),
            },
            self@.rooted(),
    {
        proof {
            use_type_invariant(self);
        }
        match state {
            BuildState::Idle => match event {
                BuildEvent::Start => if self.format {
                    Some(self.enter_format(default_models))
                } else {
                    Some(self.enter_build(default_models))
                },
                _ => None,
            },
            BuildState::Formatting => match event {
                BuildEvent::Exited(_) => Some(self.enter_build(default_models)),
                BuildEvent::LaunchFailed => Some(
                    Transition {
                        state: BuildState::Aborted,
                        lines: empty_lines(),
                        action: BuildAction::Abort(
                            String::from_str("Failed to execute Smithy format"),
                        ),
                    },
                ),
                BuildEvent::Start => None,
            },
            BuildState::Building => match event {
                BuildEvent::Exited(result) => Some(self.leave_build(result)),
                BuildEvent::LaunchFailed => Some(
                    Transition {
                        state: BuildState::Aborted,
                        lines: empty_lines(),
                        action: BuildAction::Abort(
                            String::from_str("Failed to execute Smithy build"),
                        ),
                    },
                ),
                BuildEvent::Start => None,
            },
            _ => None,
        }
    }
}

/// No lines.
fn empty_lines() -> (lines: Vec<String>)
    ensures
        lines.deep_view() == Seq::<Seq<char>>::empty(),
{
    Vec::new()
}

/// Whether `line` sets a variable for what is compiled later.
pub open spec fn publishes(line: Seq<char>) -> bool {
    "cargo:rustc-env="@.is_prefix_of(line)
}

/// However the formatting pass ends, the build follows: the pass's result has
/// no part in the step.
pub proof fn lemma_formatting_never_blocks(
    config: BuildConfiguration,
    result: InvocationResultView,
    default_models: bool,
)
    ensures
        config.execute(BuildState::Formatting, BuildEventView::Exited(result), default_models)
            == Some(config.enter_build(default_models)),
        config.enter_build(default_models).state == BuildState::Building,
{
}

/// A build that ends with status zero succeeds: its result is handed on, and
/// the last line printed publishes the configured output directory.
pub proof fn lemma_success_publishes(
    config: BuildConfiguration,
    result: InvocationResultView,
    default_models: bool,
)
    requires
        result.status == Some(0i32),
    ensures
        config.execute(BuildState::Building, BuildEventView::Exited(result), default_models)
            is Some,
        ({
            let step = config.execute(
                BuildState::Building,
                BuildEventView::Exited(result),
                default_models,
            )->0;
            &&& step.state == BuildState::Succeeded
            &&& step.action == BuildActionView::Finish(Ok(result))
            &&& step.lines.len() > 0
            &&& step.lines.last() == publish_line(config.out_dir)
            &&& publishes(step.lines.last())
        }),
{
    assert("cargo:rustc-env="@.is_prefix_of(publish_line(config.out_dir))) by {
        reveal_strlit("cargo:rustc-env=");
        reveal_strlit("cargo:rustc-env=SMITHY_OUTPUT_DIR=");
    }
}

/// A build that ends with another status fails with `ExternalToolFailure`,
/// and nothing that is printed publishes a variable.
pub proof fn lemma_failure_publishes_nothing(
    config: BuildConfiguration,
    result: InvocationResultView,
    default_models: bool,
)
    requires
        result.status != Some(0i32),
    ensures
        config.execute(BuildState::Building, BuildEventView::Exited(result), default_models)
            is Some,
        ({
            let step = config.execute(
                BuildState::Building,
                BuildEventView::Exited(result),
                default_models,
            )->0;
            &&& step.state == BuildState::Failed
            &&& step.action == BuildActionView::Finish(Err(BuildError::ExternalToolFailure))
            &&& forall|i: int| 0 <= i < step.lines.len() ==> !publishes(#[trigger] step.lines[i])
        }),
{
    let step = config.leave_build(result);
    assert forall|i: int| 0 <= i < step.lines.len() implies !publishes(
        #[trigger] step.lines[i],
    ) by {
        reveal_strlit("cargo:rustc-env=");
        reveal_strlit("cargo:warning=\r   \x1b[32;1mBuilding\x1b[0m smithy models \r\x0C\r\t");
        let line = step.lines[i];
        assert(line[6] == 'w');
        if publishes(line) {
            assert(line.subrange(0, 16)[6] == 'r');
        }
    }
}

/// Whenever a step asks for a run, the lines printed before it end with the
/// file-watch directives for the paths that the run names: the run's
/// arguments end with the path arguments, and there is one directive for each.
pub proof fn lemma_runs_are_watched(
    config: BuildConfiguration,
    state: BuildState,
    event: BuildEventView,
    default_models: bool,
)
    requires
        config.execute(state, event, default_models) is Some,
        config.execute(state, event, default_models)->0.action is Run,
    ensures
        ({
            let step = config.execute(state, event, default_models)->0;
            let paths = config.path_args(default_models);
            let watch = config.watch_directives(default_models);
            &&& watch.len() == paths.len()
            &&& watch.is_suffix_of(step.lines)
            &&& paths.is_suffix_of(step.action->Run_0.args)
        }),
{
    lemma_entering_is_watched(config, default_models);
    let step = config.execute(state, event, default_models)->0;
    assert(step == config.enter_format(default_models) || step == config.enter_build(
        default_models,
    ));
}

/// Both steps that ask for a run print the file-watch directives last and
/// name the paths last.
proof fn lemma_entering_is_watched(config: BuildConfiguration, default_models: bool)
    ensures
        config.watch_directives(default_models).is_suffix_of(
            config.enter_format(default_models).lines,
        ),
        config.path_args(default_models).is_suffix_of(
            config.enter_format(default_models).action->Run_0.args,
        ),
        config.watch_directives(default_models).is_suffix_of(
            config.enter_build(default_models).lines,
        ),
        config.path_args(default_models).is_suffix_of(
            config.enter_build(default_models).action->Run_0.args,
        ),
{
    let paths = config.path_args(default_models);
    let watch = config.watch_directives(default_models);
    let banner = if config.quiet {
        Seq::empty()
    } else {
        seq![formatting_banner()]
    };
    lemma_ends_with(banner, watch);
    lemma_ends_with(Seq::empty(), watch);
    assert(Seq::<Seq<char>>::empty() + watch =~= watch);
    let format_head = seq!["build"@] + config.common_switches();
    assert(config.format_args(default_models) =~= format_head + paths);
    lemma_ends_with(format_head, paths);
    let build_head = config.build_options() + config.common_switches();
    assert(config.build_args(default_models) =~= build_head + paths);
    lemma_ends_with(build_head, paths);
}

/// What is put behind a sequence is what the result ends with.
proof fn lemma_ends_with(head: Seq<Seq<char>>, tail: Seq<Seq<char>>)
    ensures
        tail.is_suffix_of(head + tail),
{
    let whole = head + tail;
    assert(whole.subrange(whole.len() - tail.len(), whole.len() as int) =~= tail);
}

/// Every step takes the execution forward, and asks for a run exactly when
/// it enters the formatting pass or the build: the tool runs at most once for
/// each, and an execution is over after three steps at most.
pub proof fn lemma_steps_go_forward(
    config: BuildConfiguration,
    state: BuildState,
    event: BuildEventView,
    default_models: bool,
)
    requires
        config.execute(state, event, default_models) is Some,
    ensures
        ({
            let step = config.execute(state, event, default_models)->0;
            &&& state.stage() < step.state.stage()
            &&& step.action is Run <==> step.state == BuildState::Formatting || step.state
                == BuildState::Building
        }),
{
}

/// Once an execution is over, no event has a place in it.
pub proof fn lemma_terminal_states(
    config: BuildConfiguration,
    state: BuildState,
    event: BuildEventView,
    default_models: bool,
)
    requires
        state == BuildState::Succeeded || state == BuildState::Failed || state
            == BuildState::Aborted,
    ensures
        config.execute(state, event, default_models) is None,
{
}

} // verus!
