//! The launch state machine. Each invocation is a short session: plan the
//! first action from the parsed arguments and the project probe, then feed
//! back the outcome of each action (a file check, a finished process, a spawn
//! failure) to obtain the next one, until an exit code is reached. The shell
//! around the library performs the actions; every decision is made here.

use vstd::prelude::*;
use crate::command::CommandLine;
use crate::command::CommandView;
use crate::command::cargo_args_of;
use crate::command::cargo_command;
use crate::command::compile_args_of;
use crate::command::compile_command;
use crate::command::target_args_of;
use crate::command::target_command;
use crate::mode::ModeView;
use crate::mode::RunType;
use crate::mode::select_run_type;
use crate::mode::selected_mode;
use crate::paths::staged_binary;
use crate::paths::staged_binary_path;

verus! {

/// The parsed command line: an optional input specifier and the optional
/// trailing arguments to forward to the launched program.
pub struct Args {
    pub input: Option<String>,
    pub carried_args: Option<Vec<String>>,
}

/// Where a launch stands between two actions.
pub enum LaunchState {
    /// Waiting for the file check of the source path.
    CheckingSource { source: String, out_path: String, carried: Option<Vec<String>> },
    /// Waiting for the compiler to finish.
    Compiling { out_path: String, carried: Option<Vec<String>> },
    /// Waiting for the staged binary to finish.
    RunningTarget { target: String },
    /// Waiting for the delegated build-tool run to finish.
    RunningCargo,
    /// The launch is over; nothing further may be spawned.
    Finished { code: u8 },
}

/// What the shell must do next.
pub enum Action {
    /// Check whether this path names a regular file, and report back.
    StatFile { path: String },
    /// Spawn this command with inherited standard streams, wait for it, and
    /// report back its success or the failure to spawn it.
    Spawn { command: CommandLine },
    /// Print the message, when one is given, to the error stream, and
    /// terminate the process with this code.
    ExitWith { code: u8, message: Option<String> },
}

/// The mathematical shape of a `LaunchState`.
pub enum StateView {
    CheckingSource { source: Seq<char>, out_path: Seq<char>, carried: Option<Seq<Seq<char>>> },
    Compiling { out_path: Seq<char>, carried: Option<Seq<Seq<char>>> },
    RunningTarget { target: Seq<char> },
    RunningCargo,
    Finished { code: u8 },
}

/// The mathematical shape of an `Action`.
pub enum ActionView {
    StatFile { path: Seq<char> },
    Spawn { command: CommandView },
    ExitWith { code: u8, message: Option<Seq<char>> },
}

impl DeepView for LaunchState {
    type V = StateView;

    open spec fn deep_view(&self) -> StateView {
        match self {
            LaunchState::CheckingSource { source, out_path, carried } => StateView::CheckingSource {
                source: source.deep_view(),
                out_path: out_path.deep_view(),
                carried: carried.deep_view(),
            },
            LaunchState::Compiling { out_path, carried } => StateView::Compiling {
                out_path: out_path.deep_view(),
                carried: carried.deep_view(),
            },
            LaunchState::RunningTarget { target } => StateView::RunningTarget {
                target: target.deep_view(),
            },
            LaunchState::RunningCargo => StateView::RunningCargo,
            LaunchState::Finished { code } => StateView::Finished { code: *code },
        }
    }
}

impl DeepView for Action {
    type V = ActionView;

    open spec fn deep_view(&self) -> ActionView {
        match self {
            Action::StatFile { path } => ActionView::StatFile { path: path.deep_view() },
            Action::Spawn { command } => ActionView::Spawn { command: command.deep_view() },
            Action::ExitWith { code, message } => ActionView::ExitWith {
                code: *code,
                message: message.deep_view(),
            },
        }
    }
}

/// The diagnostic printed when the source path is not a regular file.
pub open spec fn missing_file_message(path: Seq<char>) -> Seq<char> {
    "'"@ + path + "' is not a file"@
}

/// The diagnostic printed when a tool could not be spawned at all.
pub open spec fn spawn_failure_message(tool: Seq<char>, detail: Seq<char>) -> Seq<char> {
    "execute '"@ + tool + "' failed: "@ + detail
}

/// The diagnostic printed when there is neither a project nor an input.
pub open spec fn nothing_to_run_message() -> Seq<char> {
    "nothing to run"@
}

/// The first state and action of a launch, given its mode.
pub open spec fn start_spec(
    mode: ModeView,
    temp_dir: Seq<char>,
    carried: Option<Seq<Seq<char>>>,
) -> (StateView, ActionView) {
    match mode {
        ModeView::SingleFile(f) => (
            StateView::CheckingSource {
                source: f,
                out_path: staged_binary_path(temp_dir, f),
                carried,
            },
            ActionView::StatFile { path: f },
        ),
        ModeView::CargoRun => (
            StateView::RunningCargo,
            ActionView::Spawn {
                command: CommandView {
                    program: "cargo"@,
                    args: cargo_args_of(Seq::empty(), carried),
                },
            },
        ),
        ModeView::CargoMultiBin(b) => (
            StateView::RunningCargo,
            ActionView::Spawn {
                command: CommandView { program: "cargo"@, args: cargo_args_of(b, carried) },
            },
        ),
    }
}

/// The step taken once the source path has been checked: compile it when it
/// is a regular file, otherwise end at once with the operational-failure
/// code and a diagnostic.
pub open spec fn source_checked_spec(s: StateView, is_file: bool) -> (StateView, ActionView) {
    match s {
        StateView::CheckingSource { source, out_path, carried } => {
            if is_file {
                (
                    StateView::Compiling { out_path, carried },
                    ActionView::Spawn {
                        command: CommandView {
                            program: "rustc"@,
                            args: compile_args_of(out_path, source),
                        },
                    },
                )
            } else {
                (
                    StateView::Finished { code: 2 },
                    ActionView::ExitWith { code: 2, message: Some(missing_file_message(source)) },
                )
            }
        },
        _ => (s, ActionView::ExitWith { code: 2, message: None }),
    }
}

/// The step taken once a spawned process has finished. A successful
/// compilation leads to the run of the staged binary; a failed one ends the
/// launch with code 1 and no further spawn. A finished target or build-tool
/// run maps its success to code 0 and its failure to code 1.
pub open spec fn process_done_spec(s: StateView, success: bool) -> (StateView, ActionView) {
    match s {
        StateView::Compiling { out_path, carried } => {
            if success {
                (
                    StateView::RunningTarget { target: out_path },
                    ActionView::Spawn {
                        command: CommandView { program: out_path, args: target_args_of(carried) },
                    },
                )
            } else {
                (StateView::Finished { code: 1 }, ActionView::ExitWith { code: 1, message: None })
            }
        },
        StateView::RunningTarget { .. } | StateView::RunningCargo => {
            let code: u8 = if success {
                0
            } else {
                1
            };
            (StateView::Finished { code }, ActionView::ExitWith { code, message: None })
        },
        _ => (s, ActionView::ExitWith { code: 2, message: None }),
    }
}

/// The tool named in the diagnostic when a spawn fails.
pub open spec fn failed_tool_of(s: StateView) -> Seq<char> {
    match s {
        StateView::Compiling { .. } => "rustc"@,
        StateView::RunningTarget { target } => target,
        _ => "cargo run"@,
    }
}

/// The step taken when a process could not be spawned at all: end with the
/// operational-failure code and a diagnostic naming the tool.
pub open spec fn spawn_failed_spec(s: StateView, detail: Seq<char>) -> (StateView, ActionView) {
    (
        StateView::Finished { code: 2 },
        ActionView::ExitWith {
            code: 2,
            message: Some(spawn_failure_message(failed_tool_of(s), detail)),
        },
    )
}

/// The whole plan of an invocation: choose the mode, then start; when there
/// is nothing to run, end at once with a diagnostic.
pub open spec fn plan_spec(
    in_project: bool,
    input: Option<Seq<char>>,
    carried: Option<Seq<Seq<char>>>,
    temp_dir: Seq<char>,
) -> (StateView, ActionView) {
    match selected_mode(in_project, input) {
        Some(m) => start_spec(m, temp_dir, carried),
        None => (
            StateView::Finished { code: 2 },
            ActionView::ExitWith { code: 2, message: Some(nothing_to_run_message()) },
        ),
    }
}

/// Begin a launch in the given mode.
pub fn start(mode: RunType, temp_dir: &str, carried: Option<Vec<String>>) -> (r: (
    LaunchState,
    Action,
))
    ensures
        r.0.deep_view() == start_spec(mode.deep_view(), temp_dir@, carried.deep_view()).0,
        r.1.deep_view() == start_spec(mode.deep_view(), temp_dir@, carried.deep_view()).1,
{
    match mode {
        RunType::SingleFile(f) => {
            let out = staged_binary(temp_dir, f.as_str());
            let path = f.clone();
            (
                LaunchState::CheckingSource { source: f, out_path: out, carried },
                Action::StatFile { path },
            )
        },
        RunType::CargoRun => {
            let c = cargo_command("", &carried);
            proof {
                reveal_strlit("");
                assert(""@ =~= Seq::<char>::empty());
            }
            (LaunchState::RunningCargo, Action::Spawn { command: c })
        },
        RunType::CargoMultiBin(b) => {
            let c = cargo_command(b.as_str(), &carried);
            (LaunchState::RunningCargo, Action::Spawn { command: c })
        },
    }
}

/// Take the step that follows the file check of the source path.
pub fn on_source_checked(state: LaunchState, is_file: bool) -> (r: (LaunchState, Action))
    requires
        state is CheckingSource,
    ensures
        r.0.deep_view() == source_checked_spec(state.deep_view(), is_file).0,
        r.1.deep_view() == source_checked_spec(state.deep_view(), is_file).1,
{
    match state {
        LaunchState::CheckingSource { source, out_path, carried } => {
            if is_file {
                let c = compile_command(out_path.as_str(), source.as_str());
                (LaunchState::Compiling { out_path, carried }, Action::Spawn { command: c })
            } else {
                let mut m = String::from_str("'");
                m.append(source.as_str());
                m.append("' is not a file");
                proof {
                    assert(m@ =~= missing_file_message(source@));
                }
                (
                    LaunchState::Finished { code: 2 },
                    Action::ExitWith { code: 2, message: Some(m) },
                )
            }
        },
        _ => (LaunchState::Finished { code: 2 }, Action::ExitWith { code: 2, message: None }),
    }
}

/// Take the step that follows a finished process.
pub fn on_process_done(state: LaunchState, success: bool) -> (r: (LaunchState, Action))
    requires
        state is Compiling || state is RunningTarget || state is RunningCargo,
    ensures
        r.0.deep_view() == process_done_spec(state.deep_view(), success).0,
        r.1.deep_view() == process_done_spec(state.deep_view(), success).1,
{
    match state {
        LaunchState::Compiling { out_path, carried } => {
            if success {
                let c = target_command(out_path.as_str(), &carried);
                (LaunchState::RunningTarget { target: out_path }, Action::Spawn { command: c })
            } else {
                (LaunchState::Finished { code: 1 }, Action::ExitWith { code: 1, message: None })
            }
        },
        _ => {
            let code: u8 = if success {
                0
            } else {
                1
            };
            (LaunchState::Finished { code }, Action::ExitWith { code, message: None })
        },
    }
}

/// Take the step that follows a failure to spawn a process at all.
pub fn on_spawn_failed(state: LaunchState, detail: &str) -> (r: (LaunchState, Action))
    requires
        state is Compiling || state is RunningTarget || state is RunningCargo,
    ensures
        r.0.deep_view() == spawn_failed_spec(state.deep_view(), detail@).0,
        r.1.deep_view() == spawn_failed_spec(state.deep_view(), detail@).1,
{
    let tool: String = match &state {
        LaunchState::Compiling { .. } => String::from_str("rustc"),
        LaunchState::RunningTarget { target } => target.clone(),
        _ => String::from_str("cargo run"),
    };
    let mut m = String::from_str("execute '");
    m.append(tool.as_str());
    m.append("' failed: ");
    m.append(detail);
    proof {
        assert(m@ =~= spawn_failure_message(failed_tool_of(state.deep_view()), detail@));
    }
    (LaunchState::Finished { code: 2 }, Action::ExitWith { code: 2, message: Some(m) })
}

/// Plan an invocation from the parsed arguments, the project probe, and the
/// temp directory.
pub fn plan_invocation(in_project: bool, args: Args, temp_dir: &str) -> (r: (LaunchState, Action))
    ensures
        r.0.deep_view() == plan_spec(
            in_project,
            args.input.deep_view(),
            args.carried_args.deep_view(),
            temp_dir@,
        ).0,
        r.1.deep_view() == plan_spec(
            in_project,
            args.input.deep_view(),
            args.carried_args.deep_view(),
            temp_dir@,
        ).1,
{
    let Args { input, carried_args } = args;
    match select_run_type(in_project, input) {
        Some(mode) => start(mode, temp_dir, carried_args),
        None => {
            let m = String::from_str("nothing to run");
            (LaunchState::Finished { code: 2 }, Action::ExitWith { code: 2, message: Some(m) })
        },
    }
}

/// A source path that fails the file check ends the launch at once with the
/// operational-failure code, and no process is spawned.
pub proof fn lemma_missing_file_spawns_nothing(s: StateView)
    requires
        s is CheckingSource,
    ensures
        source_checked_spec(s, false).0 matches StateView::Finished { code } && code == 2,
        !(source_checked_spec(s, false).1 is Spawn),
{
}

/// When compilation reports failure, the staged binary is never spawned and
/// the launch ends with a code other than success.
pub proof fn lemma_failed_compile_never_runs(s: StateView)
    requires
        s is Compiling,
    ensures
        process_done_spec(s, false).0 matches StateView::Finished { code } && code != 0,
        !(process_done_spec(s, false).1 is Spawn),
{
}

/// When compilation succeeds, the staged binary is spawned, and the launch's
/// final code mirrors that run: success maps to 0, failure to 1.
pub proof fn lemma_exit_code_follows_target(s: StateView, target_success: bool)
    requires
        s is Compiling,
    ensures
        process_done_spec(s, true).0 is RunningTarget,
        process_done_spec(s, true).1 is Spawn,
        process_done_spec(process_done_spec(s, true).0, target_success).0 matches StateView::Finished {
            code,
        } && code == (if target_success {
            0u8
        } else {
            1u8
        }),
{
}

/// A delegated build-tool run maps the child's outcome straight to the exit
/// code: success to 0, failure to 1.
pub proof fn lemma_cargo_exit_code(success: bool)
    ensures
        process_done_spec(StateView::RunningCargo, success).0 matches StateView::Finished { code }
            && code == (if success {
            0u8
        } else {
            1u8
        }),
{
}

} // verus!
