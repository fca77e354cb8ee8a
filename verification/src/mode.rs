//! Choosing the run mode: compile-and-run a standalone file, delegate to the
//! project build tool, or select a named binary of the project.

use vstd::prelude::*;
use crate::paths::normalize_source_path;
use crate::paths::normalized_source;

verus! {

/// How one invocation will be carried out.
pub enum RunType {
    /// Compile this source file, then run the result.
    SingleFile(String),
    /// Run the project's default binary through the build tool.
    CargoRun,
    /// Run the named binary of the project through the build tool.
    CargoMultiBin(String),
}

/// The mathematical shape of a `RunType`.
pub enum ModeView {
    SingleFile(Seq<char>),
    CargoRun,
    CargoMultiBin(Seq<char>),
}

impl DeepView for RunType {
    type V = ModeView;

    open spec fn deep_view(&self) -> ModeView {
        match self {
            RunType::SingleFile(f) => ModeView::SingleFile(f.deep_view()),
            RunType::CargoRun => ModeView::CargoRun,
            RunType::CargoMultiBin(b) => ModeView::CargoMultiBin(b.deep_view()),
        }
    }
}

/// The mode chosen for an invocation: inside a project every input names a
/// binary and no input means the default one; outside a project an input is a
/// source path to normalize, and no input leaves nothing to run.
pub open spec fn selected_mode(in_project: bool, input: Option<Seq<char>>) -> Option<ModeView> {
    if in_project {
        match input {
            Some(name) => Some(ModeView::CargoMultiBin(name)),
            None => Some(ModeView::CargoRun),
        }
    } else {
        match input {
            Some(path) => Some(ModeView::SingleFile(normalized_source(path))),
            None => None,
        }
    }
}

/// Choose the run mode from the project probe and the optional input.
pub fn select_run_type(in_project: bool, input: Option<String>) -> (r: Option<RunType>)
    ensures
        r.deep_view() == selected_mode(in_project, input.deep_view()),
{
    match input {
        Some(name) => {
            if in_project {
                Some(RunType::CargoMultiBin(name))
            } else {
                Some(RunType::SingleFile(normalize_source_path(name)))
            }
        },
        None => {
            if in_project {
                Some(RunType::CargoRun)
            } else {
                None
            }
        },
    }
}

} // verus!
