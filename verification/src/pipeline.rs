//! The order of one invocation.
//!
//! An invocation either belongs to a project or does not. Where it does not,
//! the wrapped tool is run on the arguments as they were given. Where it
//! does, the project's root is sought, its configuration is resolved, the
//! entry file is transformed if the arguments ask for a build, the arguments
//! are rewritten, and the wrapped tool is run on them. Each of these is work
//! for the caller; what is decided here is which comes next.

use crate::modify_args::{entry_point, entry_point_from, has_write};
use crate::text::texts;
use vstd::prelude::*;

verus! {

/// What has happened last.
#[derive(Debug, Clone, Copy, PartialEq, Eq, Structural)]
pub enum Progress {
    /// Nothing yet.
    Started,
    /// The project's root was sought.
    RootSought { found: bool },
    /// The configuration was read and resolved.
    ConfigResolved { resolved: bool },
    /// The entry file was handed to the transform tool.
    Transformed { compiled: bool },
    /// The wrapped tool ran and exited; `code` is its exit code, where it has
    /// one.
    Exited { success: bool, code: Option<i32> },
}

/// Why an invocation is given up.
#[derive(Debug, Clone, Copy, PartialEq, Eq, Structural)]
pub enum Fatal {
    /// No directory above the entry point is a project.
    ProjectNotFound,
    /// The configuration could not be resolved.
    ConfigUnresolved,
    /// The transform failed.
    TransformFailed,
}

/// What is to be done next.
#[derive(Debug, Clone, Copy, PartialEq, Eq, Structural)]
pub enum Step {
    /// Run the wrapped tool on the arguments as given, with all its streams
    /// passed through.
    RunPlain,
    /// Seek the project's root above the entry point.
    SeekRoot,
    /// Read and resolve the configuration.
    Resolve,
    /// Transform the entry file into the build output.
    Transform,
    /// Rewrite the arguments and run the wrapped tool on them, with its
    /// standard error handed on and kept.
    RunRewritten,
    /// End with success.
    Succeed,
    /// End with the given exit code.
    ExitWith(u8),
    /// Give up.
    Abort(Fatal),
}

/// The exit code that a failed run of the wrapped tool ends the invocation
/// with: its own, brought into the range of exit codes, or 1 where it has
/// none.
pub open spec fn clamped(code: Option<i32>) -> u8 {
    match code {
        None => 1u8,
        Some(code) => if code < 0 {
            0u8
        } else if code > 255 {
            255u8
        } else {
            code as u8
        },
    }
}

/// The step that follows on `progress` in an invocation with the given
/// arguments.
pub open spec fn step_after(progress: Progress, args: Seq<Seq<char>>) -> Step {
    match progress {
        Progress::Started => if entry_point_from(args, 0) is Some {
            Step::SeekRoot
        } else {
            Step::RunPlain
        },
        Progress::RootSought { found } => if found {
            Step::Resolve
        } else {
            Step::Abort(Fatal::ProjectNotFound)
        },
        Progress::ConfigResolved { resolved } => if !resolved {
            Step::Abort(Fatal::ConfigUnresolved)
        } else if args.contains("--write"@) {
            Step::Transform
        } else {
            Step::RunRewritten
        },
        Progress::Transformed { compiled } => if compiled {
            Step::RunRewritten
        } else {
            Step::Abort(Fatal::TransformFailed)
        },
        Progress::Exited { success, code } => if success {
            Step::Succeed
        } else {
            Step::ExitWith(clamped(code))
        },
    }
}

/// The exit code for a failed run of the wrapped tool.
pub fn exit_code(code: Option<i32>) -> (r: u8)
    ensures
        r == clamped(code),
{
    match code {
        None => 1,
        Some(code) => if code < 0 {
            0
        } else if code > 255 {
            255
        } else {
            code as u8
        },
    }
}

/// Decides what is to be done next.
pub fn next_step(progress: Progress, args: &Vec<String>) -> (step: Step)
    ensures
        step == step_after(progress, texts(args@)),
{
    match progress {
        Progress::Started => if entry_point(args).is_some() {
            Step::SeekRoot
        } else {
            Step::RunPlain
        },
        Progress::RootSought { found } => if found {
            Step::Resolve
        } else {
            Step::Abort(Fatal::ProjectNotFound)
        },
        Progress::ConfigResolved { resolved } => if !resolved {
            Step::Abort(Fatal::ConfigUnresolved)
        } else if has_write(args) {
            Step::Transform
        } else {
            Step::RunRewritten
        },
        Progress::Transformed { compiled } => if compiled {
            Step::RunRewritten
        } else {
            Step::Abort(Fatal::TransformFailed)
        },
        Progress::Exited { success, code } => if success {
            Step::Succeed
        } else {
            Step::ExitWith(exit_code(code))
        },
    }
}

/// No failure is passed over: after a root that was not found, a
/// configuration that was not resolved or a transform that failed, the
/// invocation is given up, whatever the arguments.
pub proof fn law_failures_abort(progress: Progress, args: Seq<Seq<char>>)
    requires
        progress == (Progress::RootSought { found: false }) || progress == (
        Progress::ConfigResolved { resolved: false }) || progress == (Progress::Transformed {
            compiled: false,
        }),
    ensures
        step_after(progress, args) is Abort,
{
}

/// The wrapped tool is run in every invocation that is not given up: each
/// step that is neither an end nor the giving up is followed, after success
/// of the work it asks for, by a further step, and the last of them runs the
/// tool.
pub proof fn law_success_leads_to_run(args: Seq<Seq<char>>)
    ensures
        step_after(Progress::Started, args) is RunPlain || step_after(Progress::Started, args)
            is SeekRoot,
        step_after(Progress::RootSought { found: true }, args) is Resolve,
        step_after(Progress::ConfigResolved { resolved: true }, args) is Transform || step_after(
            Progress::ConfigResolved { resolved: true },
            args,
        ) is RunRewritten,
        step_after(Progress::Transformed { compiled: true }, args) is RunRewritten,
{
}

} // verus!
