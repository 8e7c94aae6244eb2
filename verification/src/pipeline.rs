//! The install pipeline: the program runs itself twice as a child, first to
//! build and package, then to install what the first child reported.

use vstd::prelude::*;
use crate::json::{json_string_member, read_string_member};
use crate::steps::{CommandLine, CommandLineView, no_args};
use crate::text::{has_substring, push_text, str_contains, texts};

verus! {

/// What became of a child invocation.
#[derive(Clone, Debug, PartialEq, Eq)]
pub enum ChildResult {
    /// The child could not be launched.
    NotStarted { cause: String },
    /// The child ran and exited; its two output streams were captured.
    Exited { success: bool, stdout: String, stderr: String },
}

/// The stage of the pipeline at which a child ran.
#[derive(Clone, Copy, Debug, PartialEq, Eq)]
pub enum Stage {
    Build,
    Move,
}

/// What went wrong with a child.
#[derive(Clone, Copy, Debug, PartialEq, Eq)]
pub enum Fault {
    /// It could not be launched.
    NotStarted,
    /// It exited without success.
    Failed,
    /// Its output is no JSON object with a string under `path`.
    OutputUnparsable,
}

/// A stage of the pipeline failed. `detail` is what is shown to the user:
/// the launch error, the child's error output, or its unparsable output.
#[derive(Clone, Debug, PartialEq, Eq)]
pub struct ChildPipelineFailed {
    pub stage: Stage,
    pub fault: Fault,
    pub detail: String,
}

/// `r` is the failure of `stage` by `fault`, with exactly this detail.
pub open spec fn failed_with<T>(
    r: Result<T, ChildPipelineFailed>,
    stage: Stage,
    fault: Fault,
    detail: Seq<char>,
) -> bool {
    r is Err && r->Err_0.stage == stage && r->Err_0.fault == fault && r->Err_0.detail@ == detail
}

/// The program was started from a build tree, where it is run through
/// the toolchain's `run` command.
pub open spec fn dev_mode(current_exe: Seq<char>) -> bool {
    has_substring(current_exe, "target"@)
}

/// The arguments by which the toolchain runs this program.
pub open spec fn self_args(current_exe: Seq<char>) -> Seq<Seq<char>> {
    if dev_mode(current_exe) {
        seq!["run"@, "--"@, "jk"@]
    } else {
        seq!["jk"@]
    }
}

/// The arguments of the build child.
pub open spec fn build_child_args(current_exe: Seq<char>, release: bool) -> Seq<Seq<char>> {
    if release {
        self_args(current_exe) + seq!["build"@, "--release"@, "--format"@, "json"@]
    } else {
        self_args(current_exe) + seq!["build"@, "--format"@, "json"@]
    }
}

/// The install child, for the plugin at `path`.
pub open spec fn move_child(current_exe: Seq<char>, path: Seq<char>) -> CommandLineView {
    CommandLineView { program: "cargo"@, args: self_args(current_exe) + seq!["mv"@, path], dir: None }
}

fn self_invocation(current_exe: &str) -> (r: Vec<String>)
    ensures
        texts(r@) == self_args(current_exe@),
{
    let mut args = no_args();
    if str_contains(current_exe, "target") {
        push_text(&mut args, "run");
        push_text(&mut args, "--");
    }
    push_text(&mut args, "jk");
    assert(texts(args@) =~= self_args(current_exe@));
    args
}

/// The first child: this program's build, in the requested mode, reporting
/// the packaged plugin as JSON.
pub fn install_command(release: bool, current_exe: &str) -> (r: CommandLine)
    ensures
        r@ == (CommandLineView {
            program: "cargo"@,
            args: build_child_args(current_exe@, release),
            dir: None,
        }),
{
    let mut args = self_invocation(current_exe);
    push_text(&mut args, "build");
    if release {
        push_text(&mut args, "--release");
    }
    push_text(&mut args, "--format");
    push_text(&mut args, "json");
    assert(texts(args@) =~= build_child_args(current_exe@, release));
    CommandLine { program: String::from_str("cargo"), args, dir: None }
}

/// What a child's result amounts to at `stage`: its standard output if it
/// ran and succeeded; else the failure, with the launch error or the child's
/// error output.
pub fn child_output(stage: Stage, result: &ChildResult) -> (r: Result<String, ChildPipelineFailed>)
    ensures
        match *result {
            ChildResult::NotStarted { cause } => failed_with(r, stage, Fault::NotStarted, cause@),
            ChildResult::Exited { success, stdout, stderr } => if success {
                r is Ok && r->Ok_0@ == stdout@
            } else {
                failed_with(r, stage, Fault::Failed, stderr@)
            },
        },
{
    match result {
        ChildResult::NotStarted { cause } => Err(
            ChildPipelineFailed { stage, fault: Fault::NotStarted, detail: cause.clone() },
        ),
        ChildResult::Exited { success, stdout, stderr } => {
            if *success {
                Ok(stdout.clone())
            } else {
                Err(ChildPipelineFailed { stage, fault: Fault::Failed, detail: stderr.clone() })
            }
        },
    }
}

/// The second child, from what the first one's output was parsed to: the
/// install of the plugin at `path`; without a path, the failure of the build
/// stage, with the output that could not be parsed.
pub fn move_command(current_exe: &str, stdout: &str, path: Option<String>) -> (r: Result<
    CommandLine,
    ChildPipelineFailed,
>)
    ensures
        match path {
            Some(p) => r is Ok && r->Ok_0@ == move_child(current_exe@, p@),
            None => failed_with(r, Stage::Build, Fault::OutputUnparsable, stdout@),
        },
{
    match path {
        Some(p) => {
            let mut args = self_invocation(current_exe);
            push_text(&mut args, "mv");
            push_text(&mut args, p.as_str());
            assert(texts(args@) =~= self_args(current_exe@) + seq!["mv"@, p@]);
            Ok(CommandLine { program: String::from_str("cargo"), args, dir: None })
        },
        None => Err(
            ChildPipelineFailed {
                stage: Stage::Build,
                fault: Fault::OutputUnparsable,
                detail: String::from_str(stdout),
            },
        ),
    }
}

/// What follows the build child: a failure if it did not run, did not
/// succeed, or printed no JSON object with a string under `path`; else the
/// install child for that path.
pub fn after_build(current_exe: &str, result: &ChildResult) -> (r: Result<
    CommandLine,
    ChildPipelineFailed,
>)
    ensures
        match *result {
            ChildResult::NotStarted { cause } => failed_with(
                r,
                Stage::Build,
                Fault::NotStarted,
                cause@,
            ),
            ChildResult::Exited { success, stdout, stderr } => if !success {
                failed_with(r, Stage::Build, Fault::Failed, stderr@)
            } else {
                match json_string_member(stdout@, "path"@) {
                    Some(p) => r is Ok && r->Ok_0@ == move_child(current_exe@, p),
                    None => failed_with(r, Stage::Build, Fault::OutputUnparsable, stdout@),
                }
            },
        },
{
    match child_output(Stage::Build, result) {
        Ok(stdout) => {
            let path = read_string_member(stdout.as_str(), "path");
            move_command(current_exe, stdout.as_str(), path)
        },
        Err(e) => Err(e),
    }
}

/// What follows the install child: the pipeline is done if it ran and
/// succeeded, and has failed otherwise.
pub fn after_move(result: &ChildResult) -> (r: Result<(), ChildPipelineFailed>)
    ensures
        match *result {
            ChildResult::NotStarted { cause } => failed_with(
                r,
                Stage::Move,
                Fault::NotStarted,
                cause@,
            ),
            ChildResult::Exited { success, stdout, stderr } => if success {
                r is Ok
            } else {
                failed_with(r, Stage::Move, Fault::Failed, stderr@)
            },
        },
{
    match child_output(Stage::Move, result) {
        Ok(_) => Ok(()),
        Err(e) => Err(e),
    }
}

} // verus!
