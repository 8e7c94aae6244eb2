//! The vocabulary in which the planners speak to their caller: command lines
//! to launch and filesystem steps to perform.

use vstd::prelude::*;
use crate::text::texts;

verus! {

/// A process to launch and wait for.
#[derive(Clone, Debug, PartialEq, Eq)]
pub struct CommandLine {
    pub program: String,
    pub args: Vec<String>,
    /// The working directory; the caller's own where `None`.
    pub dir: Option<String>,
}

pub struct CommandLineView {
    pub program: Seq<char>,
    pub args: Seq<Seq<char>>,
    pub dir: Option<Seq<char>>,
}

impl View for CommandLine {
    type V = CommandLineView;

    open spec fn view(&self) -> CommandLineView {
        CommandLineView {
            program: self.program@,
            args: texts(self.args@),
            dir: match self.dir {
                Some(d) => Some(d@),
                None => None,
            },
        }
    }
}

/// One action on the outside world. Each either succeeds or fails as a whole.
#[derive(Clone, Debug, PartialEq, Eq)]
pub enum Step {
    /// Delete the directory and all below it; succeeds at once if it is absent.
    RemoveTree { path: String },
    /// Create the directory and its missing ancestors.
    CreateDirs { path: String },
    /// Create or replace the file with exactly these bytes.
    WriteFile { path: String, contents: Vec<u8> },
    /// Copy one file, replacing the destination.
    CopyFile { from: String, to: String },
    /// Copy a directory and all below it, replacing the destination.
    CopyTree { from: String, to: String },
    /// Move a file to a new name; the old name is gone afterwards.
    Rename { from: String, to: String },
    /// Launch a process and wait; it succeeds if it exits with success.
    Run { command: CommandLine },
}

pub enum StepView {
    RemoveTree { path: Seq<char> },
    CreateDirs { path: Seq<char> },
    WriteFile { path: Seq<char>, contents: Seq<u8> },
    CopyFile { from: Seq<char>, to: Seq<char> },
    CopyTree { from: Seq<char>, to: Seq<char> },
    Rename { from: Seq<char>, to: Seq<char> },
    Run { command: CommandLineView },
}

impl View for Step {
    type V = StepView;

    open spec fn view(&self) -> StepView {
        match *self {
            Step::RemoveTree { path } => StepView::RemoveTree { path: path@ },
            Step::CreateDirs { path } => StepView::CreateDirs { path: path@ },
            Step::WriteFile { path, contents } => StepView::WriteFile {
                path: path@,
                contents: contents@,
            },
            Step::CopyFile { from, to } => StepView::CopyFile { from: from@, to: to@ },
            Step::CopyTree { from, to } => StepView::CopyTree { from: from@, to: to@ },
            Step::Rename { from, to } => StepView::Rename { from: from@, to: to@ },
            Step::Run { command } => StepView::Run { command: command@ },
        }
    }
}

/// Views of a sequence of steps, element by element.
pub open spec fn steps_view(v: Seq<Step>) -> Seq<StepView> {
    Seq::new(v.len(), |i: int| v[i]@)
}

/// The view of a step that launches `program` with `args`.
pub open spec fn run_view(program: Seq<char>, args: Seq<Seq<char>>, dir: Option<Seq<char>>) -> StepView {
    StepView::Run { command: CommandLineView { program, args, dir } }
}

/// An empty argument list.
pub(crate) fn no_args() -> (r: Vec<String>)
    ensures
        texts(r@) == Seq::<Seq<char>>::empty(),
{
    let r: Vec<String> = Vec::new();
    assert(texts(r@) =~= Seq::<Seq<char>>::empty());
    r
}

/// An empty plan.
pub(crate) fn no_steps() -> (r: Vec<Step>)
    ensures
        steps_view(r@) == Seq::<StepView>::empty(),
{
    let r: Vec<Step> = Vec::new();
    assert(steps_view(r@) =~= Seq::<StepView>::empty());
    r
}

/// Appends `step` to `plan`.
pub(crate) fn push_step(plan: &mut Vec<Step>, step: Step)
    ensures
        steps_view(final(plan)@) == steps_view(old(plan)@).push(step@),
{
    plan.push(step);
    assert(steps_view(plan@) =~= steps_view(old(plan)@).push(step@));
}

/// Appends to `plan` the launch of `program` with `args`.
pub(crate) fn push_run(plan: &mut Vec<Step>, program: &str, args: Vec<String>, dir: Option<String>)
    ensures
        steps_view(final(plan)@) == steps_view(old(plan)@).push(
            run_view(
                program@,
                texts(args@),
                match dir {
                    Some(d) => Some(d@),
                    None => None,
                },
            ),
        ),
{
    let command = CommandLine { program: String::from_str(program), args, dir };
    push_step(plan, Step::Run { command });
}

} // verus!
