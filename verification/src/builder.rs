//! The build orchestrator: which command builds the plugin, what the build's
//! event stream reports, and what the build amounts to once it has exited.

use vstd::prelude::*;
use crate::artifact::{BuildArtifact, PackagedPlugin};
use crate::command::Format;
use crate::json::{json_object_text, write_object};
use crate::steps::{CommandLine, CommandLineView, no_args};
use crate::text::{push_text, texts};

verus! {

/// One event of the build tool's stream, as far as the pipeline reads it.
#[derive(Clone, Debug, PartialEq, Eq)]
pub enum BuildEvent {
    /// The compiler produced an artifact made of these files.
    CompilerArtifact { filenames: Vec<String> },
    /// Any other message, or a line of plain text.
    Other,
    /// A stretch of the stream that could not be read as text.
    Unreadable,
}

pub enum BuildEventView {
    CompilerArtifact { filenames: Seq<Seq<char>> },
    Other,
    Unreadable,
}

impl View for BuildEvent {
    type V = BuildEventView;

    open spec fn view(&self) -> BuildEventView {
        match *self {
            BuildEvent::CompilerArtifact { filenames } => BuildEventView::CompilerArtifact {
                filenames: texts(filenames@),
            },
            BuildEvent::Other => BuildEventView::Other,
            BuildEvent::Unreadable => BuildEventView::Unreadable,
        }
    }
}

/// Views of a sequence of events, element by element.
pub open spec fn events_view(v: Seq<BuildEvent>) -> Seq<BuildEventView> {
    Seq::new(v.len(), |i: int| v[i]@)
}

/// The events that the build tool's message reader finds in a stream, line
/// by line, each reduced to what the pipeline reads of it.
pub uninterp spec fn build_events(stream: Seq<u8>) -> Seq<BuildEventView>;

/// How the build process ended.
#[derive(Clone, Copy, Debug, PartialEq, Eq)]
pub struct ChildExit {
    pub success: bool,
    /// The exit code, where the process ended with one.
    pub code: Option<i32>,
}

/// Why a build yields no artifact.
#[derive(Clone, Copy, Debug, PartialEq, Eq)]
pub enum BuildFailure {
    /// A line of the event stream opens more brackets than the reader is
    /// given to read.
    StreamTooDeep,
    /// The event stream could not be read to its end.
    StreamUnreadable,
    /// The build command did not exit with success.
    BuildFailed { exit_status: Option<i32> },
    /// The build succeeded and reported no artifact.
    NoArtifactProduced,
}

/// The event reports an artifact with at least one file.
pub open spec fn names_file(event: BuildEventView) -> bool {
    event matches BuildEventView::CompilerArtifact { filenames } && filenames.len() > 0
}

/// The first file of the artifact that the event reports.
pub open spec fn first_file(event: BuildEventView) -> Seq<char> {
    event->filenames[0]
}

/// The artifact that a stream of events reports: the first file of the last
/// artifact event that names one. Earlier artifacts are overwritten.
pub open spec fn reported(events: Seq<BuildEventView>) -> Option<Seq<char>>
    decreases events.len(),
{
    if events.len() == 0 {
        None
    } else if names_file(events.last()) {
        Some(first_file(events.last()))
    } else {
        reported(events.drop_last())
    }
}

/// Some event of the stream could not be read.
pub open spec fn unreadable(events: Seq<BuildEventView>) -> bool {
    exists|i: int| 0 <= i < events.len() && events[i] is Unreadable
}

/// What the events of a build amount to: an unreadable stream, then a failed
/// exit, then a missing artifact each rule out the next; otherwise the
/// reported artifact.
pub open spec fn outcome_of(events: Seq<BuildEventView>, exit: ChildExit) -> Result<
    Seq<char>,
    BuildFailure,
> {
    if unreadable(events) {
        Err(BuildFailure::StreamUnreadable)
    } else if !exit.success {
        Err(BuildFailure::BuildFailed { exit_status: exit.code })
    } else if reported(events) is None {
        Err(BuildFailure::NoArtifactProduced)
    } else {
        Ok(reported(events)->0)
    }
}

/// `r` is `expected`, the artifact taken by its path.
pub open spec fn outcome_is(
    r: Result<BuildArtifact, BuildFailure>,
    expected: Result<Seq<char>, BuildFailure>,
) -> bool {
    match expected {
        Ok(path) => r is Ok && r->Ok_0.path@ == path,
        Err(e) => r == Err::<BuildArtifact, BuildFailure>(e),
    }
}

/// The arguments of the build command.
pub open spec fn build_args(release: bool) -> Seq<Seq<char>> {
    if release {
        seq!["build"@, "--release"@, "--message-format"@, "json-render-diagnostics"@]
    } else {
        seq!["build"@, "--message-format"@, "json-render-diagnostics"@]
    }
}

/// The toolchain's build command, in the requested mode, with its events
/// in machine-readable form on standard output.
pub fn build_command(release: bool) -> (r: CommandLine)
    ensures
        r@ == (CommandLineView { program: "cargo"@, args: build_args(release), dir: None }),
{
    let mut args = no_args();
    push_text(&mut args, "build");
    if release {
        push_text(&mut args, "--release");
    }
    push_text(&mut args, "--message-format");
    push_text(&mut args, "json-render-diagnostics");
    assert(texts(args@) =~= build_args(release));
    CommandLine { program: String::from_str("cargo"), args, dir: None }
}

/// The most opening brackets that a line of the stream may hold. The
/// message reader parses each line without a limit on nesting of its own,
/// and no value nests deeper than its line has opening brackets.
pub const MAX_OPENINGS: usize = 128;

/// The byte opens a JSON array or object.
pub open spec fn opens(byte: u8) -> bool {
    byte == 0x5b || byte == 0x7b
}

/// How many opening brackets the line that runs up to `end` holds: those
/// between the last line feed before `end`, or the stream's start, and `end`.
pub open spec fn openings(stream: Seq<u8>, end: int) -> nat
    decreases end,
{
    if end <= 0 || end > stream.len() || stream[end - 1] == 0x0a {
        0
    } else if opens(stream[end - 1]) {
        openings(stream, end - 1) + 1
    } else {
        openings(stream, end - 1)
    }
}

/// No line of the stream holds more opening brackets than the reader is
/// given to read.
pub open spec fn shallow(stream: Seq<u8>) -> bool {
    forall|end: int| 0 <= end <= stream.len() ==> #[trigger] openings(stream, end) <= MAX_OPENINGS
}

/// Whether every line of the stream keeps within the limit on opening
/// brackets.
pub fn is_shallow(stream: &[u8]) -> (r: bool)
    ensures
        r == shallow(stream@),
{
    let mut open: usize = 0;
    let mut i: usize = 0;
    while i < stream.len()
        invariant
            i <= stream.len(),
            open == openings(stream@, i as int),
            open <= MAX_OPENINGS,
            forall|end: int| 0 <= end <= i ==> #[trigger] openings(stream@, end) <= MAX_OPENINGS,
        decreases stream.len() - i,
    {
        let byte = stream[i];
        if byte == 0x0a {
            open = 0;
        } else if byte == 0x5b || byte == 0x7b {
            if open == MAX_OPENINGS {
                assert(openings(stream@, i + 1) > MAX_OPENINGS);
                return false;
            }
            open += 1;
        }
        i += 1;
    }
    true
}

/// Trusted: `cargo_metadata::Message::parse_stream` over the bytes, run to
/// its end. Each item becomes one event: an artifact message keeps its file
/// names, a read error becomes `Unreadable`, anything else `Other`. The
/// events depend on the bytes alone and are the named ones. The reader
/// recurses once for each level of nesting and sets no limit itself, so a
/// stream that is not shallow is kept from it.
#[verifier::external_body]
pub(crate) fn parse_events(stream: &[u8]) -> (r: Vec<BuildEvent>)
    requires
        shallow(stream@),
    ensures
        events_view(r@) == build_events(stream@),
{
    let mut events: Vec<BuildEvent> = Vec::new();
    for message in cargo_metadata::Message::parse_stream(stream) {
        events.push(match message {
            Ok(cargo_metadata::Message::CompilerArtifact(artifact)) => BuildEvent::CompilerArtifact {
                filenames: artifact.filenames.into_iter().map(String::from).collect(),
            },
            Ok(_) => BuildEvent::Other,
            Err(_) => BuildEvent::Unreadable,
        });
    }
    events
}

/// The artifact that the events report, last one winning.
pub fn last_artifact(events: &Vec<BuildEvent>) -> (r: Option<BuildArtifact>)
    ensures
        r is Some <==> reported(events_view(events@)) is Some,
        r is Some ==> r->0.path@ == reported(events_view(events@))->0,
{
    let mut found: Option<BuildArtifact> = None;
    let mut i: usize = 0;
    let ghost all = events_view(events@);
    assert(all.subrange(0, 0) =~= Seq::<BuildEventView>::empty());
    while i < events.len()
        invariant
            i <= events.len(),
            all == events_view(events@),
            found is Some <==> reported(all.subrange(0, i as int)) is Some,
            found is Some ==> found->0.path@ == reported(all.subrange(0, i as int))->0,
        decreases events.len() - i,
    {
        proof {
            let next = all.subrange(0, i + 1);
            assert(next.drop_last() =~= all.subrange(0, i as int));
            assert(next.last() == events@[i as int]@);
        }
        match &events[i] {
            BuildEvent::CompilerArtifact { filenames } => {
                if filenames.len() > 0 {
                    found = Some(BuildArtifact { path: filenames[0].clone() });
                }
            },
            _ => {},
        }
        i += 1;
    }
    assert(all.subrange(0, i as int) =~= all);
    found
}

fn any_unreadable(events: &Vec<BuildEvent>) -> (r: bool)
    ensures
        r == unreadable(events_view(events@)),
{
    let mut i: usize = 0;
    while i < events.len()
        invariant
            i <= events.len(),
            forall|j: int| 0 <= j < i ==> !(events_view(events@)[j] is Unreadable),
        decreases events.len() - i,
    {
        match &events[i] {
            BuildEvent::Unreadable => {
                assert(events_view(events@)[i as int] is Unreadable);
                return true;
            },
            _ => {},
        }
        i += 1;
    }
    false
}

/// What a build amounts to, from the events of its stream and its exit.
pub fn build_outcome(events: &Vec<BuildEvent>, exit: ChildExit) -> (r: Result<
    BuildArtifact,
    BuildFailure,
>)
    ensures
        outcome_is(r, outcome_of(events_view(events@), exit)),
{
    if any_unreadable(events) {
        return Err(BuildFailure::StreamUnreadable);
    }
    if !exit.success {
        return Err(BuildFailure::BuildFailed { exit_status: exit.code });
    }
    match last_artifact(events) {
        Some(artifact) => Ok(artifact),
        None => Err(BuildFailure::NoArtifactProduced),
    }
}

/// What a build amounts to, from the bytes of its standard output and its
/// exit: a stream that is not shallow is not read at all; else the outcome
/// of the events that the stream holds.
pub open spec fn build_result_of(stream: Seq<u8>, exit: ChildExit) -> Result<
    Seq<char>,
    BuildFailure,
> {
    if !shallow(stream) {
        Err(BuildFailure::StreamTooDeep)
    } else {
        outcome_of(build_events(stream), exit)
    }
}

/// What a build amounts to, from the bytes of its standard output and its
/// exit.
pub fn run_build(stream: &[u8], exit: ChildExit) -> (r: Result<BuildArtifact, BuildFailure>)
    ensures
        outcome_is(r, build_result_of(stream@, exit)),
{
    if !is_shallow(stream) {
        return Err(BuildFailure::StreamTooDeep);
    }
    let events = parse_events(stream);
    build_outcome(&events, exit)
}

/// Last artifact wins: where an event names a file and none after it does,
/// the stream reports that event's first file, whatever came before.
pub proof fn last_artifact_wins(events: Seq<BuildEventView>, i: int)
    requires
        0 <= i < events.len(),
        names_file(events[i]),
        forall|j: int| i < j < events.len() ==> !names_file(#[trigger] events[j]),
    ensures
        reported(events) == Some(first_file(events[i])),
    decreases events.len(),
{
    if i < events.len() - 1 {
        assert(!names_file(events[events.len() - 1]));
        last_artifact_wins(events.drop_last(), i);
    }
}

/// A stream reports an artifact exactly if one of its events names a file.
pub proof fn reports_iff_named(events: Seq<BuildEventView>)
    ensures
        reported(events) is Some <==> exists|i: int|
            0 <= i < events.len() && names_file(#[trigger] events[i]),
    decreases events.len(),
{
    if events.len() > 0 {
        reports_iff_named(events.drop_last());
        if names_file(events.last()) {
            assert(names_file(events[events.len() - 1]));
        } else if reported(events.drop_last()) is Some {
            let i = choose|i: int|
                0 <= i < events.drop_last().len() && names_file(#[trigger] events.drop_last()[i]);
            assert(names_file(events[i]));
        } else {
            assert forall|i: int| 0 <= i < events.len() implies !names_file(
                #[trigger] events[i],
            ) by {
                if i < events.len() - 1 {
                    assert(events.drop_last()[i] == events[i]);
                }
            }
        }
    }
}

/// What the build prints on standard output for a packaged plugin.
pub open spec fn report_of(format: Format, path: Seq<char>) -> Option<Seq<char>> {
    match format {
        Format::Silent => None,
        Format::Json => Some(json_object_text("path"@, path)),
    }
}

/// The line to print on standard output once the plugin is packaged: for
/// `Json` one object whose member `path` is the plugin's path, for `Silent`
/// nothing.
pub fn plugin_report(format: Format, plugin: &PackagedPlugin) -> (r: Option<String>)
    ensures
        match report_of(format, plugin.path@) {
            Some(text) => r is Some && r->0@ == text,
            None => r is None,
        },
{
    match format {
        Format::Silent => None,
        Format::Json => Some(write_object("path", plugin.path.as_str())),
    }
}

/// The process's exit code: 0 on success, 1 on any fatal failure.
pub fn exit_code(succeeded: bool) -> (r: i32)
    ensures
        r == if succeeded { 0i32 } else { 1i32 },
{
    if succeeded {
        0
    } else {
        1
    }
}

} // verus!
