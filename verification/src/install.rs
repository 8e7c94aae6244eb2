//! The privileged installer: whether to copy or to ask for elevation, how to
//! relaunch elevated, and where a packaged plugin is copied to.

use vstd::prelude::*;
use crate::arguments::{parameter_line, parameters, split, split_gives_back};
use crate::command::{Platform, MV};
use crate::paths::{file_name, file_name_of, join, joined};
use crate::steps::{CommandLine, CommandLineView, Step, StepView, no_args};
use crate::text::{push_text, texts};

verus! {

/// Whether the process holds elevated privileges, as queried once.
#[derive(Clone, Copy, Debug, PartialEq, Eq)]
pub struct ElevationState {
    pub is_elevated: bool,
}

/// What the install command does next.
#[derive(Clone, Copy, Debug, PartialEq, Eq)]
pub enum MvAction {
    /// Copy the plugin into the host's plugin directory, in this process.
    Copy,
    /// Relaunch elevated and leave the copying to the elevated process.
    Elevate,
}

/// Why an installation failed.
#[derive(Clone, Debug, PartialEq, Eq)]
pub enum InstallFailed {
    /// The source path has no base name.
    SourceNameInvalid,
    /// The copy failed, for the cause given.
    CopyFailed { cause: String },
    /// The elevated process could not be launched.
    ElevationFailed,
}

/// How to relaunch the program elevated.
#[derive(Clone, Debug, PartialEq, Eq)]
pub enum Elevation {
    /// Launch the command and wait for it to exit.
    Command { command: CommandLine },
    /// Ask the shell to run `file` with `parameters` under `verb`, which
    /// prompts the user for consent, and wait for the process to exit.
    ShellVerb { verb: String, file: String, parameters: String },
}

pub enum ElevationView {
    Command { command: CommandLineView },
    ShellVerb { verb: Seq<char>, file: Seq<char>, parameters: Seq<char> },
}

impl View for Elevation {
    type V = ElevationView;

    open spec fn view(&self) -> ElevationView {
        match *self {
            Elevation::Command { command } => ElevationView::Command { command: command@ },
            Elevation::ShellVerb { verb, file, parameters } => ElevationView::ShellVerb {
                verb: verb@,
                file: file@,
                parameters: parameters@,
            },
        }
    }
}

/// Trusted: `nix::unistd::Uid::current` and `Uid::is_root` on it. The answer
/// depends on the identity the process runs under, so nothing is claimed of
/// it.
#[verifier::external_body]
fn current_user_is_root() -> bool {
    nix::unistd::Uid::current().is_root()
}

/// Whether the process runs as root. A query: it changes nothing.
pub fn is_elevated() -> bool {
    current_user_is_root()
}

/// The state that a privilege query's answer stands for.
pub fn elevation_state(elevated: bool) -> (r: ElevationState)
    ensures
        r.is_elevated == elevated,
{
    ElevationState { is_elevated: elevated }
}

/// An elevated process copies; any other only relaunches elevated.
pub fn mv_action(state: ElevationState) -> (r: MvAction)
    ensures
        r == if state.is_elevated { MvAction::Copy } else { MvAction::Elevate },
{
    if state.is_elevated {
        MvAction::Copy
    } else {
        MvAction::Elevate
    }
}

/// The relaunch of `exe` with `args` on `platform`.
pub open spec fn elevation_of(platform: Platform, exe: Seq<char>, args: Seq<Seq<char>>) -> ElevationView {
    match platform {
        Platform::MacOs => ElevationView::Command {
            command: CommandLineView { program: "sudo"@, args: seq![exe] + args, dir: None },
        },
        Platform::Windows => ElevationView::ShellVerb {
            verb: "runas"@,
            file: exe,
            parameters: parameter_line(args),
        },
    }
}

/// How to relaunch the program at `exe` elevated, with the arguments it was
/// itself started with (`args`, the program's own name left out): under
/// `sudo` on macOS, each argument handed over as it is; by the shell's
/// `runas` verb on Windows, the arguments written as one parameter line that
/// the relaunched process splits back into them.
pub fn elevate_self(platform: Platform, exe: &str, args: &Vec<String>) -> (r: Elevation)
    ensures
        r@ == elevation_of(platform, exe@, texts(args@)),
{
    match platform {
        Platform::MacOs => {
            let mut all = no_args();
            push_text(&mut all, exe);
            let mut i: usize = 0;
            assert(texts(all@) =~= seq![exe@] + texts(args@).subrange(0, 0));
            while i < args.len()
                invariant
                    i <= args.len(),
                    texts(all@) == seq![exe@] + texts(args@).subrange(0, i as int),
                decreases args.len() - i,
            {
                push_text(&mut all, args[i].as_str());
                i += 1;
                assert(texts(all@) =~= seq![exe@] + texts(args@).subrange(0, i as int));
            }
            assert(texts(args@).subrange(0, i as int) =~= texts(args@));
            Elevation::Command {
                command: CommandLine { program: String::from_str("sudo"), args: all, dir: None },
            }
        },
        Platform::Windows => Elevation::ShellVerb {
            verb: String::from_str("runas"),
            file: String::from_str(exe),
            parameters: parameters(args),
        },
    }
}

/// The relaunched process sees the same arguments, on either platform:
/// `sudo` is handed the program and then each argument as it is, and the
/// shell's parameter line splits into exactly the arguments.
pub proof fn relaunch_keeps_arguments(platform: Platform, exe: Seq<char>, args: Seq<Seq<char>>)
    ensures
        match elevation_of(platform, exe, args) {
            ElevationView::Command { command } => command.args.len() == args.len() + 1
                && command.args[0] == exe && command.args.skip(1) == args,
            ElevationView::ShellVerb { verb, file, parameters } => file == exe && split(parameters)
                == args,
        },
{
    match platform {
        Platform::MacOs => {
            assert((seq![exe] + args).skip(1) =~= args);
        },
        Platform::Windows => {
            split_gives_back(args);
        },
    }
}

/// The command that asks for the user's consent and runs nothing, where the
/// platform's mechanism has one: on macOS `sudo -v`, which prompts if it
/// must and succeeds exactly if elevation is granted. On Windows the shell
/// asks as it launches, and a refusal shows as a failed launch.
pub fn consent_command(platform: Platform) -> (r: Option<CommandLine>)
    ensures
        match platform {
            Platform::MacOs => r is Some && r->0@ == (CommandLineView {
                program: "sudo"@,
                args: seq!["-v"@],
                dir: None,
            }),
            Platform::Windows => r is None,
        },
{
    match platform {
        Platform::MacOs => {
            let mut args = no_args();
            push_text(&mut args, "-v");
            assert(texts(args@) =~= seq!["-v"@]);
            Some(CommandLine { program: String::from_str("sudo"), args, dir: None })
        },
        Platform::Windows => None,
    }
}

/// The exit code of the process that asked for elevation. `launched` says
/// that consent was given and the elevated process was started: then the
/// code is 0 whatever the elevated process did. Where consent was refused
/// or the process could not be started, elevation has failed.
pub fn exit_after_elevation(launched: bool) -> (r: Result<i32, InstallFailed>)
    ensures
        launched ==> r == Ok::<i32, InstallFailed>(0i32),
        !launched ==> r == Err::<i32, InstallFailed>(InstallFailed::ElevationFailed),
{
    if launched {
        Ok(0)
    } else {
        Err(InstallFailed::ElevationFailed)
    }
}

/// The host's plugin directory.
pub open spec fn plugin_dir(platform: Platform) -> Seq<char> {
    match platform {
        Platform::MacOs => "/Library/Application Support/Adobe/Common/Plug-ins/7.0/MediaCore/"@,
        Platform::Windows => "C:\\Program Files\\Adobe\\Common\\Plug-ins\\7.0\\MediaCore\\"@,
    }
}

/// The copy that installs `source`: the whole bundle directory on macOS, the
/// single file on Windows, into the host's plugin directory under the
/// source's base name.
pub open spec fn install_step(platform: Platform, source: Seq<char>) -> StepView {
    match platform {
        Platform::MacOs => StepView::CopyTree {
            from: source,
            to: joined(plugin_dir(platform), file_name_of(source)->0),
        },
        Platform::Windows => StepView::CopyFile {
            from: source,
            to: joined(plugin_dir(platform), file_name_of(source)->0),
        },
    }
}

/// Plans the installation of the packaged plugin at `mv.src`: fails exactly
/// where the path has no base name, and is otherwise the platform's copy.
/// The destination is joined by the path rules of the system the library is
/// built for, so `platform` is meant to be the build's own.
pub fn mv_command(platform: Platform, mv: &MV) -> (r: Result<Step, InstallFailed>)
    ensures
        file_name_of(mv.src@) is None ==> r is Err && r->Err_0 is SourceNameInvalid,
        file_name_of(mv.src@) is Some ==> r is Ok && r->Ok_0@ == install_step(platform, mv.src@),
{
    let name = match file_name(mv.src.as_str()) {
        Some(n) => n,
        None => {
            return Err(InstallFailed::SourceNameInvalid);
        },
    };
    match platform {
        Platform::MacOs => Ok(
            Step::CopyTree {
                from: mv.src.clone(),
                to: join(
                    "/Library/Application Support/Adobe/Common/Plug-ins/7.0/MediaCore/",
                    name.as_str(),
                ),
            },
        ),
        Platform::Windows => Ok(
            Step::CopyFile {
                from: mv.src.clone(),
                to: join(
                    "C:\\Program Files\\Adobe\\Common\\Plug-ins\\7.0\\MediaCore\\",
                    name.as_str(),
                ),
            },
        ),
    }
}

/// What the copy amounts to: success as it is, a failure with its cause.
pub fn copy_outcome(result: Result<(), String>) -> (r: Result<(), InstallFailed>)
    ensures
        result is Ok <==> r is Ok,
        result is Err ==> r->Err_0 is CopyFailed && r->Err_0->cause@ == result->Err_0@,
{
    match result {
        Ok(()) => Ok(()),
        Err(cause) => Err(InstallFailed::CopyFailed { cause }),
    }
}

} // verus!
