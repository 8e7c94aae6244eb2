use cargo_jk::pipeline::{
    after_build, after_move, child_output, install_command, move_command, ChildPipelineFailed,
    ChildResult, Fault, Stage,
};
use cargo_jk::steps::CommandLine;

fn cargo(args: &[&str]) -> CommandLine {
    CommandLine {
        program: "cargo".to_string(),
        args: args.iter().map(|a| a.to_string()).collect(),
        dir: None,
    }
}

fn exited(success: bool, stdout: &str, stderr: &str) -> ChildResult {
    ChildResult::Exited { success, stdout: stdout.to_string(), stderr: stderr.to_string() }
}

fn failure(stage: Stage, fault: Fault, detail: &str) -> ChildPipelineFailed {
    ChildPipelineFailed { stage, fault, detail: detail.to_string() }
}

const INSTALLED: &str = "/home/u/.cargo/bin/cargo-jk";
const FROM_TREE: &str = "/w/target/debug/cargo-jk";

#[test]
fn build_child_when_installed() {
    assert_eq!(install_command(false, INSTALLED), cargo(&["jk", "build", "--format", "json"]));
    assert_eq!(
        install_command(true, INSTALLED),
        cargo(&["jk", "build", "--release", "--format", "json"])
    );
}

#[test]
fn build_child_from_a_build_tree() {
    assert_eq!(
        install_command(false, FROM_TREE),
        cargo(&["run", "--", "jk", "build", "--format", "json"])
    );
    assert_eq!(
        install_command(true, FROM_TREE),
        cargo(&["run", "--", "jk", "build", "--release", "--format", "json"])
    );
}

#[test]
fn move_child_for_the_reported_path() {
    let out = "{\"path\":\"/w/target/debug/My Effect.plugin\"}\n";
    assert_eq!(
        after_build(INSTALLED, &exited(true, out, "")),
        Ok(cargo(&["jk", "mv", "/w/target/debug/My Effect.plugin"]))
    );
    assert_eq!(
        after_build(FROM_TREE, &exited(true, out, "noise")),
        Ok(cargo(&["run", "--", "jk", "mv", "/w/target/debug/My Effect.plugin"]))
    );
}

#[test]
fn reported_path_is_unescaped() {
    let out = "{\"path\":\"C:\\\\w\\\\MyEffect.aex\",\"extra\":1}";
    assert_eq!(
        after_build(INSTALLED, &exited(true, out, "")),
        Ok(cargo(&["jk", "mv", "C:\\w\\MyEffect.aex"]))
    );
}

#[test]
fn failed_build_child_surfaces_its_error_output() {
    assert_eq!(
        after_build(INSTALLED, &exited(false, "{\"path\":\"x\"}", "error: boom")),
        Err(failure(Stage::Build, Fault::Failed, "error: boom"))
    );
    let not_started = ChildResult::NotStarted { cause: "No such file".to_string() };
    assert_eq!(
        after_build(INSTALLED, &not_started),
        Err(failure(Stage::Build, Fault::NotStarted, "No such file"))
    );
}

#[test]
fn unparsable_build_output_is_fatal() {
    for out in ["", "not json", "{\"path\":", "{}", "{\"path\":1}", "[\"x\"]", "{\"Path\":\"x\"}"] {
        assert_eq!(
            after_build(INSTALLED, &exited(true, out, "")),
            Err(failure(Stage::Build, Fault::OutputUnparsable, out))
        );
    }
}

#[test]
fn move_command_from_a_parsed_path() {
    assert_eq!(
        move_command(INSTALLED, "raw", Some("p".to_string())),
        Ok(cargo(&["jk", "mv", "p"]))
    );
    assert_eq!(
        move_command(INSTALLED, "raw", None),
        Err(failure(Stage::Build, Fault::OutputUnparsable, "raw"))
    );
}

#[test]
fn child_output_by_stage() {
    assert_eq!(child_output(Stage::Move, &exited(true, "out", "err")), Ok("out".to_string()));
    assert_eq!(
        child_output(Stage::Move, &exited(false, "out", "err")),
        Err(failure(Stage::Move, Fault::Failed, "err"))
    );
}

#[test]
fn move_child_result() {
    assert_eq!(after_move(&exited(true, "File moved successfully.", "")), Ok(()));
    assert_eq!(
        after_move(&exited(false, "", "denied")),
        Err(failure(Stage::Move, Fault::Failed, "denied"))
    );
    let not_started = ChildResult::NotStarted { cause: "gone".to_string() };
    assert_eq!(after_move(&not_started), Err(failure(Stage::Move, Fault::NotStarted, "gone")));
}
