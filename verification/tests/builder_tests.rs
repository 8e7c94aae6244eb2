use cargo_jk::artifact::{BuildArtifact, PackagedPlugin};
use cargo_jk::builder::{
    build_command, build_outcome, exit_code, is_shallow, last_artifact, plugin_report, run_build,
    BuildEvent, BuildFailure, ChildExit, MAX_OPENINGS,
};
use cargo_jk::command::Format;

fn artifact_line(file: &str) -> String {
    let mut line = String::new();
    line.push_str("{\"reason\":\"compiler-artifact\",");
    line.push_str("\"package_id\":\"path+file:///w#my-effect@0.1.0\",");
    line.push_str("\"manifest_path\":\"/w/Cargo.toml\",");
    line.push_str("\"target\":{\"kind\":[\"cdylib\"],\"crate_types\":[\"cdylib\"],");
    line.push_str("\"name\":\"my_effect\",\"src_path\":\"/w/src/lib.rs\",\"edition\":\"2021\",");
    line.push_str("\"doc\":true,\"doctest\":false,\"test\":true},");
    line.push_str("\"profile\":{\"opt_level\":\"0\",\"debuginfo\":2,\"debug_assertions\":true,");
    line.push_str("\"overflow_checks\":true,\"test\":false},\"features\":[],");
    line.push_str(&format!("\"filenames\":[{}],", file));
    line.push_str("\"executable\":null,\"fresh\":false}\n");
    line
}

fn ok_exit() -> ChildExit {
    ChildExit { success: true, code: Some(0) }
}

#[test]
fn build_command_debug() {
    let c = build_command(false);
    assert_eq!(c.program, "cargo");
    assert_eq!(c.args, vec!["build", "--message-format", "json-render-diagnostics"]);
    assert_eq!(c.dir, None);
}

#[test]
fn build_command_release() {
    let c = build_command(true);
    assert_eq!(c.program, "cargo");
    assert_eq!(c.args, vec!["build", "--release", "--message-format", "json-render-diagnostics"]);
}

#[test]
fn stream_with_one_artifact() {
    let stream = artifact_line("\"/w/target/debug/libmy_effect.dylib\"");
    let r = run_build(stream.as_bytes(), ok_exit());
    assert_eq!(r, Ok(BuildArtifact { path: "/w/target/debug/libmy_effect.dylib".to_string() }));
}

#[test]
fn first_listed_file_is_the_artifact() {
    let stream = artifact_line("\"/w/target/debug/a.dylib\",\"/w/target/debug/a.dSYM\"");
    let r = run_build(stream.as_bytes(), ok_exit());
    assert_eq!(r, Ok(BuildArtifact { path: "/w/target/debug/a.dylib".to_string() }));
}

#[test]
fn last_artifact_of_the_stream_wins() {
    let mut stream = artifact_line("\"/w/target/debug/libdep.rlib\"");
    stream.push_str("{\"reason\":\"build-script-executed\",\"package_id\":\"x\",\"linked_libs\":[],\"linked_paths\":[],\"cfgs\":[],\"env\":[],\"out_dir\":\"/w/out\"}\n");
    stream.push_str(&artifact_line("\"/w/target/debug/libmy_effect.dylib\""));
    stream.push_str("{\"reason\":\"build-finished\",\"success\":true}\n");
    let r = run_build(stream.as_bytes(), ok_exit());
    assert_eq!(r, Ok(BuildArtifact { path: "/w/target/debug/libmy_effect.dylib".to_string() }));
}

#[test]
fn artifact_without_files_overwrites_nothing() {
    let mut stream = artifact_line("\"/w/target/debug/libmy_effect.dylib\"");
    stream.push_str(&artifact_line(""));
    let r = run_build(stream.as_bytes(), ok_exit());
    assert_eq!(r, Ok(BuildArtifact { path: "/w/target/debug/libmy_effect.dylib".to_string() }));
}

#[test]
fn plain_text_lines_are_no_artifacts() {
    let stream = "   Compiling my-effect v0.1.0\n{\"reason\":\"build-finished\",\"success\":true}\n";
    let r = run_build(stream.as_bytes(), ok_exit());
    assert_eq!(r, Err(BuildFailure::NoArtifactProduced));
}

#[test]
fn empty_stream_reports_no_artifact() {
    let r = run_build(b"", ok_exit());
    assert_eq!(r, Err(BuildFailure::NoArtifactProduced));
}

#[test]
fn failed_exit_is_a_failed_build() {
    let stream = artifact_line("\"/w/target/debug/libdep.rlib\"");
    let r = run_build(stream.as_bytes(), ChildExit { success: false, code: Some(101) });
    assert_eq!(r, Err(BuildFailure::BuildFailed { exit_status: Some(101) }));
}

#[test]
fn failed_exit_without_artifact_is_a_failed_build() {
    let r = run_build(b"", ChildExit { success: false, code: None });
    assert_eq!(r, Err(BuildFailure::BuildFailed { exit_status: None }));
}

#[test]
fn stream_that_is_no_text_is_unreadable() {
    let mut stream = artifact_line("\"/w/target/debug/libmy_effect.dylib\"").into_bytes();
    stream.extend_from_slice(&[0xff, 0xfe, b'\n']);
    let r = run_build(&stream, ok_exit());
    assert_eq!(r, Err(BuildFailure::StreamUnreadable));
}

#[test]
fn outcome_from_events() {
    let events = vec![
        BuildEvent::CompilerArtifact { filenames: vec!["a".to_string(), "b".to_string()] },
        BuildEvent::Other,
        BuildEvent::CompilerArtifact { filenames: vec!["c".to_string()] },
        BuildEvent::CompilerArtifact { filenames: vec![] },
        BuildEvent::Other,
    ];
    assert_eq!(last_artifact(&events), Some(BuildArtifact { path: "c".to_string() }));
    assert_eq!(build_outcome(&events, ok_exit()), Ok(BuildArtifact { path: "c".to_string() }));
    assert_eq!(last_artifact(&vec![BuildEvent::Other]), None);
    assert_eq!(last_artifact(&vec![]), None);
}

#[test]
fn unreadable_event_comes_before_all_else() {
    let events = vec![
        BuildEvent::CompilerArtifact { filenames: vec!["a".to_string()] },
        BuildEvent::Unreadable,
    ];
    assert_eq!(
        build_outcome(&events, ChildExit { success: false, code: Some(1) }),
        Err(BuildFailure::StreamUnreadable)
    );
}

#[test]
fn report_in_json() {
    let plugin = PackagedPlugin { path: "/w/target/debug/MyEffect.plugin".to_string() };
    let r = plugin_report(Format::Json, &plugin);
    assert_eq!(r, Some("{\"path\":\"/w/target/debug/MyEffect.plugin\"}".to_string()));
}

#[test]
fn report_escapes_the_path() {
    let plugin = PackagedPlugin { path: "C:\\w\\target\\debug\\My \"Effect\".aex".to_string() };
    let r = plugin_report(Format::Json, &plugin);
    assert_eq!(
        r,
        Some("{\"path\":\"C:\\\\w\\\\target\\\\debug\\\\My \\\"Effect\\\".aex\"}".to_string())
    );
}

#[test]
fn report_silent_prints_nothing() {
    let plugin = PackagedPlugin { path: "/w/target/debug/MyEffect.plugin".to_string() };
    assert_eq!(plugin_report(Format::Silent, &plugin), None);
}

#[test]
fn exit_codes() {
    assert_eq!(exit_code(true), 0);
    assert_eq!(exit_code(false), 1);
}

#[test]
fn lines_within_the_limit_are_shallow() {
    assert_eq!(MAX_OPENINGS, 128);
    assert!(is_shallow(b""));
    assert!(is_shallow(b"plain text\n"));
    assert!(is_shallow(artifact_line("\"/w/a.dylib\"").as_bytes()));
    let full = "[".repeat(64) + &"{".repeat(64);
    assert!(is_shallow(full.as_bytes()));
    let two_lines = format!("{}\n{}\n", full, full);
    assert!(is_shallow(two_lines.as_bytes()));
}

#[test]
fn a_line_over_the_limit_is_not_shallow() {
    let over = "[".repeat(129);
    assert!(!is_shallow(over.as_bytes()));
    let mixed = format!("ok\n{}{}x\n", "{\"a\":".repeat(100), "[".repeat(29));
    assert!(!is_shallow(mixed.as_bytes()));
    let closed = "[]".repeat(129);
    assert!(!is_shallow(closed.as_bytes()));
}

#[test]
fn deep_stream_is_not_read() {
    let mut stream = artifact_line("\"/w/target/debug/libmy_effect.dylib\"");
    stream.push_str(&"[".repeat(100000));
    stream.push('\n');
    assert_eq!(run_build(stream.as_bytes(), ok_exit()), Err(BuildFailure::StreamTooDeep));
    assert_eq!(
        run_build(stream.as_bytes(), ChildExit { success: false, code: Some(1) }),
        Err(BuildFailure::StreamTooDeep)
    );
}

#[test]
fn line_at_the_limit_is_read() {
    let mut stream = "[".repeat(128);
    stream.push('\n');
    stream.push_str(&artifact_line("\"/w/target/debug/libmy_effect.dylib\""));
    assert_eq!(
        run_build(stream.as_bytes(), ok_exit()),
        Ok(BuildArtifact { path: "/w/target/debug/libmy_effect.dylib".to_string() })
    );
}
