use cargo_jk::command::{Platform, MV};
use cargo_jk::install::{
    consent_command, copy_outcome, elevate_self, elevation_state, exit_after_elevation, is_elevated, mv_action,
    mv_command, Elevation, ElevationState, InstallFailed, MvAction,
};
use cargo_jk::manifest::package_for_cwd;
use cargo_jk::steps::{CommandLine, Step};

fn strings(items: &[&str]) -> Vec<String> {
    items.iter().map(|s| s.to_string()).collect()
}

#[test]
fn privilege_query_is_stable() {
    let first = is_elevated();
    let second = is_elevated();
    assert_eq!(first, second);
    assert_eq!(first, nix::unistd::Uid::current().as_raw() == 0);
}

#[test]
fn elevated_copies_others_elevate() {
    assert_eq!(mv_action(elevation_state(true)), MvAction::Copy);
    assert_eq!(mv_action(elevation_state(false)), MvAction::Elevate);
    assert_eq!(elevation_state(true), ElevationState { is_elevated: true });
}

#[test]
fn sudo_relaunch_keeps_the_arguments() {
    let args = strings(&["jk", "mv", "/w/target/debug/My Effect.plugin"]);
    let e = elevate_self(Platform::MacOs, "/usr/local/bin/cargo-jk", &args);
    assert_eq!(
        e,
        Elevation::Command {
            command: CommandLine {
                program: "sudo".to_string(),
                args: strings(&[
                    "/usr/local/bin/cargo-jk",
                    "jk",
                    "mv",
                    "/w/target/debug/My Effect.plugin"
                ]),
                dir: None,
            }
        }
    );
    let bare = elevate_self(Platform::MacOs, "exe", &vec![]);
    assert_eq!(
        bare,
        Elevation::Command {
            command: CommandLine { program: "sudo".to_string(), args: strings(&["exe"]), dir: None }
        }
    );
}

#[test]
fn shell_relaunch_quotes_arguments_with_spaces() {
    let args = strings(&["jk", "mv", "C:\\My Plugins\\MyEffect.aex", "x"]);
    let e = elevate_self(Platform::Windows, "C:\\bin\\cargo-jk.exe", &args);
    assert_eq!(
        e,
        Elevation::ShellVerb {
            verb: "runas".to_string(),
            file: "C:\\bin\\cargo-jk.exe".to_string(),
            parameters: "jk mv \"C:\\My Plugins\\MyEffect.aex\" x".to_string(),
        }
    );
}

fn parameters_of(args: &[&str]) -> String {
    match elevate_self(Platform::Windows, "exe", &strings(args)) {
        Elevation::ShellVerb { verb, file, parameters } => {
            assert_eq!(verb, "runas");
            assert_eq!(file, "exe");
            parameters
        }
        other => panic!("unexpected elevation {:?}", other),
    }
}

/// The Microsoft C runtime's rule for splitting a parameter line.
fn split_line(line: &str) -> Vec<String> {
    let chars: Vec<char> = line.chars().collect();
    let mut done: Vec<String> = Vec::new();
    let mut word = String::new();
    let (mut in_quotes, mut in_arg, mut pending, mut i) = (false, false, 0usize, 0usize);
    while i < chars.len() {
        let c = chars[i];
        i += 1;
        if c == '\\' {
            pending += 1;
            in_arg = true;
            continue;
        }
        if c == '"' {
            word.push_str(&"\\".repeat(pending / 2));
            if pending % 2 == 1 {
                word.push('"');
            } else if in_quotes && i < chars.len() && chars[i] == '"' {
                word.push('"');
                i += 1;
            } else {
                in_quotes = !in_quotes;
            }
            pending = 0;
            in_arg = true;
            continue;
        }
        word.push_str(&"\\".repeat(pending));
        pending = 0;
        if (c == ' ' || c == '\t') && !in_quotes {
            if in_arg {
                done.push(word.clone());
            }
            word.clear();
            in_arg = false;
        } else {
            word.push(c);
            in_arg = true;
        }
    }
    if in_arg {
        word.push_str(&"\\".repeat(pending));
        done.push(word);
    }
    done
}

#[test]
fn shell_relaunch_edge_cases() {
    assert_eq!(parameters_of(&[]), "");
    assert_eq!(parameters_of(&[""]), "\"\"");
    assert_eq!(parameters_of(&[" "]), "\" \"");
    assert_eq!(parameters_of(&["", "a"]), "\"\" a");
    assert_eq!(parameters_of(&["a", "", ""]), "a \"\" \"\"");
    assert_eq!(parameters_of(&["tab\there"]), "\"tab\there\"");
}

#[test]
fn shell_relaunch_escapes_quotes_and_backslashes() {
    assert_eq!(parameters_of(&["a\"b"]), "\"a\\\"b\"");
    assert_eq!(parameters_of(&["\""]), "\"\\\"\"");
    assert_eq!(parameters_of(&["back\\slash"]), "back\\slash");
    assert_eq!(parameters_of(&["trailing\\"]), "trailing\\");
    assert_eq!(parameters_of(&["C:\\dir with space\\"]), "\"C:\\dir with space\\\\\"");
    assert_eq!(parameters_of(&["a\\\\\"b"]), "\"a\\\\\\\\\\\"b\"");
    assert_eq!(parameters_of(&["a\\\\ b"]), "\"a\\\\ b\"");
    assert_eq!(parameters_of(&["\\\\ \\\\"]), "\"\\\\ \\\\\\\\\"");
}

#[test]
fn shell_relaunch_splits_back_into_the_arguments() {
    let cases: Vec<Vec<&str>> = vec![
        vec![],
        vec![""],
        vec!["", ""],
        vec!["jk", "mv", "C:\\My Plugins\\MyEffect.aex"],
        vec!["jk", "mv", "C:\\My Plugins\\"],
        vec!["a\"b", "\"", "\"\"", "\\\"", "\\\\\"", "x\\", "x\\\\"],
        vec![" ", "\t", " \\", "\\ ", "a b\\\\", "\\\\\\"],
        vec!["--config", "key=\"value with space\"", "", "end\\"],
    ];
    for args in cases {
        let line = parameters_of(&args);
        assert_eq!(split_line(&line), strings(&args), "line {:?}", line);
    }
}

#[test]
fn consent_is_asked_for_where_the_mechanism_has_a_way() {
    assert_eq!(
        consent_command(Platform::MacOs),
        Some(CommandLine { program: "sudo".to_string(), args: strings(&["-v"]), dir: None })
    );
    assert_eq!(consent_command(Platform::Windows), None);
}

#[test]
fn exit_after_elevation_ignores_the_child() {
    assert_eq!(exit_after_elevation(true), Ok(0));
    assert_eq!(exit_after_elevation(false), Err(InstallFailed::ElevationFailed));
}

#[test]
fn macos_install_copies_the_bundle_tree() {
    let mv = MV { src: "/w/target/debug/MyEffect.plugin".to_string() };
    assert_eq!(
        mv_command(Platform::MacOs, &mv),
        Ok(Step::CopyTree {
            from: "/w/target/debug/MyEffect.plugin".to_string(),
            to: "/Library/Application Support/Adobe/Common/Plug-ins/7.0/MediaCore/MyEffect.plugin"
                .to_string()
        })
    );
    let trailing = MV { src: "/w/target/debug/MyEffect.plugin/".to_string() };
    assert_eq!(
        mv_command(Platform::MacOs, &trailing),
        Ok(Step::CopyTree {
            from: "/w/target/debug/MyEffect.plugin/".to_string(),
            to: "/Library/Application Support/Adobe/Common/Plug-ins/7.0/MediaCore/MyEffect.plugin"
                .to_string()
        })
    );
}

#[test]
fn windows_install_copies_one_file() {
    let mv = MV { src: "target/debug/MyEffect.aex".to_string() };
    let expected = std::path::Path::new("C:\\Program Files\\Adobe\\Common\\Plug-ins\\7.0\\MediaCore\\")
        .join("MyEffect.aex");
    assert_eq!(
        mv_command(Platform::Windows, &mv),
        Ok(Step::CopyFile {
            from: "target/debug/MyEffect.aex".to_string(),
            to: expected.to_string_lossy().into_owned()
        })
    );
}

#[test]
fn source_without_base_name_is_invalid() {
    for src in ["/", "", "..", "/w/target/.."] {
        let mv = MV { src: src.to_string() };
        assert_eq!(mv_command(Platform::MacOs, &mv), Err(InstallFailed::SourceNameInvalid));
        assert_eq!(mv_command(Platform::Windows, &mv), Err(InstallFailed::SourceNameInvalid));
    }
}

#[test]
fn copy_failure_keeps_its_cause() {
    assert_eq!(copy_outcome(Ok(())), Ok(()));
    assert_eq!(
        copy_outcome(Err("permission denied".to_string())),
        Err(InstallFailed::CopyFailed { cause: "permission denied".to_string() })
    );
}

#[test]
fn package_of_the_working_directory() {
    let manifests = strings(&["/w/Cargo.toml", "/w/plugins/a/Cargo.toml", "/w/plugins/b/Cargo.toml"]);
    assert_eq!(package_for_cwd("/w/plugins/a/src", &manifests), Some(1));
    assert_eq!(package_for_cwd("/w/plugins/b", &manifests), Some(2));
    assert_eq!(package_for_cwd("/w/plugins", &manifests), Some(0));
    assert_eq!(package_for_cwd("/w/plugins/ab", &manifests), Some(0));
    assert_eq!(package_for_cwd("/elsewhere", &manifests), None);
    assert_eq!(package_for_cwd("/w", &vec![]), None);
}

#[test]
fn package_ties_go_to_the_last_listed() {
    let manifests = strings(&["/w/a/Cargo.toml", "/w/a/Other.toml", "/w/Cargo.toml"]);
    assert_eq!(package_for_cwd("/w/a", &manifests), Some(1));
    let rootless = strings(&["/", "/w/x/Cargo.toml"]);
    assert_eq!(package_for_cwd("/w", &rootless), None);
    let bare = strings(&["/", "Cargo.toml"]);
    assert_eq!(package_for_cwd("/w", &bare), Some(1));
}
