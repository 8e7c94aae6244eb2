use cargo_jk::artifact::{BuildArtifact, PackagingFailed};
use cargo_jk::builder::{exit_code, plugin_report, run_build, BuildFailure, ChildExit};
use cargo_jk::bundle::assemble;
use cargo_jk::command::{Build, Format, Platform};
use cargo_jk::identity::PluginIdentity;
use cargo_jk::install::{elevate_self, elevation_state, exit_after_elevation, mv_action, Elevation, MvAction};
use cargo_jk::package::post_build_process;
use cargo_jk::runner::{failure_of, next_step, Decision};
use cargo_jk::steps::Step;

fn identity() -> PluginIdentity {
    PluginIdentity::new("MyEffect", "com.example.my-effect").unwrap()
}

fn is_run_of(step: &Step, program: &str, arg: &str) -> bool {
    match step {
        Step::Run { command } => command.program == program && command.args.iter().any(|a| a == arg),
        _ => false,
    }
}

/// Carries the plan out with `outcome` deciding each step, and returns the
/// indices performed and the last decision.
fn carry_out(steps: &Vec<Step>, outcome: &dyn Fn(&Step) -> bool) -> (Vec<usize>, Decision) {
    let mut outcomes: Vec<bool> = Vec::new();
    let mut performed: Vec<usize> = Vec::new();
    loop {
        match next_step(steps, &outcomes) {
            Decision::Perform { index } => {
                performed.push(index);
                outcomes.push(outcome(&steps[index]));
            }
            decision => return (performed, decision),
        }
    }
}

#[test]
fn debug_build_reports_the_plugin_as_json() {
    let build = Build { format: Format::Json, release: false };
    let file = "/w/target/debug/my_effect.dll";
    let windows =
        post_build_process(Platform::Windows, &build, file, true, "my-effect", &identity()).unwrap();
    assert_eq!(
        plugin_report(build.format, &windows.plugin),
        Some("{\"path\":\"/w/target/debug/MyEffect.aex\"}".to_string())
    );
    let macos =
        post_build_process(Platform::MacOs, &build, file, true, "my-effect", &identity()).unwrap();
    assert_eq!(
        plugin_report(build.format, &macos.plugin),
        Some("{\"path\":\"/w/target/debug/MyEffect.plugin\"}".to_string())
    );
    assert_eq!(exit_code(true), 0);
}

#[test]
fn failed_build_ends_the_pipeline() {
    let stream = b"error: could not compile `my-effect`\n{\"reason\":\"build-finished\",\"success\":false}\n";
    let built = run_build(stream, ChildExit { success: false, code: Some(101) });
    assert_eq!(built, Err(BuildFailure::BuildFailed { exit_status: Some(101) }));
    assert_eq!(exit_code(built.is_ok()), 1);
}

#[test]
fn failed_arm64_build_never_reaches_the_merge() {
    let artifact = BuildArtifact { path: "/w/target/release/libmy_effect.dylib".to_string() };
    let plan = assemble(&artifact, "my-effect", &identity(), true).unwrap();
    let merge = plan.steps.iter().position(|s| is_run_of(s, "lipo", "-create")).unwrap();
    let arm64 =
        plan.steps.iter().position(|s| is_run_of(s, "cargo", "aarch64-apple-darwin")).unwrap();
    assert!(arm64 < merge);
    let fails_on_arm64 = |s: &Step| !is_run_of(s, "cargo", "aarch64-apple-darwin");
    let (performed, decision) = carry_out(&plan.steps, &fails_on_arm64);
    assert_eq!(decision, Decision::Aborted { failed: arm64 });
    assert_eq!(performed, (0..=arm64).collect::<Vec<usize>>());
    assert!(!performed.contains(&merge));
    assert_eq!(failure_of(&plan.steps[arm64]), PackagingFailed::StepFailed);
    assert_eq!(exit_code(decision == Decision::Finished), 1);
}

#[test]
fn plan_without_failures_is_carried_out_in_order() {
    let artifact = BuildArtifact { path: "/w/target/release/libmy_effect.dylib".to_string() };
    let plan = assemble(&artifact, "my-effect", &identity(), true).unwrap();
    let (performed, decision) = carry_out(&plan.steps, &|_| true);
    assert_eq!(decision, Decision::Finished);
    assert_eq!(performed, (0..plan.steps.len()).collect::<Vec<usize>>());
}

#[test]
fn decisions_on_given_outcomes() {
    let steps = vec![
        Step::CreateDirs { path: "a".to_string() },
        Step::CreateDirs { path: "b".to_string() },
    ];
    assert_eq!(next_step(&steps, &vec![]), Decision::Perform { index: 0 });
    assert_eq!(next_step(&steps, &vec![true]), Decision::Perform { index: 1 });
    assert_eq!(next_step(&steps, &vec![true, true]), Decision::Finished);
    assert_eq!(next_step(&steps, &vec![false]), Decision::Aborted { failed: 0 });
    assert_eq!(next_step(&steps, &vec![true, false]), Decision::Aborted { failed: 1 });
    assert_eq!(next_step(&steps, &vec![false, false]), Decision::Aborted { failed: 0 });
    assert_eq!(next_step(&vec![], &vec![]), Decision::Finished);
}

#[test]
fn failed_rename_is_a_rename_failure() {
    let artifact = BuildArtifact { path: "/w/target/debug/my_effect.dll".to_string() };
    let plan = cargo_jk::aex::package(&artifact, &identity()).unwrap();
    let (performed, decision) = carry_out(&plan.steps, &|_| false);
    assert_eq!(performed, vec![0]);
    assert_eq!(decision, Decision::Aborted { failed: 0 });
    assert_eq!(failure_of(&plan.steps[0]), PackagingFailed::RenameFailed);
    assert_eq!(
        failure_of(&Step::CreateDirs { path: "a".to_string() }),
        PackagingFailed::StepFailed
    );
}

#[test]
fn unelevated_install_relaunches_and_copies_nothing() {
    let action = mv_action(elevation_state(false));
    assert_eq!(action, MvAction::Elevate);
    assert_ne!(action, MvAction::Copy);
    let args = vec!["jk".to_string(), "mv".to_string(), "/w/MyEffect.plugin".to_string()];
    match elevate_self(Platform::MacOs, "/bin/cargo-jk", &args) {
        Elevation::Command { command } => {
            assert_eq!(command.program, "sudo");
            assert_eq!(command.args, vec!["/bin/cargo-jk", "jk", "mv", "/w/MyEffect.plugin"]);
        }
        other => panic!("unexpected elevation {:?}", other),
    }
    assert_eq!(exit_after_elevation(true), Ok(0));
}
