use std::collections::HashMap;

use kvenv::cache::OutputTarget;
use kvenv::launch::{exit_code, plan_launch, UNKNOWN_EXIT_CODE};
use kvenv::{ChildExit, LaunchError, OutputFileConfig, ProcessEnv, RunInError, RunWith, EnvLoadError};

fn pair(a: &str, b: &str) -> (String, String) {
    (a.to_string(), b.to_string())
}

#[test]
fn exit_code_of_the_child_is_passed_on() {
    assert_eq!(10, exit_code(ChildExit { success: false, code: Some(10) }));
    assert_eq!(0, exit_code(ChildExit { success: true, code: Some(0) }));
    assert_eq!(UNKNOWN_EXIT_CODE, exit_code(ChildExit { success: false, code: None }));
    assert_eq!(-1, UNKNOWN_EXIT_CODE);
}

#[test]
fn cleanup_only_after_success_and_when_asked() {
    let run = |cleanup| RunWith { env_file: "env.json".to_string(), cleanup, command: vec!["true".to_string()] };
    let ok = ChildExit { success: true, code: Some(0) };
    let failed = ChildExit { success: false, code: Some(10) };
    let c = run(true).complete(ok);
    assert_eq!((0, true), (c.exit_code, c.remove_env_file));
    let c = run(true).complete(failed);
    assert_eq!((10, false), (c.exit_code, c.remove_env_file));
    let c = run(false).complete(ok);
    assert_eq!((0, false), (c.exit_code, c.remove_env_file));
}

#[test]
fn launch_plan_gets_exactly_the_merged_environment() {
    let env = ProcessEnv::fresh(
        vec![pair("ENV", "A")],
        vec![pair("KV", "B"), pair("M", "C")],
        vec!["M".to_string()],
    );
    let plan = plan_launch(env, vec!["/bin/sh".to_string(), "-c".to_string(), "exit 10".to_string()]).unwrap();
    assert_eq!("/bin/sh", plan.program);
    assert_eq!(vec!["-c".to_string(), "exit 10".to_string()], plan.args);
    let vars: HashMap<_, _> = plan.env.into_iter().collect();
    let expected: HashMap<_, _> = vec![pair("ENV", "A"), pair("KV", "B")].into_iter().collect();
    assert_eq!(expected, vars);
}

#[test]
fn launch_refuses_an_empty_command() {
    let env = ProcessEnv::fresh(vec![], vec![], vec![]);
    assert!(matches!(plan_launch(env, vec![]), Err(LaunchError::EmptyCommand)));
}

#[test]
fn spawn_failure_is_not_an_exit_code() {
    let e = RunInError::RunError(LaunchError::Spawn("this-does-not-exist".to_string()));
    assert_ne!(e, RunInError::LoadError(EnvLoadError::InvalidSecretFormat));
    assert!(matches!(e, RunInError::RunError(LaunchError::Spawn(_))));
}

#[test]
fn output_file_direct() {
    let cfg = OutputFileConfig { output_file: Some("./test-file.json".into()), output_dir: None };
    assert_eq!(OutputTarget::Direct("./test-file.json".to_string()), cfg.target());
    let cfg = OutputFileConfig {
        output_file: Some("./test-file.json".into()),
        output_dir: Some("./should-be-ignored".into()),
    };
    assert_eq!(OutputTarget::Direct("./test-file.json".to_string()), cfg.target());
}

#[test]
fn output_file_temp() {
    let cfg = OutputFileConfig { output_file: None, output_dir: None };
    assert_eq!(OutputTarget::Temp, cfg.target());
    let cfg = OutputFileConfig { output_file: None, output_dir: Some(".".into()) };
    assert_eq!(OutputTarget::TempIn(".".to_string()), cfg.target());
}
