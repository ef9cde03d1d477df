use enva::env_run::{build_full_command, check_run_args, plan_env_run, validate_args, EnvRunArgs};
use enva::EnvError;

fn args_with(name: Option<&str>, command: Option<&str>, script: Option<&str>, args: Vec<&str>, env: Vec<&str>) -> EnvRunArgs {
    EnvRunArgs {
        name: name.map(|s| s.to_string()),
        command: command.map(|s| s.to_string()),
        script: script.map(|s| s.to_string()),
        args: args.into_iter().map(|s| s.to_string()).collect(),
        cwd: ".".to_string(),
        env: env.into_iter().map(|s| s.to_string()).collect(),
        no_capture: false,
    }
}

#[test]
fn test_validate_args_both_command_and_script() {
    let args = EnvRunArgs {
        name: Some("test-env".to_string()),
        command: Some("echo test".to_string()),
        script: Some("test.R".to_string()),
        args: vec![],
        cwd: ".".to_string(),
        env: vec![],
        no_capture: false,
    };
    let result = validate_args(&args);
    assert!(result.is_err());
}

#[test]
fn test_validate_args_neither_command_nor_script() {
    let args = EnvRunArgs {
        name: Some("test-env".to_string()),
        command: None,
        script: None,
        args: vec![],
        cwd: ".".to_string(),
        env: vec![],
        no_capture: false,
    };
    let result = validate_args(&args);
    assert!(result.is_err());
}

#[test]
fn test_validate_args_invalid_env_format() {
    let args = EnvRunArgs {
        name: Some("test-env".to_string()),
        command: Some("echo test".to_string()),
        script: None,
        args: vec![],
        cwd: ".".to_string(),
        env: vec!["INVALID_FORMAT".to_string()],
        no_capture: false,
    };
    let result = validate_args(&args);
    assert!(result.is_err());
}

#[test]
fn test_validate_args_valid() {
    let args = EnvRunArgs {
        name: Some("test-env".to_string()),
        command: Some("echo test".to_string()),
        script: None,
        args: vec![],
        cwd: ".".to_string(),
        env: vec!["KEY=VALUE".to_string()],
        no_capture: false,
    };
    let result = validate_args(&args);
    assert!(result.is_ok());
}

#[test]
fn env_name_from_flag_then_positional() {
    let a = args_with(Some("flagged"), None, None, vec!["pos", "ls"], vec![]);
    assert_eq!(a.get_env_name().unwrap(), "flagged");
    let b = args_with(None, None, None, vec!["pos", "ls"], vec![]);
    assert_eq!(b.get_env_name().unwrap(), "pos");
    let c = args_with(None, None, None, vec![], vec![]);
    assert!(matches!(c.get_env_name(), Err(EnvError::Validation(_))));
}

#[test]
fn command_from_flag_or_remaining_positionals() {
    let a = args_with(None, Some("echo hi"), None, vec!["env", "ls"], vec![]);
    assert_eq!(a.get_command().unwrap(), "echo hi");
    let b = args_with(None, None, None, vec!["env", "ls", "-l", "/tmp"], vec![]);
    assert_eq!(b.get_command().unwrap(), "ls -l /tmp");
    let c = args_with(Some("env"), None, None, vec!["ls", "-l"], vec![]);
    assert_eq!(c.get_command().unwrap(), "ls -l");
    let d = args_with(None, None, None, vec!["env"], vec![]);
    assert!(matches!(d.get_command(), Err(EnvError::Validation(_))));
}

#[test]
fn full_command_of_script_appends_arguments() {
    let a = args_with(None, None, Some("plot.R"), vec!["a", "b"], vec![]);
    assert_eq!(build_full_command(&a).unwrap(), "Rscript plot.R a b");
    let b = args_with(None, None, Some("plot.R"), vec![], vec![]);
    assert_eq!(build_full_command(&b).unwrap(), "Rscript plot.R");
    let c = args_with(None, None, None, vec![], vec![]);
    assert!(matches!(build_full_command(&c), Err(EnvError::Validation(_))));
}

#[test]
fn existing_script_passes_validation() {
    let a = args_with(Some("env"), None, Some("/"), vec![], vec![]);
    assert!(validate_args(&a).is_ok());
    let b = args_with(Some("env"), None, Some("/no/such/script-file.R"), vec![], vec![]);
    assert!(matches!(validate_args(&b), Err(EnvError::Validation(_))));
}

#[test]
fn pair_without_equals_fails_before_anything_runs() {
    let a = args_with(Some("env"), Some("true"), None, vec![], vec!["A=1", "B"]);
    assert!(matches!(plan_env_run(&a, false), Err(EnvError::Validation(_))));
}

#[test]
fn plan_resolves_script_and_carries_options() {
    let mut a = args_with(None, None, Some("/"), vec!["myenv"], vec!["A=1"]);
    a.no_capture = true;
    let plan = plan_env_run(&a, true).unwrap();
    assert_eq!(plan.env_name, "myenv");
    assert_eq!(plan.command, "Rscript /");
    assert_eq!(plan.env_vars, vec!["A=1".to_string()]);
    assert!(!plan.capture_output);
}

#[test]
fn script_existence_decides_when_a_script_is_named() {
    let a = args_with(Some("env"), None, Some("plot.R"), vec![], vec!["K=V"]);
    assert!(check_run_args(&a, true).is_ok());
    assert!(matches!(check_run_args(&a, false), Err(EnvError::Validation(_))));
    assert!(matches!(plan_env_run(&a, false), Err(EnvError::Validation(_))));
    assert_eq!(plan_env_run(&a, true).unwrap().command, "Rscript plot.R");
}
