use enva::documents::{env_listed, existence_decision, existence_from_listing, validate_yaml_text};
use enva::exit::{classify_exit, classify_run_exit, code_text, BROKEN_PIPE_EXIT};
use enva::invocation::{
    create_args, creation_outcome, install_args, json_list_args, merge_env, parse_env_pairs, plan_creation,
    plan_install, plan_run_in_environment, remove_args, run_args, text_list_args, version_args, CreationStep,
};
use enva::EnvError;

fn strings(v: &[&str]) -> Vec<String> {
    v.iter().map(|s| s.to_string()).collect()
}

#[test]
fn argument_lists_of_each_operation() {
    assert_eq!(create_args("e.yaml"), strings(&["env", "create", "-f", "e.yaml", "-y"]));
    assert_eq!(run_args("demo", "ls | head"), strings(&["run", "-n", "demo", "bash", "-c", "ls | head"]));
    assert_eq!(json_list_args(), strings(&["env", "list", "--json"]));
    assert_eq!(text_list_args(), strings(&["env", "list"]));
    assert_eq!(remove_args("demo"), strings(&["env", "remove", "-n", "demo", "-y"]));
    assert_eq!(version_args(), strings(&["--version"]));
    assert_eq!(
        install_args("demo", &strings(&["samtools", "bwa"])),
        strings(&["install", "-n", "demo", "-c", "conda-forge", "-c", "bioconda", "-y", "samtools", "bwa"])
    );
}

#[test]
fn broken_pipe_exit_is_success() {
    assert!(classify_run_exit(Some(BROKEN_PIPE_EXIT)).is_ok());
    assert!(classify_run_exit(Some(141)).is_ok());
    assert!(classify_run_exit(Some(0)).is_ok());
}

#[test]
fn other_exits_carry_their_code() {
    match classify_run_exit(Some(2)) {
        Err(EnvError::Execution(m)) => assert_eq!(m, "Command failed with exit code Some(2)"),
        other => panic!("unexpected {:?}", other),
    }
    match classify_run_exit(None) {
        Err(EnvError::Execution(m)) => assert_eq!(m, "Command failed with exit code None"),
        other => panic!("unexpected {:?}", other),
    }
    assert!(classify_exit(Some(141), "x ").is_err());
}

#[test]
fn code_text_renders_like_debug() {
    assert_eq!(code_text(Some(0)), "Some(0)");
    assert_eq!(code_text(Some(1234)), "Some(1234)");
    assert_eq!(code_text(Some(-7)), "Some(-7)");
    assert_eq!(code_text(Some(i32::MIN)), format!("{:?}", Some(i32::MIN)));
    assert_eq!(code_text(None), "None");
}

#[test]
fn missing_environment_fails_before_running() {
    let r = plan_run_in_environment(false, "ghost", "echo hi", &vec![], &vec![], ".", true);
    match r {
        Err(EnvError::Execution(m)) => assert_eq!(m, "Environment 'ghost' does not exist"),
        other => panic!("unexpected {:?}", other),
    }
}

#[test]
fn run_plan_wraps_command_in_shell() {
    let inv = plan_run_in_environment(true, "demo", "echo $A", &strings(&["A=1=2", "B="]), &vec![], "/tmp", false).unwrap();
    assert_eq!(inv.args, strings(&["run", "-n", "demo", "bash", "-c", "echo $A"]));
    assert_eq!(inv.env, vec![("A".to_string(), "1=2".to_string()), ("B".to_string(), String::new())]);
    assert_eq!(inv.cwd, "/tmp");
    assert!(!inv.capture_output);
}

#[test]
fn malformed_variable_pair_is_rejected() {
    assert!(matches!(parse_env_pairs(&strings(&["OK=1", "BROKEN"])), Err(EnvError::Validation(_))));
    let r = plan_run_in_environment(true, "demo", "true", &strings(&["NOEQ"]), &vec![], ".", true);
    assert!(matches!(r, Err(EnvError::Validation(_))));
    let r = plan_run_in_environment(false, "ghost", "true", &strings(&["NOEQ"]), &vec![], ".", true);
    assert!(matches!(r, Err(EnvError::Validation(_))));
}

#[test]
fn creation_failure_messages() {
    assert!(creation_outcome(Some(0), "").is_ok());
    match creation_outcome(Some(1), "error: Non-conda folder exists at prefix /x") {
        Err(EnvError::Execution(m)) => assert!(m.contains("not a valid conda environment")),
        other => panic!("unexpected {:?}", other),
    }
    match creation_outcome(Some(3), "solver failed") {
        Err(EnvError::Execution(m)) => {
            assert_eq!(m, "Failed to create environment: micromamba command failed with exit code Some(3)")
        }
        other => panic!("unexpected {:?}", other),
    }
}

#[test]
fn invalid_yaml_plans_no_invocation() {
    let v = validate_yaml_text("name: [unclosed", "bad.yaml");
    assert!(matches!(v, Err(EnvError::Validation(_))));
    let plan = plan_creation(v, false, "bad.yaml");
    assert!(matches!(plan, Err(EnvError::Validation(_))));
}

#[test]
fn dry_run_reports_without_invoking() {
    let v = validate_yaml_text("name: a\ndependencies:\n  - x\n", "a.yaml");
    match plan_creation(v, true, "a.yaml").unwrap() {
        CreationStep::Report(r) => assert_eq!(r.environment, "a"),
        CreationStep::Invoke(_) => panic!("dry run invoked the backend"),
    }
    let v = validate_yaml_text("name: a\ndependencies:\n  - x\n", "a.yaml");
    match plan_creation(v, false, "a.yaml").unwrap() {
        CreationStep::Invoke(args) => assert_eq!(args, strings(&["env", "create", "-f", "a.yaml", "-y"])),
        CreationStep::Report(_) => panic!("expected an invocation"),
    }
}

#[test]
fn test_validate_yaml() {
    let yaml_content = "\nname: test-env\nchannels:\n  - conda-forge\ndependencies:\n  - python=3.10\n  - numpy\n";
    let result = validate_yaml_text(yaml_content, "test.yaml").unwrap();
    assert!(result.validation.syntax_valid);
    assert_eq!(result.environment, "test-env");
    assert!(result.estimated_packages >= 2);
}

#[test]
fn yaml_counts_dependencies_exactly() {
    let r = validate_yaml_text("name: demo\ndependencies:\n  - a\n  - b\n  - c\n", "d.yaml").unwrap();
    assert!(r.validation.syntax_valid);
    assert_eq!(r.estimated_packages, 3);
    assert_eq!(r.estimated_size_mb, 30);
    assert_eq!(r.yaml_file, "d.yaml");
    assert!(r.dry_run);
}

#[test]
fn yaml_without_dependencies_is_not_valid() {
    let r = validate_yaml_text("name: demo\nchannels:\n  - conda-forge\n", "d.yaml").unwrap();
    assert!(!r.validation.syntax_valid);
    assert_eq!(r.estimated_packages, 0);
    assert_eq!(r.estimated_size_mb, 0);
}

#[test]
fn yaml_without_name_is_unknown() {
    let r = validate_yaml_text("dependencies:\n  - a\n", "d.yaml").unwrap();
    assert_eq!(r.environment, "unknown");
}

#[test]
fn existence_matches_final_path_component() {
    let out = r#"{"envs": ["/opt/pm", "/opt/pm/envs/demo", "/home/u/envs/other/"]}"#;
    assert_eq!(existence_from_listing(Some(0), out, "", "demo").unwrap(), true);
    assert_eq!(existence_from_listing(Some(0), out, "", "other").unwrap(), true);
    assert_eq!(existence_from_listing(Some(0), out, "", "envs").unwrap(), false);
    assert_eq!(existence_from_listing(Some(0), out, "", "dem").unwrap(), false);
}

#[test]
fn existence_errors() {
    match existence_from_listing(Some(1), "", "boom", "demo") {
        Err(EnvError::Execution(m)) => assert_eq!(m, "Failed to list environments: boom"),
        other => panic!("unexpected {:?}", other),
    }
    assert!(matches!(existence_from_listing(Some(0), "not json", "", "demo"), Err(EnvError::Execution(_))));
    assert!(matches!(existence_from_listing(Some(0), r#"{"envs": [1]}"#, "", "demo"), Err(EnvError::Execution(_))));
    assert!(matches!(existence_from_listing(Some(0), r#"{"other": []}"#, "", "demo"), Err(EnvError::Execution(_))));
}

#[test]
fn env_listed_on_plain_prefixes() {
    let prefixes = strings(&["/a/b/base", "/a/b/envs/x"]);
    assert!(env_listed(&prefixes, "x"));
    assert!(!env_listed(&prefixes, "y"));
}

#[test]
fn existence_decision_from_decoded_prefixes() {
    let p = strings(&["/opt/pm/envs/demo"]);
    assert_eq!(existence_decision(Some(0), "", Ok(p.clone()), "demo").unwrap(), true);
    assert_eq!(existence_decision(Some(0), "", Ok(p.clone()), "other").unwrap(), false);
    assert!(matches!(existence_decision(Some(2), "err", Ok(p), "demo"), Err(EnvError::Execution(_))));
    let bad: Result<Vec<String>, EnvError> = Err(EnvError::Validation("x".to_string()));
    assert!(matches!(existence_decision(Some(0), "", bad, "demo"), Err(EnvError::Validation(_))));
}

fn pair(k: &str, v: &str) -> (String, String) {
    (k.to_string(), v.to_string())
}

#[test]
fn backend_variables_take_precedence_over_caller_pairs() {
    let caller = vec![pair("PATH", "/mine"), pair("A", "1")];
    let backend = vec![pair("LD_LIBRARY_PATH", "/pm/lib"), pair("PATH", "/pm:/usr/bin")];
    assert_eq!(
        merge_env(&caller, &backend),
        vec![pair("A", "1"), pair("LD_LIBRARY_PATH", "/pm/lib"), pair("PATH", "/pm:/usr/bin")]
    );
    let inv = plan_run_in_environment(true, "e", "true", &strings(&["PATH=/x", "B=2"]), &backend, ".", true).unwrap();
    assert_eq!(inv.env, vec![pair("B", "2"), pair("LD_LIBRARY_PATH", "/pm/lib"), pair("PATH", "/pm:/usr/bin")]);
}

#[test]
fn install_into_missing_environment_is_refused() {
    match plan_install(false, "ghost", &strings(&["bwa"])) {
        Err(EnvError::Execution(m)) => assert_eq!(
            m,
            "Environment 'ghost' does not exist. Please create it first using 'xdxtools env create --name ghost'"
        ),
        other => panic!("unexpected {:?}", other),
    }
    assert_eq!(plan_install(true, "e", &strings(&["bwa"])).unwrap(), install_args("e", &strings(&["bwa"])));
}
