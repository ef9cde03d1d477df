use enva::commands::{
    bulk_outcome, creation_summary, dry_run_record, environments_to_create, install_target, pick_yaml, split_packages,
    validation_outcome, validation_targets, yaml_candidates, EnvCreateArgs, EnvInstallArgs, EnvValidateArgs,
};
use enva::error::{ContextualError, ErrorContext, ErrorSeverity, ResultExt};
use enva::manager::{
    generate_environment_file, managed_environment_names, template_file_names, templates_present, tools_for,
    EnvironmentStatus, MicromambaManager, VersionConfig,
};
use enva::{EnvError, PackageManager};

fn create_args(all: bool, core: bool, snakemake: bool, extra: bool, yaml: Option<&str>, name: Option<&str>) -> EnvCreateArgs {
    EnvCreateArgs { all, core, snakemake, extra, yaml: yaml.map(String::from), name: name.map(String::from) }
}

fn manager() -> MicromambaManager {
    MicromambaManager::new(
        PackageManager::Micromamba,
        "/opt/mm/bin/micromamba".to_string(),
        "/cfg".to_string(),
        VersionConfig::default(),
    )
    .unwrap()
}

#[test]
fn no_backend_is_a_configuration_error() {
    let r = MicromambaManager::new(PackageManager::Absent, String::new(), "/cfg".to_string(), VersionConfig::default());
    assert!(matches!(r, Err(EnvError::Config(_))));
}

#[test]
fn version_defaults() {
    let v = VersionConfig::default();
    assert_eq!(v.python_version, "3.10.13");
    assert_eq!(v.r_version, "4.4.3");
}

#[test]
fn backend_variables_prepend_backend_directories() {
    let m = manager();
    let vars = m.build_env_vars("", "/usr/bin");
    assert_eq!(vars[0], ("LD_LIBRARY_PATH".to_string(), "/opt/mm/bin/lib".to_string()));
    assert_eq!(vars[1], ("PATH".to_string(), "/opt/mm/bin:/usr/bin".to_string()));
    let vars = m.build_env_vars("/usr/lib", "");
    assert_eq!(vars[0].1, "/opt/mm/bin/lib:/usr/lib");
    assert_eq!(vars.len(), 2);
}

#[test]
fn registry_entries_and_statuses() {
    let mut m = manager();
    let core = m.managed_entry("xdxtools-core", true, &Ok(true)).unwrap();
    assert_eq!(core.file_path, "/cfg/xdxtools-core.yaml");
    assert!(matches!(core.status, EnvironmentStatus::Installed));
    assert!(core.tools.contains(&"samtools".to_string()));
    assert!(m.managed_entry("xdxtools-r", false, &Ok(true)).is_none());
    let r = m.managed_entry("xdxtools-r", true, &Err(EnvError::Execution("boom".to_string()))).unwrap();
    match &r.status {
        EnvironmentStatus::Error(t) => assert_eq!(t, "Execution error: boom"),
        other => panic!("unexpected {:?}", other),
    }
    m.register_environment(core);
    m.register_environment(r);
    let again = m.managed_entry("xdxtools-core", true, &Ok(false)).unwrap();
    m.register_environment(again);
    assert_eq!(m.get_all_environments().len(), 2);
    assert!(matches!(m.get_environment("xdxtools-core").unwrap().status, EnvironmentStatus::NotInstalled));
    assert!(m.get_environment("nope").is_none());

    let listed = m.list_environments(&vec![Ok(true), Ok(false)]);
    assert!(matches!(listed[0].status, EnvironmentStatus::Ready));
    assert!(matches!(listed[1].status, EnvironmentStatus::NotInstalled));
    assert!(matches!(m.get_all_environments()[0].status, EnvironmentStatus::NotInstalled));

    m.update_environment_statuses(&vec![true, false]);
    assert!(matches!(m.get_all_environments()[0].status, EnvironmentStatus::Ready));
    assert!(matches!(m.get_all_environments()[1].status, EnvironmentStatus::Error(_)));
    m.update_environment_statuses(&vec![false, false]);
    assert!(matches!(m.get_all_environments()[0].status, EnvironmentStatus::NotInstalled));
}

#[test]
fn managed_names_and_templates() {
    assert_eq!(managed_environment_names(), vec!["xdxtools-core", "xdxtools-r", "xdxtools-snakemake", "xdxtools-extra"]);
    assert_eq!(template_file_names()[2], "xdxtools-snakemake.yaml");
    assert!(templates_present(4));
    assert!(!templates_present(3));
    assert!(generate_environment_file("xdxtools-r").unwrap().starts_with("name: xdxtools-r\n"));
    assert!(matches!(generate_environment_file("other"), Err(EnvError::Validation(_))));
    assert_eq!(tools_for("xdxtools-snakemake"), vec!["snakemake", "jinja2", "click", "git"]);
    assert!(tools_for("other").is_empty());
}

#[test]
fn creation_targets() {
    assert_eq!(
        environments_to_create(&create_args(true, false, false, false, None, None)).unwrap(),
        vec!["xdxtools-core", "xdxtools-snakemake", "xdxtools-extra"]
    );
    assert_eq!(
        environments_to_create(&create_args(false, true, false, true, None, Some("mine"))).unwrap(),
        vec!["xdxtools-core", "xdxtools-extra", "mine"]
    );
    assert_eq!(
        environments_to_create(&create_args(true, false, false, false, Some("f.yaml"), Some("mine"))).unwrap(),
        vec!["mine"]
    );
    assert!(matches!(
        environments_to_create(&create_args(false, false, false, false, Some("f.yaml"), None)),
        Err(EnvError::Validation(_))
    ));
    assert!(matches!(
        environments_to_create(&create_args(false, false, false, false, None, None)),
        Err(EnvError::Validation(_))
    ));
}

#[test]
fn validation_and_install_targets() {
    let all = validation_targets(&EnvValidateArgs { all: false, name: None });
    assert_eq!(all, vec!["xdxtools-core", "xdxtools-snakemake", "xdxtools-extra"]);
    let one = validation_targets(&EnvValidateArgs { all: false, name: Some("x".to_string()) });
    assert_eq!(one, vec!["x"]);
    assert_eq!(install_target(&EnvInstallArgs { packages: vec![], name: None }), "xdxtools-core");
}

#[test]
fn packages_split_on_commas_and_trimmed() {
    let lists = vec!["samtools, bwa".to_string(), " ,fastqc ,".to_string(), "multiqc".to_string()];
    assert_eq!(split_packages(&lists).unwrap(), vec!["samtools", "bwa", "fastqc", "multiqc"]);
    assert!(matches!(split_packages(&vec![" , ".to_string()]), Err(EnvError::Validation(_))));
    assert!(matches!(split_packages(&vec![]), Err(EnvError::Validation(_))));
}

#[test]
fn yaml_file_choice() {
    let (a, b) = yaml_candidates("/work", "xdxtools-core");
    assert_eq!(a, "/work/src/configs/xdxtools-core.yaml");
    assert_eq!(b, "/work/environments/configs/xdxtools-core.yaml");
    assert_eq!(pick_yaml(a.clone(), b.clone(), false, true), b);
    assert_eq!(pick_yaml(a.clone(), b.clone(), true, true), a);
    assert_eq!(pick_yaml(a.clone(), b.clone(), false, false), a);
}

#[test]
fn dry_run_records_and_summary() {
    let r = dry_run_record("e", "/f.yaml", false);
    assert_eq!(r.status, "file_not_found");
    assert_eq!(r.action, "create");
    assert!(r.dry_run);
    assert_eq!(dry_run_record("e", "/f.yaml", true).status, "ready");
    assert!(creation_summary(0).is_ok());
    match creation_summary(12) {
        Err(EnvError::Execution(m)) => assert_eq!(m, "12 environments failed to create"),
        other => panic!("unexpected {:?}", other),
    }
}

#[test]
fn error_classification() {
    assert_eq!(EnvError::Validation("x".to_string()).severity(), ErrorSeverity::Warning);
    assert_eq!(EnvError::Workflow("x".to_string()).severity(), ErrorSeverity::Critical);
    assert_eq!(EnvError::Network("x".to_string()).severity(), ErrorSeverity::Error);
    assert!(EnvError::Network("x".to_string()).is_recoverable());
    assert!(!EnvError::Config("x".to_string()).is_recoverable());
    assert!(EnvError::PermissionDenied("x".to_string()).is_dependency_error());
    assert!(!EnvError::Network("x".to_string()).is_dependency_error());
}

#[test]
fn error_context_prefixes() {
    match EnvError::Config("bad".to_string()).with_context("loading") {
        EnvError::Config(m) => assert_eq!(m, "loading: bad"),
        other => panic!("unexpected {:?}", other),
    }
    match EnvError::Network("down".to_string()).with_context("fetch") {
        EnvError::Internal(m) => assert_eq!(m, "fetch: Network error: down"),
        other => panic!("unexpected {:?}", other),
    }
    assert_eq!(EnvError::Execution("x".to_string()).to_string(), "Execution error: x");
}

#[test]
fn contextual_errors() {
    let ctx = ErrorContext::new("create").with_workflow_id("wf").with_step(3);
    assert_eq!(ctx.operation, "create");
    assert_eq!(ctx.workflow_id.as_deref(), Some("wf"));
    assert_eq!(ctx.step, Some(3));
    assert!(ctx.timestamp > 0);
    let r: Result<(), EnvError> = Err(EnvError::Lock("held".to_string()));
    let c = r.with_context("op").unwrap_err();
    assert_eq!(c.context.operation, "op");
    let e = ContextualError::from_error(EnvError::Lock("x".to_string()), "y");
    assert!(matches!(e.error, EnvError::Lock(_)));
    assert!(EnvError::Lock("x".to_string()).timestamp() > 0);
}

#[test]
fn validation_verdicts() {
    let all = EnvValidateArgs { all: true, name: None };
    assert!(validation_outcome(&all, vec![Ok(true), Ok(true), Ok(true)]).is_ok());
    assert!(matches!(validation_outcome(&all, vec![Ok(true), Ok(false), Ok(true)]), Err(EnvError::Validation(_))));
    assert!(matches!(
        validation_outcome(&all, vec![Ok(true), Err(EnvError::Execution("x".to_string())), Ok(true)]),
        Err(EnvError::Validation(_))
    ));
    let one = EnvValidateArgs { all: false, name: Some("demo".to_string()) };
    assert!(validation_outcome(&one, vec![Ok(true)]).is_ok());
    match validation_outcome(&one, vec![Ok(false)]) {
        Err(EnvError::Validation(m)) => assert_eq!(m, "Environment demo validation failed"),
        other => panic!("unexpected {:?}", other),
    }
    assert!(matches!(validation_outcome(&one, vec![Err(EnvError::Execution("x".to_string()))]), Err(EnvError::Execution(_))));
}

#[test]
fn bulk_creation_counts_failures() {
    assert!(bulk_outcome(&vec![Ok(()), Ok(())]).is_ok());
    let r = bulk_outcome(&vec![Err(EnvError::Execution("a".to_string())), Ok(()), Err(EnvError::Config("b".to_string()))]);
    match r {
        Err(EnvError::Execution(m)) => assert_eq!(m, "2 environments failed to create"),
        other => panic!("unexpected {:?}", other),
    }
}

#[test]
fn missing_name_message() {
    let a = enva::env_run::EnvRunArgs {
        name: None,
        command: None,
        script: None,
        args: vec![],
        cwd: ".".to_string(),
        env: vec![],
        no_capture: false,
    };
    match a.get_env_name() {
        Err(EnvError::Validation(m)) => assert_eq!(m, "Missing environment name"),
        other => panic!("unexpected {:?}", other),
    }
}
