use enva::package_manager::{forced_kind, PackageManager, PackageManagerDetector};

#[test]
fn test_pm_command() {
    assert_eq!(PackageManager::Conda.command(), "conda");
    assert_eq!(PackageManager::Mamba.command(), "mamba");
    assert_eq!(PackageManager::Micromamba.command(), "micromamba");
    assert_eq!(PackageManager::Absent.command(), "");
}

#[test]
fn test_run_syntax() {
    assert_eq!(PackageManager::Conda.run_syntax("test_env"), "conda run -n test_env");
    assert_eq!(PackageManager::Mamba.run_syntax("test_env"), "mamba run -n test_env");
    assert_eq!(PackageManager::Micromamba.run_syntax("test_env"), "micromamba run -n test_env");
    assert_eq!(PackageManager::Absent.run_syntax("test_env"), "test_env");
}

#[test]
fn test_pm_display() {
    assert_eq!(PackageManager::Conda.to_string(), "conda");
    assert_eq!(PackageManager::Mamba.to_string(), "mamba");
    assert_eq!(PackageManager::Micromamba.to_string(), "micromamba");
    assert_eq!(PackageManager::Absent.to_string(), "none");
}

#[test]
fn test_detector_new() {
    let detector = PackageManagerDetector::new();
    assert!(detector.detected.is_none());
    assert_eq!(detector.detection_order.len(), 3);
    assert_eq!(detector.detection_order[0], PackageManager::Conda);
    assert_eq!(detector.detection_order[1], PackageManager::Mamba);
    assert_eq!(detector.detection_order[2], PackageManager::Micromamba);
}

#[test]
fn test_detector_with_order() {
    let custom_order = vec![PackageManager::Micromamba, PackageManager::Mamba, PackageManager::Conda];
    let detector = PackageManagerDetector::with_order(custom_order.clone());
    assert_eq!(detector.detection_order, custom_order);
}

#[test]
fn test_get_run_command_no_detection() {
    let detector = PackageManagerDetector::new();
    assert_eq!(detector.get_run_command("test_env"), "test_env");
}

#[test]
fn test_get_run_command_with_detection() {
    let mut detector = PackageManagerDetector::new();
    detector.detected = Some(PackageManager::Mamba);
    assert_eq!(detector.get_run_command("test_env"), "mamba run -n test_env");
}

#[test]
fn run_syntax_names_command_and_environment() {
    for pm in [PackageManager::Conda, PackageManager::Mamba, PackageManager::Micromamba] {
        let text = pm.run_syntax("envX");
        assert!(text.contains(pm.command()));
        assert!(text.contains("envX"));
    }
}

#[test]
fn detect_picks_first_available_in_order() {
    let mut detector = PackageManagerDetector::new();
    let found = detector.detect(|pm| pm == PackageManager::Mamba || pm == PackageManager::Micromamba);
    assert_eq!(found.unwrap(), PackageManager::Mamba);
    assert_eq!(detector.get(), Some(PackageManager::Mamba));
}

#[test]
fn detect_caches_first_result() {
    let mut detector = PackageManagerDetector::new();
    detector.detect(|pm| pm == PackageManager::Conda).unwrap();
    let again = detector.detect(|_| panic!("probed after detection"));
    assert_eq!(again.unwrap(), PackageManager::Conda);
}

#[test]
fn detect_with_nothing_available_is_absent_not_error() {
    let mut detector = PackageManagerDetector::new();
    assert_eq!(detector.detect(|_| false).unwrap(), PackageManager::Absent);
    assert_eq!(detector.get(), Some(PackageManager::Absent));
}

#[test]
fn forced_unavailable_falls_back_to_priority_order() {
    let mut detector = PackageManagerDetector::new();
    let found = detector.detect_specific(PackageManager::Conda, |pm| pm == PackageManager::Micromamba);
    assert_eq!(found.unwrap(), PackageManager::Micromamba);
}

#[test]
fn forced_unavailable_with_nothing_available_is_absent() {
    let mut detector = PackageManagerDetector::new();
    let found = detector.detect_specific(PackageManager::Mamba, |_| false);
    assert_eq!(found.unwrap(), PackageManager::Absent);
}

#[test]
fn forced_available_is_taken() {
    let mut detector = PackageManagerDetector::new();
    let found = detector.detect_specific(PackageManager::Micromamba, |_| true);
    assert_eq!(found.unwrap(), PackageManager::Micromamba);
}

#[test]
fn override_value_is_case_insensitive() {
    let mut detector = PackageManagerDetector::new();
    let found = detector.detect_with_env_override(Some("MAMBA"), |_| true);
    assert_eq!(found.unwrap(), PackageManager::Mamba);
}

#[test]
fn unknown_override_value_uses_priority_order() {
    let mut detector = PackageManagerDetector::new();
    let found = detector.detect_with_env_override(Some("pixi"), |pm| pm != PackageManager::Conda);
    assert_eq!(found.unwrap(), PackageManager::Mamba);
}

#[test]
fn forced_kind_names() {
    assert_eq!(forced_kind("conda"), Some(PackageManager::Conda));
    assert_eq!(forced_kind("micromamba"), Some(PackageManager::Micromamba));
    assert_eq!(forced_kind("Conda"), None);
    assert_eq!(forced_kind(""), None);
}
