use enva::installer::{
    after_fetch, after_place, begin_install, check_executable, common_install_paths, download_sources,
    install_directory, install_result, locate_backend, payload_kind, platform_target, BackendLocation, FetchOutcome,
    InstallStep, PayloadKind,
};
use enva::EnvError;

fn sources() -> Vec<enva::installer::DownloadSource> {
    download_sources(&platform_target("linux", "x86_64").unwrap())
}

#[test]
fn existing_target_requests_nothing() {
    let (_, step) = begin_install(true, sources());
    assert_eq!(step, InstallStep::AlreadyInstalled);
}

#[test]
fn missing_target_requests_primary_first() {
    let (state, step) = begin_install(false, sources());
    assert_eq!(step, InstallStep::Fetch(0));
    assert_eq!(state.current, 0);
}

#[test]
fn platform_identifiers() {
    let t = platform_target("linux", "x86_64").unwrap();
    assert_eq!(t.platform, "linux-64");
    let t = platform_target("macos", "aarch64").unwrap();
    assert_eq!(t.platform, "osx-arm64");
    assert_eq!(t.release_os, "osx");
    assert_eq!(t.release_arch, "arm64");
    let t = platform_target("windows", "x86_64").unwrap();
    assert_eq!(t.platform, "win-64");
    match platform_target("linux", "riscv64") {
        Err(EnvError::Validation(m)) => assert_eq!(m, "Unsupported architecture: riscv64. Supported: x86_64, aarch64"),
        other => panic!("unexpected {:?}", other),
    }
    match platform_target("freebsd", "x86_64") {
        Err(EnvError::Validation(m)) => assert_eq!(m, "Unsupported OS: freebsd. Supported: linux, macos, windows"),
        other => panic!("unexpected {:?}", other),
    }
}

#[test]
fn source_urls() {
    let s = sources();
    assert_eq!(s.len(), 2);
    assert_eq!(s[0].name, "Official Micromamba");
    assert_eq!(s[0].url, "https://micro.mamba.pm/api/micromamba/linux-64/latest");
    assert_eq!(s[1].name, "GitHub Releases");
    assert_eq!(
        s[1].url,
        "https://github.com/mamba-org/micromamba-releases/releases/latest/download/micromamba-linux-64"
    );
}

#[test]
fn install_directory_precedence() {
    let o = Some("/custom".to_string());
    let x = Some("/xdg".to_string());
    let h = Some("/home/u".to_string());
    let e = Some("/bin/dir".to_string());
    assert_eq!(install_directory(o, x.clone(), h.clone(), e.clone()).unwrap(), "/custom/micromamba");
    assert_eq!(install_directory(None, x, h.clone(), e.clone()).unwrap(), "/xdg/micromamba/micromamba");
    assert_eq!(
        install_directory(None, None, h, e.clone()).unwrap(),
        "/home/u/.local/share/micromamba/micromamba"
    );
    assert_eq!(install_directory(None, None, None, e).unwrap(), "/bin/dir/micromamba");
    assert!(matches!(install_directory(None, None, None, None), Err(EnvError::FileOperation(_))));
}

#[test]
fn payload_sniffing() {
    assert_eq!(payload_kind(b"<!DOCTYPE html><html>"), PayloadKind::Html);
    assert_eq!(payload_kind(b"<html><body>"), PayloadKind::Html);
    assert_eq!(payload_kind(b"BZh91AY&SY"), PayloadKind::Archive);
    assert_eq!(payload_kind(b"\x7fELF\x02\x01"), PayloadKind::Binary);
    assert_eq!(payload_kind(b""), PayloadKind::Binary);
    assert_eq!(payload_kind(b"BZ"), PayloadKind::Binary);
}

#[test]
fn html_payload_moves_to_next_source() {
    let (mut state, _) = begin_install(false, sources());
    let step = after_fetch(&mut state, FetchOutcome::Payload(PayloadKind::Html));
    assert_eq!(step, InstallStep::Fetch(1));
    assert_eq!(state.last_error.as_deref(), Some("Official Micromamba: Received HTML instead of binary"));
    let step = after_fetch(&mut state, FetchOutcome::Payload(PayloadKind::Archive));
    assert_eq!(step, InstallStep::Place(1, PayloadKind::Archive));
    assert_eq!(after_place(&mut state, Ok(())), InstallStep::Placed);
}

#[test]
fn all_sources_failing_gives_one_aggregated_error() {
    let (mut state, _) = begin_install(false, sources());
    assert_eq!(after_fetch(&mut state, FetchOutcome::HttpStatus(404)), InstallStep::Fetch(1));
    assert_eq!(state.last_error.as_deref(), Some("Official Micromamba: HTTP 404"));
    assert_eq!(
        after_fetch(&mut state, FetchOutcome::ConnectionFailed("timed out".to_string())),
        InstallStep::Exhausted
    );
    match install_result(&state, false, "/x/micromamba".to_string()) {
        Err(EnvError::Network(m)) => {
            assert!(m.contains("Official Micromamba"));
            assert!(m.contains("GitHub Releases"));
            assert!(m.contains("Last error: GitHub Releases: Connection failed: timed out"));
            assert!(m.contains("MICROMAMBA_INSTALL_DIR"));
        }
        other => panic!("unexpected {:?}", other),
    }
    assert_eq!(install_result(&state, true, "/x/micromamba".to_string()).unwrap(), "/x/micromamba");
}

#[test]
fn failed_placement_tries_next_source() {
    let (mut state, _) = begin_install(false, sources());
    assert_eq!(after_fetch(&mut state, FetchOutcome::Payload(PayloadKind::Binary)), InstallStep::Place(0, PayloadKind::Binary));
    assert_eq!(after_place(&mut state, Err("disk full".to_string())), InstallStep::Fetch(1));
    assert_eq!(state.last_error.as_deref(), Some("Official Micromamba: disk full"));
    assert_eq!(
        after_fetch(&mut state, FetchOutcome::ReadFailed("reset".to_string())),
        InstallStep::Exhausted
    );
    assert_eq!(state.last_error.as_deref(), Some("GitHub Releases: Failed to read response: reset"));
}

#[test]
fn executable_checks() {
    let ok = check_executable(Ok("/bin/mm".to_string()), true, true, Ok(0o755));
    assert_eq!(ok.unwrap(), "/bin/mm");
    assert!(matches!(check_executable(Ok("/bin/mm".to_string()), true, true, Ok(0o644)), Err(EnvError::PermissionDenied(_))));
    assert!(matches!(check_executable(Ok("/bin/mm".to_string()), true, false, Ok(0o755)), Err(EnvError::FileOperation(_))));
    assert!(matches!(check_executable(Ok("/bin/mm".to_string()), false, true, Ok(0o755)), Err(EnvError::FileOperation(_))));
    assert!(matches!(check_executable(Err("nope".to_string()), true, true, Ok(0o755)), Err(EnvError::FileOperation(_))));
    assert!(check_executable(Ok("/bin/mm".to_string()), true, true, Ok(0o100)).is_ok());
}

#[test]
fn common_paths_in_order() {
    assert_eq!(
        common_install_paths(),
        vec!["/usr/local/bin/micromamba", "/opt/micromamba/bin/micromamba", "/usr/bin/micromamba"]
    );
}

#[test]
fn backend_lookup_order() {
    let c = common_install_paths();
    assert_eq!(
        locate_backend(Some("/p/micromamba".to_string()), &c, &vec![true, true, true]),
        BackendLocation::Existing("/p/micromamba".to_string())
    );
    assert_eq!(
        locate_backend(None, &c, &vec![false, true, true]),
        BackendLocation::Existing("/opt/micromamba/bin/micromamba".to_string())
    );
    assert_eq!(locate_backend(None, &c, &vec![false, false, false]), BackendLocation::Install);
}

#[test]
fn successful_placement_keeps_last_error() {
    let (mut state, _) = begin_install(false, sources());
    after_fetch(&mut state, FetchOutcome::HttpStatus(500));
    after_fetch(&mut state, FetchOutcome::Payload(PayloadKind::Binary));
    assert_eq!(after_place(&mut state, Ok(())), InstallStep::Placed);
    assert_eq!(state.last_error.as_deref(), Some("Official Micromamba: HTTP 500"));
}
