use backend_shell::errors::BackendError;
use backend_shell::paths::{
    backend_launch_script, launch_script_path, resolve_backend_dir, BuildMode, Candidate, Platform,
};

fn cand(path: &str, exists: bool) -> Candidate {
    Candidate { path: path.to_string(), exists }
}

#[test]
fn debug_prefers_dev_path() {
    let r = resolve_backend_dir(
        BuildMode::Debug,
        cand("/src/../backend", true),
        Some(cand("/res/_up_/backend", true)),
        Some(cand("/res/backend", true)),
    );
    assert_eq!(r.unwrap(), "/src/../backend");
}

#[test]
fn release_never_considers_dev_path() {
    let r = resolve_backend_dir(
        BuildMode::Release,
        cand("/src/../backend", true),
        Some(cand("/res/_up_/backend", true)),
        Some(cand("/res/backend", true)),
    );
    assert_eq!(r.unwrap(), "/res/_up_/backend");
}

#[test]
fn nested_resource_dir_beats_flat_fallback() {
    let r = resolve_backend_dir(
        BuildMode::Debug,
        cand("/dev/backend", false),
        Some(cand("/res/_up_/backend", true)),
        Some(cand("/res/backend", true)),
    );
    assert_eq!(r.unwrap(), "/res/_up_/backend");
}

#[test]
fn flat_fallback_when_nested_absent() {
    let r = resolve_backend_dir(
        BuildMode::Release,
        cand("/dev/backend", true),
        Some(cand("/res/_up_/backend", false)),
        Some(cand("/res/backend", true)),
    );
    assert_eq!(r.unwrap(), "/res/backend");
}

#[test]
fn no_candidate_is_not_found() {
    let r = resolve_backend_dir(BuildMode::Release, cand("/dev/backend", false), None, None);
    match r {
        Err(e) => {
            assert!(matches!(e, BackendError::NotFound));
            assert_eq!(e.message(), "cannot locate backend resources");
        },
        Ok(_) => panic!("expected NotFound"),
    }
}

#[test]
fn launch_script_names_per_platform() {
    assert_eq!(launch_script_path("/b", Platform::Windows), "/b/start-backend.ps1");
    assert_eq!(launch_script_path("/b", Platform::Posix), "/b/start-backend.sh");
}

#[test]
fn launch_script_found() {
    let r = backend_launch_script("/b", Platform::Posix, true);
    assert_eq!(r.unwrap(), "/b/start-backend.sh");
}

#[test]
fn launch_script_missing() {
    let r = backend_launch_script("/b", Platform::Windows, false);
    match r {
        Err(e) => {
            assert_eq!(e.message(), "backend launch script missing: /b/start-backend.ps1");
            assert!(matches!(e, BackendError::MissingScript(_)));
        },
        Ok(_) => panic!("expected MissingScript"),
    }
}
