use backend_shell::paths::{BuildMode, Platform};
use backend_shell::supervisor::{launch_plan, BackendProcess};

#[test]
fn fresh_slot_is_empty() {
    let mut slot = BackendProcess::default();
    assert_eq!(slot.take(), None);
}

#[test]
fn stop_before_start_is_a_no_op() {
    let mut slot = BackendProcess::default();
    assert_eq!(slot.stop(), None);
}

#[test]
fn stop_twice_kills_only_once() {
    let mut slot = BackendProcess::default();
    slot.store(7);
    assert_eq!(slot.stop(), Some(7));
    // The handle was already taken: the second stop observes no stored child.
    assert_eq!(slot.stop(), None);
}

#[test]
fn store_then_take_round_trips() {
    let mut slot = BackendProcess::default();
    slot.store(42);
    assert_eq!(slot.take(), Some(42));
    assert_eq!(slot.take(), None);
}

#[test]
fn windows_plan_uses_powershell_with_bypass() {
    let p = launch_plan(
        Platform::Windows,
        BuildMode::Release,
        "/b",
        "/b/start-backend.ps1",
        "/data/logs",
        "/data/data",
    );
    assert_eq!(p.program, "powershell");
    assert_eq!(
        p.args,
        vec!["-NoProfile", "-ExecutionPolicy", "Bypass", "-File", "/b/start-backend.ps1"]
    );
    assert_eq!(p.current_dir, "/b");
    assert!(!p.inherit_stdio);
}

#[test]
fn posix_plan_uses_bash() {
    let p = launch_plan(
        Platform::Posix,
        BuildMode::Debug,
        "/b",
        "/b/start-backend.sh",
        "/data/logs",
        "/data/data",
    );
    assert_eq!(p.program, "bash");
    assert_eq!(p.args, vec!["/b/start-backend.sh"]);
    assert_eq!(p.current_dir, "/b");
    assert!(p.inherit_stdio);
}

#[test]
fn plan_injects_backend_environment() {
    let p = launch_plan(
        Platform::Posix,
        BuildMode::Release,
        "/b",
        "/b/start-backend.sh",
        "/data/logs",
        "/data/data",
    );
    let env: Vec<(String, String)> = p.env;
    assert_eq!(env.len(), 5);
    assert_eq!(env[0], ("WEAVIATE_KING_HOST".to_string(), "127.0.0.1".to_string()));
    assert_eq!(env[1], ("WEAVIATE_KING_PORT".to_string(), "5175".to_string()));
    assert_eq!(env[2], ("LOG_DIR".to_string(), "/data/logs".to_string()));
    assert_eq!(env[3], ("DATA_DIR".to_string(), "/data/data".to_string()));
    assert_eq!(env[4], ("PYTHONUNBUFFERED".to_string(), "1".to_string()));
}
