use shorts_tauri_app::generate::{normalize_run_id, CancelGenerateArgs};
use shorts_tauri_app::runs::RunRegistry;

#[test]
fn a_registered_run_is_cancelled_by_its_id() {
    let mut runs = RunRegistry::new();
    runs.register_run("run-1");
    assert!(runs.is_registered("run-1"));
    assert!(!runs.is_cancelled("run-1"));
    assert!(runs.cancel_run("run-1"));
    assert!(runs.is_cancelled("run-1"));
    runs.unregister_run("run-1");
    assert!(!runs.is_registered("run-1"));
    assert!(!runs.cancel_run("run-1"));
}

#[test]
fn cancelling_an_unknown_run_changes_nothing() {
    let mut runs = RunRegistry::new();
    runs.register_run("a");
    assert!(!runs.cancel_run("b"));
    assert!(!runs.is_cancelled("a"));
    assert!(!runs.is_registered("b"));
}

#[test]
fn registering_again_starts_the_run_over() {
    let mut runs = RunRegistry::new();
    runs.register_run("a");
    runs.register_run("b");
    assert!(runs.cancel_run("a"));
    runs.register_run("a");
    assert!(!runs.is_cancelled("a"));
    assert!(runs.cancel_run("b"));
    runs.unregister_run("a");
    assert!(runs.is_cancelled("b"));
}

#[test]
fn the_cancel_command_trims_the_id_it_is_given() {
    let mut runs = RunRegistry::new();
    let id = normalize_run_id(Some("  my-run \n"), 1, 2);
    assert_eq!(id, "my-run");
    runs.register_run(&id);
    assert!(runs.cancel_generate_run(&CancelGenerateArgs { run_id: " my-run ".to_string() }));
    assert!(runs.is_cancelled("my-run"));
    let fallback = normalize_run_id(Some("   "), 1700, 42);
    assert_eq!(fallback, "run-1700-42");
    runs.register_run(&fallback);
    assert!(runs.cancel_generate_run(&CancelGenerateArgs { run_id: fallback.clone() }));
}
