use winctl_mcp::bindings::{BindingNotFound, BindingRegistry};
use winctl_mcp::launches::{LaunchRegistry, ProcessTargetError};

#[test]
fn launches_are_numbered_and_found_again() {
    let mut registry = LaunchRegistry::new();
    let args = vec!["--flag".to_string()];
    let first = registry.track_launch(
        100,
        "C:/Betty/Betty.exe",
        &args,
        Some("C:/Betty".into()),
        Some("C:/Betty/Betty.exe".into()),
        Some("Betty.exe".into()),
        42,
        "\"C:/Betty/Betty.exe\" --flag".into(),
    );
    let second = registry.track_launch(200, "notepad.exe", &Vec::new(), None, None, None, 43, "notepad.exe".into());
    assert_eq!(first.launch_id, "launch-1");
    assert_eq!(second.launch_id, "launch-2");
    assert_eq!(first.args, args);
    assert_eq!(registry.tracked_by_launch_id("launch-1"), Some(first.clone()));
    assert_eq!(registry.tracked_by_pid(200), Some(second.clone()));
    assert_eq!(registry.tracked_by_pid(300), None);
    registry.forget_launch("launch-1");
    assert_eq!(registry.tracked_by_launch_id("launch-1"), None);
    assert_eq!(registry.tracked_by_pid(100), None);
    assert_eq!(registry.tracked_by_launch_id("launch-2"), Some(second));
    registry.forget_launch("launch-9");
    let third = registry.track_launch(100, "a.exe", &Vec::new(), None, None, None, 44, "a.exe".into());
    assert_eq!(third.launch_id, "launch-3");
    assert_eq!(registry.tracked_by_pid(100), Some(third));
}

#[test]
fn process_assertion_target_is_resolved() {
    let mut registry = LaunchRegistry::new();
    registry.track_launch(100, "a.exe", &Vec::new(), None, None, None, 44, "a.exe".into());
    assert_eq!(registry.resolve_assert_pid(Some(7), Some("launch-1")), Ok(7));
    assert_eq!(registry.resolve_assert_pid(None, Some("launch-1")), Ok(100));
    let missing = registry.resolve_assert_pid(None, Some("launch-5")).unwrap_err();
    assert_eq!(missing, ProcessTargetError::LaunchIdNotFound("launch-5".into()));
    assert_eq!(missing.code(), "launch_id_not_found");
    assert_eq!(missing.message(), "launch_id \"launch-5\" is not tracked by this server session");
    let none = registry.resolve_assert_pid(None, None).unwrap_err();
    assert_eq!(none, ProcessTargetError::TargetRequired);
    assert_eq!(none.code(), "process_target_required");
    assert_eq!(none.message(), "pid or launch_id is required");
}

#[test]
fn bound_windows_are_found_by_id_until_rebound() {
    let mut registry: BindingRegistry<u32> = BindingRegistry::new();
    let missing = registry.lookup("bound-1").unwrap_err();
    assert_eq!(missing, BindingNotFound { bound_id: "bound-1".into() });
    assert_eq!(missing.code(), "binding_not_found");
    assert_eq!(missing.message(), "bound_id is not registered");
    registry.bind("bound-1".into(), 10);
    registry.bind("bound-2".into(), 20);
    assert_eq!(registry.lookup("bound-1"), Ok(&10));
    registry.bind("bound-1".into(), 11);
    assert_eq!(registry.lookup("bound-1"), Ok(&11));
    assert_eq!(registry.lookup("bound-2"), Ok(&20));
}
