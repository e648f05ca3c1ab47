use rmf_sandbox::menu::{
    finish_load, menu_action, poll_load_task, AppState, MenuAction, MenuButton,
};

#[test]
fn each_button_has_its_action() {
    assert_eq!(
        menu_action(&MenuButton::ViewDemoMap),
        MenuAction::SpawnDemoLoadTask
    );
    assert_eq!(
        menu_action(&MenuButton::OpenMapFile),
        MenuAction::SpawnPickFileLoadTask
    );
    assert_eq!(
        menu_action(&MenuButton::WarehouseGenerator),
        MenuAction::EnterWarehouseGenerator
    );
    assert_eq!(menu_action(&MenuButton::Exit), MenuAction::ExitApp);
}

#[test]
fn a_load_task_reports_its_source_file() {
    let loaded = finish_load(true, Some("site.yaml".to_string())).unwrap();
    assert_eq!(loaded.file, Some("site.yaml".to_string()));
    let demo = finish_load(true, None).unwrap();
    assert_eq!(demo.file, None);
    assert!(finish_load(false, Some("site.yaml".to_string())).is_none());
}

#[test]
fn a_running_task_changes_nothing() {
    let r = poll_load_task(&None);
    assert!(!r.despawn_task);
    assert!(!r.install_map);
    assert!(r.next_state.is_none());
}

#[test]
fn a_failed_load_is_discarded() {
    let r = poll_load_task(&Some(None));
    assert!(r.despawn_task);
    assert!(!r.install_map);
    assert!(r.next_state.is_none());
}

#[test]
fn a_loaded_map_enters_the_editor() {
    let loaded = finish_load(true, None);
    let r = poll_load_task(&Some(loaded));
    assert!(r.despawn_task);
    assert!(r.install_map);
    assert_eq!(r.next_state, Some(AppState::TrafficEditor));
}
