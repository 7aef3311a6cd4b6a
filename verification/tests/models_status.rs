use wt::models::{Instance, StatusStore, TaskState, TaskStatus};

#[test]
fn test_task_state_default() {
    let state = TaskState::default();
    assert_eq!(state.status, TaskStatus::Pending);
    assert!(state.instance.is_none());
}

#[test]
fn test_status_store_get_status_default() {
    let store = StatusStore::default();
    assert_eq!(store.get_status("nonexistent"), TaskStatus::Pending);
}

#[test]
fn test_status_store_set_and_get_status() {
    let mut store = StatusStore::default();
    store.set_status("test", TaskStatus::Running);
    assert_eq!(store.get_status("test"), TaskStatus::Running);
}

#[test]
fn test_status_store_set_and_get_instance() {
    let mut store = StatusStore::default();
    let instance = Instance {
        branch: "wt/test".to_string(),
        worktree_path: "/path".to_string(),
        tmux_session: "wt".to_string(),
        tmux_window: "test".to_string(),
        session_id: None,
    };
    store.set_instance("test", Some(instance.clone()));

    let got = store.get_instance("test").unwrap();
    assert_eq!(got.branch, "wt/test");
}

#[test]
fn test_status_store_serialize() {
    let mut store = StatusStore::default();
    store.set_status("task1", TaskStatus::Running);
    store.set_status("task2", TaskStatus::Done);

    let json = store.to_json();
    assert!(json.contains("task1"));
    assert!(json.contains("running"));
}

#[test]
fn test_status_store_deserialize() {
    let json = r#"{"tasks":{"test":{"status":"running"}}}"#;
    let store: StatusStore = StatusStore::from_json(json).unwrap();
    assert_eq!(store.get_status("test"), TaskStatus::Running);
}
