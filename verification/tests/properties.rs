use wt::commands::next::classify_tasks;
use wt::commands::{archive, done, reset, start};
use wt::error::WtError;
use wt::models::{Instance, StatusStore, Task, TaskFrontmatter, TaskStatus, TaskStore, WtConfig};
use wt::services::dependency::{check_dependencies_merged, find_non_pending_dependents};
use wt::services::transcript::{parse_log_file, parse_transcript, ContentItem, Entry, ModelUsage, Record, Usage};

fn task(name: &str, depends: &[&str]) -> Task {
    Task {
        frontmatter: TaskFrontmatter {
            name: name.to_string(),
            depends: depends.iter().map(|d| d.to_string()).collect(),
        },
        content: String::new(),
        file_path: format!(".wt/tasks/{}.md", name),
    }
}

fn store_of(tasks: &[(&str, &[&str], TaskStatus)]) -> TaskStore {
    let mut store = TaskStore::default();
    for (name, depends, status) in tasks {
        store.tasks.insert(name.to_string(), task(name, depends));
        store.set_status(name, *status);
    }
    store
}

fn bound(name: &str) -> Instance {
    Instance {
        branch: format!("wt/{}-abcd", name),
        worktree_path: format!("/repo/.wt/worktrees/{}", name),
        tmux_session: "wt".to_string(),
        tmux_window: name.to_string(),
        session_id: Some("abcd1234".to_string()),
    }
}

fn assistant(input: u64, output: u64, cache_read: u64) -> Entry {
    Entry {
        timestamp: None,
        record: Record::Assistant {
            usage: Some(Usage {
                input_tokens: Some(input),
                output_tokens: Some(output),
                cache_creation_input_tokens: None,
                cache_read_input_tokens: Some(cache_read),
            }),
            content: Vec::new(),
        },
    }
}

#[test]
fn acyclic_graph_has_no_cycle_from_any_task() {
    let store = store_of(&[
        ("a", &[], TaskStatus::Pending),
        ("b", &["a"], TaskStatus::Pending),
        ("c", &["a", "b"], TaskStatus::Pending),
        ("d", &["c", "missing"], TaskStatus::Pending),
    ]);
    for name in ["a", "b", "c", "d", "missing"] {
        assert!(store.detect_cycle(name).is_none());
    }
}

#[test]
fn back_edge_is_found_with_both_ends() {
    let mut store = store_of(&[
        ("a", &["b"], TaskStatus::Pending),
        ("b", &["c"], TaskStatus::Pending),
        ("c", &[], TaskStatus::Pending),
    ]);
    assert!(store.detect_cycle("a").is_none());
    store.tasks.insert("c".to_string(), task("c", &["a"]));
    let cycle = store.detect_cycle("a").unwrap();
    assert_eq!(cycle, vec!["a", "b", "c", "a"]);
    let from_c = store.detect_cycle("c").unwrap();
    assert!(from_c.contains(&"c".to_string()) && from_c.contains(&"a".to_string()));
    assert_eq!(from_c.first(), from_c.last());
}

#[test]
fn self_dependency_is_a_cycle_of_one_task() {
    let store = store_of(&[("a", &["a"], TaskStatus::Pending)]);
    assert_eq!(store.detect_cycle("a").unwrap(), vec!["a", "a"]);
}

#[test]
fn cycle_is_the_path_from_first_occurrence() {
    let store = store_of(&[
        ("a", &["b"], TaskStatus::Pending),
        ("b", &["c"], TaskStatus::Pending),
        ("c", &["b"], TaskStatus::Pending),
    ]);
    assert_eq!(store.detect_cycle("a").unwrap(), vec!["b", "c", "b"]);
}

#[test]
fn ready_exactly_when_every_dependency_is_settled() {
    let statuses = [
        TaskStatus::Pending,
        TaskStatus::Running,
        TaskStatus::Done,
        TaskStatus::Merged,
        TaskStatus::Archived,
    ];
    for x in statuses {
        for y in statuses {
            let store = store_of(&[
                ("x", &[], x),
                ("y", &[], y),
                ("t", &["x", "y", "x"], TaskStatus::Pending),
            ]);
            let tasks = store.list();
            let (ready, blocked) = classify_tasks(&tasks, &store);
            let is_ready = ready.iter().any(|t| t.name() == "t");
            let settled = |s: TaskStatus| s == TaskStatus::Merged || s == TaskStatus::Archived;
            assert_eq!(is_ready, settled(x) && settled(y));
            assert_eq!(blocked.iter().any(|(t, _)| t.name() == "t"), !is_ready);
        }
    }
}

#[test]
fn task_without_dependencies_is_ready() {
    let mut store = store_of(&[("a", &[], TaskStatus::Running), ("b", &["a"], TaskStatus::Pending)]);
    {
        let tasks = store.list();
        let (ready, blocked) = classify_tasks(&tasks, &store);
        assert!(ready.is_empty());
        assert_eq!(blocked[0].1, vec!["a"]);
    }
    store.tasks.insert("b".to_string(), task("b", &[]));
    let tasks = store.list();
    let (ready, _) = classify_tasks(&tasks, &store);
    assert_eq!(ready.len(), 1);
    assert_eq!(ready[0].name(), "b");
}

#[test]
fn scenario_dependency_merged_makes_dependent_ready() {
    let store = store_of(&[("a", &[], TaskStatus::Merged), ("b", &["a"], TaskStatus::Pending)]);
    let tasks = store.list();
    let (ready, blocked) = classify_tasks(&tasks, &store);
    assert_eq!(ready.iter().map(|t| t.name()).collect::<Vec<_>>(), vec!["b"]);
    assert!(blocked.is_empty());
}

#[test]
fn scenario_mutual_dependency_is_reported_as_cycle() {
    let store = store_of(&[("a", &["b"], TaskStatus::Pending), ("b", &["a"], TaskStatus::Pending)]);
    let errors = store.validate();
    let cycles: Vec<_> = errors.iter().filter(|(_, e)| e.contains("circular")).collect();
    assert_eq!(cycles.len(), 2);
    assert_eq!(cycles[0].0, "a");
    assert_eq!(cycles[0].1, "circular dependency detected: a -> b -> a");
    assert_eq!(cycles[1].1, "circular dependency detected: b -> a -> b");
}

#[test]
fn status_document_round_trip() {
    let mut status = StatusStore::default();
    status.set_status("plain", TaskStatus::Pending);
    status.set_status("run \"quoted\"\n", TaskStatus::Running);
    status.set_instance("run \"quoted\"\n", Some(bound("run")));
    status.set_status("scratch", TaskStatus::Merged);
    status.set_scratch("scratch", true);
    let mut no_session = bound("scratch");
    no_session.session_id = None;
    status.set_instance("scratch", Some(no_session));
    status.set_status("old", TaskStatus::Archived);
    status.set_status("fin", TaskStatus::Done);
    let text = status.to_json();
    let back = StatusStore::from_json(&text).unwrap();
    assert_eq!(back.tasks.len(), 5);
    for name in ["plain", "run \"quoted\"\n", "scratch", "old", "fin"] {
        assert_eq!(back.get_status(name), status.get_status(name));
        assert_eq!(back.is_scratch(name), status.is_scratch(name));
        match (back.get_instance(name), status.get_instance(name)) {
            (None, None) => {}
            (Some(a), Some(b)) => {
                assert_eq!(a.branch, b.branch);
                assert_eq!(a.worktree_path, b.worktree_path);
                assert_eq!(a.tmux_session, b.tmux_session);
                assert_eq!(a.tmux_window, b.tmux_window);
                assert_eq!(a.session_id, b.session_id);
            }
            _ => panic!("instance of {} lost or made up", name),
        }
    }
    assert_eq!(back.to_json(), StatusStore::from_json(&back.to_json()).unwrap().to_json());
}

#[test]
fn status_document_layout() {
    let mut status = StatusStore::default();
    assert_eq!(status.to_json(), "{\n  \"tasks\": {}\n}");
    status.set_status("a", TaskStatus::Running);
    assert_eq!(
        status.to_json(),
        "{\n  \"tasks\": {\n    \"a\": {\n      \"status\": \"running\"\n    }\n  }\n}"
    );
}

#[test]
fn second_start_is_refused() {
    for others in [0usize, 1, 7] {
        let mut store = store_of(&[("t", &[], TaskStatus::Pending)]);
        for i in 0..others {
            let name = format!("other{}", i);
            store.tasks.insert(name.clone(), task(&name, &[]));
            store.set_status(&name, TaskStatus::Running);
        }
        assert!(start::check(&store, "t").is_ok());
        start::apply(&mut store, "t", bound("t"));
        assert_eq!(store.get_status("t"), TaskStatus::Running);
        match start::check(&store, "t") {
            Err(WtError::AlreadyRunning(name)) => assert_eq!(name, "t"),
            other => panic!("expected AlreadyRunning, got {:?}", other),
        }
    }
}

#[test]
fn scenario_start_with_done_dependency_names_it() {
    let store = store_of(&[("dep", &[], TaskStatus::Done), ("t", &["dep"], TaskStatus::Pending)]);
    match start::check(&store, "t") {
        Err(WtError::DependencyNotMerged { task, dep }) => {
            assert_eq!(task, "t");
            assert_eq!(dep, "dep");
        }
        other => panic!("expected DependencyNotMerged, got {:?}", other),
    }
    let err = check_dependencies_merged(&store, "t").unwrap_err();
    assert_eq!(err.message(), "Cannot start task 't': dependency 'dep' is not merged");
}

#[test]
fn start_names_the_first_unmet_dependency() {
    let store = store_of(&[
        ("a", &[], TaskStatus::Archived),
        ("b", &[], TaskStatus::Running),
        ("t", &["a", "gone", "b"], TaskStatus::Pending),
    ]);
    match start::check(&store, "t") {
        Err(WtError::DependencyNotFound(dep)) => assert_eq!(dep, "gone"),
        other => panic!("expected DependencyNotFound, got {:?}", other),
    }
    match start::check(&store, "nobody") {
        Err(WtError::TaskNotFound(name)) => assert_eq!(name, "nobody"),
        other => panic!("expected TaskNotFound, got {:?}", other),
    }
}

#[test]
fn reset_waits_for_running_dependent() {
    let mut store = store_of(&[
        ("base", &[], TaskStatus::Merged),
        ("user", &["base"], TaskStatus::Running),
        ("idle", &["base"], TaskStatus::Pending),
        ("old", &["base"], TaskStatus::Archived),
    ]);
    match reset::check(&store, "base") {
        Err(WtError::HasDependents { task, dependent, status }) => {
            assert_eq!(task, "base");
            assert_eq!(dependent, "user");
            assert_eq!(status, "running");
        }
        other => panic!("expected HasDependents, got {:?}", other),
    }
    assert!(reset::check(&store, "user").is_ok());
    let outcome = reset::apply(&mut store, "user", false);
    assert_eq!(outcome, reset::ResetOutcome::Reset);
    assert_eq!(store.get_status("user"), TaskStatus::Pending);
    assert!(reset::check(&store, "base").is_ok());
    assert_eq!(reset::apply(&mut store, "base", false), reset::ResetOutcome::Reset);
    assert_eq!(store.get_status("base"), TaskStatus::Pending);
    assert_eq!(find_non_pending_dependents(&store, "base"), vec![("old".to_string(), TaskStatus::Archived)]);
}

#[test]
fn reset_is_not_blocked_by_the_task_itself() {
    let store = store_of(&[("loop", &["loop"], TaskStatus::Running)]);
    assert!(reset::check(&store, "loop").is_ok());
}

#[test]
fn archive_needs_merged_and_clears_the_instance() {
    let config = WtConfig::default();
    for status in [TaskStatus::Pending, TaskStatus::Running, TaskStatus::Done, TaskStatus::Archived] {
        let store = store_of(&[("t", &[], status)]);
        match archive::check(&store, "t") {
            Err(WtError::InvalidStateTransition { from, to }) => {
                assert_eq!(from, status.display_name());
                assert_eq!(to, "archived");
            }
            other => panic!("expected InvalidStateTransition, got {:?}", other),
        }
    }
    let mut store = store_of(&[("t", &[], TaskStatus::Done)]);
    store.set_instance("t", Some(bound("t")));
    done::apply_merged(&mut store, "t");
    assert!(store.get_instance("t").is_some());
    assert!(archive::check(&store, "t").is_ok());
    let steps = archive::plan(&store, &config, "t");
    assert_eq!(steps.len(), 3);
    assert!(steps.iter().all(|s| s.is_best_effort()));
    assert_eq!(archive::apply(&mut store, "t"), archive::ArchiveOutcome::Archived);
    assert_eq!(store.get_status("t"), TaskStatus::Archived);
    assert!(store.get_instance("t").is_none());
}

#[test]
fn scenario_context_usage_of_a_transcript() {
    let records = vec![
        Entry { timestamp: None, record: Record::System },
        assistant(10, 100, 5000),
        assistant(20, 200, 10000),
        Entry {
            timestamp: None,
            record: Record::Result {
                num_turns: Some(2),
                models: vec![ModelUsage { output_tokens: Some(300), context_window: Some(200000) }],
            },
        },
    ];
    let metrics = parse_transcript(&records).unwrap();
    assert_eq!(metrics.num_turns, 2);
    assert_eq!(metrics.input_tokens, 10020);
    assert_eq!(metrics.cache_read_tokens, 10000);
    assert_eq!(metrics.output_tokens, 300);
    assert_eq!(metrics.context_window, 200_000);
    assert_eq!(metrics.context_percent(), 5);
    assert!(metrics.completed);
    let log = parse_log_file(&records).unwrap();
    assert_eq!(log.input_tokens, 10020);
    assert_eq!(log.context_percent(), 5);
}

#[test]
fn transcript_without_records_gives_no_metrics() {
    assert!(parse_transcript(&Vec::new()).is_none());
    assert!(parse_log_file(&Vec::new()).is_none());
}

#[test]
fn transcript_keeps_times_summary_and_tool() {
    let text = |s: &str| ContentItem { kind: "text".to_string(), text: Some(s.to_string()), thinking: None, name: None };
    let tool = |s: &str| ContentItem { kind: "tool_use".to_string(), text: None, thinking: None, name: Some(s.to_string()) };
    let records = vec![
        Entry { timestamp: Some("2024-03-01T10:00:00.900Z".to_string()), record: Record::System },
        Entry {
            timestamp: Some("not a time".to_string()),
            record: Record::Assistant { usage: None, content: vec![text("first"), tool("Read")] },
        },
        Entry {
            timestamp: Some("2024-03-01T12:01:31.100+02:00".to_string()),
            record: Record::Assistant { usage: None, content: vec![tool("Edit"), text("last words")] },
        },
        Entry { timestamp: None, record: Record::Other },
    ];
    let metrics = parse_transcript(&records).unwrap();
    assert_eq!(metrics.duration_secs(), Some(90));
    assert_eq!(metrics.summary.as_deref(), Some("last words"));
    assert_eq!(metrics.current_tool.as_deref(), Some("Edit"));
    assert_eq!(metrics.num_turns, 2);
    assert_eq!(metrics.context_window, 200_000);
    assert_eq!(metrics.output_tokens, 0);
}
