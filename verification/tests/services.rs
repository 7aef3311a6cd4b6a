use wt::commands::init::update_gitignore;
use wt::commands::new::generate_scratch_name;
use wt::commands::plan::Step;
use wt::commands::status::{handle_list_action, refresh, summarize};
use wt::commands::{cleanup, inspect, new, reset, start};
use wt::models::checks::stem_of;
use wt::models::document::{status_from_name, StateRecord};
use wt::models::{Instance, Task, TaskFrontmatter, TaskInput, TaskState, TaskStatus, TaskStore, WtConfig};
use wt::services::git::{conflicts_in, delete_branch, diff_stats_from, find_branches, get_default_branch, get_diff_stats, get_last_activity, get_worktree_metrics, parse_branch_list, parse_commit_count, remove_worktree, GitMetrics};
use wt::services::logs::LogMetrics;
use wt::services::tmux::{create_window, kill_window_if_exists, session_exists};
use wt::services::transcript::{claude_projects_dir, find_latest_transcript, get_last_messages, log_path, project_dir_name, transcript_path, ContentItem, Entry, Record, TranscriptMetrics};
use wt::services::workspace::{script_result, WorkspaceInitializer};
use wt::text::{lines, path_join, replace_all, trim};
use wt::tui::app::{task_display, Observation};
use wt::tui::{App, TuiAction};

fn task(name: &str, depends: &[&str]) -> Task {
    Task {
        frontmatter: TaskFrontmatter {
            name: name.to_string(),
            depends: depends.iter().map(|d| d.to_string()).collect(),
        },
        content: String::new(),
        file_path: format!(".wt/tasks/{}.md", name),
    }
}

fn bound(name: &str, session: Option<&str>) -> Instance {
    Instance {
        branch: format!("wt/{}-abcd", name),
        worktree_path: format!("/repo/.wt/worktrees/{}", name),
        tmux_session: "wt".to_string(),
        tmux_window: name.to_string(),
        session_id: session.map(|s| s.to_string()),
    }
}

fn nothing_known(alive: bool) -> Observation {
    Observation { tmux_alive: alive, metrics: None, git: None, idle_secs: None }
}

#[test]
fn test_project_dir_name() {
    assert_eq!(
        project_dir_name("/Users/foo/project"),
        "-Users-foo-project"
    );
    // . is also replaced with -
    assert_eq!(
        project_dir_name("/Users/foo/project/.wt-worktrees/task"),
        "-Users-foo-project--wt-worktrees-task"
    );
}

#[test]
fn logs_test_context_percent() {
    let metrics = LogMetrics {
        input_tokens: 50_000,
        output_tokens: 10_000,
        context_window: 200_000,
        ..Default::default()
    };
    assert_eq!(metrics.context_percent(), 30);
}

#[test]
fn transcript_test_context_percent() {
    let metrics = TranscriptMetrics {
        input_tokens: 50_000,
        output_tokens: 10_000,
        context_window: 200_000,
        ..Default::default()
    };
    assert_eq!(metrics.context_percent(), 30);
}

#[test]
fn test_context_percent_zero_window() {
    let metrics = TranscriptMetrics {
        input_tokens: 50_000,
        output_tokens: 10_000,
        context_window: 0,
        ..Default::default()
    };
    assert_eq!(metrics.context_percent(), 0);
}

#[test]
fn context_percent_is_cut_off_at_100() {
    let metrics = LogMetrics { input_tokens: u64::MAX, output_tokens: u64::MAX, context_window: 1, ..Default::default() };
    assert_eq!(metrics.context_percent(), 100);
    let full = LogMetrics { input_tokens: 199_999, output_tokens: 1, context_window: 200_000, ..Default::default() };
    assert_eq!(full.context_percent(), 100);
    let nearly = LogMetrics { input_tokens: 199_998, output_tokens: 1, context_window: 200_000, ..Default::default() };
    assert_eq!(nearly.context_percent(), 99);
}

#[test]
fn transcript_paths() {
    assert_eq!(claude_projects_dir("/home/u", "agent"), "/home/u/.agent/projects");
    assert_eq!(
        transcript_path("/home/u/.agent/projects", "/repo/.wt/worktrees/a", "abc"),
        "/home/u/.agent/projects/-repo--wt-worktrees-a/abc.jsonl"
    );
    assert_eq!(log_path("auth", "0123456789abcdef"), ".wt/logs/auth/01234567.jsonl");
    assert_eq!(log_path("auth", "012"), ".wt/logs/auth/012.jsonl");
}

#[test]
fn last_messages_prefer_text_over_thinking() {
    let item = |kind: &str, text: Option<&str>, thinking: Option<&str>| ContentItem {
        kind: kind.to_string(),
        text: text.map(|s| s.to_string()),
        thinking: thinking.map(|s| s.to_string()),
        name: None,
    };
    let turn = |content: Vec<ContentItem>| Entry { timestamp: None, record: Record::Assistant { usage: None, content } };
    let records = vec![
        turn(vec![item("thinking", None, Some("hm")), item("text", Some("one"), None), item("text", Some("two"), None)]),
        Entry { timestamp: None, record: Record::System },
        turn(vec![item("thinking", None, Some("only thought"))]),
        turn(vec![item("tool_use", None, None)]),
    ];
    assert_eq!(get_last_messages(&records, 5), vec!["one\ntwo", "only thought"]);
    assert_eq!(get_last_messages(&records, 1), vec!["only thought"]);
    assert!(get_last_messages(&records, 0).is_empty());
}

#[test]
fn text_helpers() {
    assert_eq!(trim(" \t\u{a0}a b\u{3000}\n"), "a b");
    assert_eq!(replace_all("aaa", "aa", "b"), "ba");
    assert_eq!(replace_all("${task} and ${task}", "${task}", "x"), "x and x");
    assert_eq!(replace_all("abc", "", "x"), "abc");
    assert_eq!(path_join("/repo", ".wt/worktrees"), "/repo/.wt/worktrees");
    assert_eq!(path_join("/repo/", "a"), "/repo/a");
    assert_eq!(path_join("/repo", "/abs"), "/abs");
    assert_eq!(path_join("", "rel"), "rel");
    assert_eq!(lines("a\r\nb\n\nc"), vec!["a", "b", "", "c"]);
    assert_eq!(lines("a\n"), vec!["a"]);
    assert!(lines("").is_empty());
    assert_eq!(stem_of(".wt/tasks/auth.md"), "auth");
    assert_eq!(stem_of("a.b.md"), "a.b");
    assert_eq!(stem_of("dir/.hidden"), ".hidden");
    assert_eq!(stem_of("dir/.."), "");
    assert_eq!(stem_of("dir/name/"), "name");
}

#[test]
fn git_output_is_read() {
    assert_eq!(parse_commit_count(" 12\n"), Some(12));
    assert_eq!(parse_commit_count("-3"), Some(-3));
    assert_eq!(parse_commit_count("2147483648"), None);
    assert_eq!(parse_commit_count("-2147483648"), Some(i32::MIN));
    assert_eq!(parse_commit_count("1 2"), None);
    assert_eq!(parse_commit_count(""), None);
    assert!(conflicts_in(" M a.rs\nUU b.rs\n"));
    assert!(conflicts_in("AA x"));
    assert!(conflicts_in("DU x"));
    assert!(!conflicts_in(" M a.rs\nAD b.rs\nU\n"));
    assert_eq!(parse_branch_list("  wt/a-1234\n* wt/a-5678\n\n  \n"), vec!["wt/a-1234", "wt/a-5678"]);
    assert!(parse_branch_list("").is_empty());
}

#[test]
fn commands_for_git_and_tmux() {
    let r = remove_worktree("/w");
    assert_eq!(r.program, "git");
    assert_eq!(r.args, vec!["worktree", "remove", "--force", "/w"]);
    assert_eq!(r.cwd, None);
    assert_eq!(delete_branch("wt/a-1").args, vec!["branch", "-D", "wt/a-1"]);
    assert_eq!(find_branches("wt/a-*").args, vec!["branch", "--list", "wt/a-*"]);
    let d = get_diff_stats("/w", "main");
    assert_eq!(d.args, vec!["diff", "--shortstat", "main...HEAD"]);
    assert_eq!(d.cwd.as_deref(), Some("/w"));
    let s = session_exists("wt");
    assert_eq!(s.program, "tmux");
    assert_eq!(s.args, vec!["has-session", "-t", "wt"]);
    let w = create_window("wt", "auth", "/w", "run it");
    assert_eq!(w.len(), 3);
    assert_eq!(w[0].args, vec!["new-window", "-t", "wt:", "-n", "auth", "-c", "/w"]);
    assert_eq!(w[1].args, vec!["send-keys", "-t", "wt:auth", "-l", "run it"]);
    assert_eq!(w[2].args, vec!["send-keys", "-t", "wt:auth", "Enter"]);
    assert!(kill_window_if_exists("wt", "auth", false).is_none());
    assert_eq!(kill_window_if_exists("wt", "auth", true).unwrap().args, vec!["kill-window", "-t", "wt:auth"]);
}

#[test]
fn start_plan_lays_out_the_steps() {
    let config = WtConfig::from_str(
        "claude_command: ccc --yolo\nstart_args: -p \"@.wt/tasks/${task}.md on ${branch} in ${worktree}\"\ncopy_files:\n  - .env\ninit_script: npm install\n",
    )
    .unwrap();
    let plan = start::plan(&config, "auth", "3e20cef2-aaaa", "/repo");
    assert_eq!(plan.branch, "wt/auth-3e20");
    assert_eq!(plan.worktree_path, "/repo/.wt/worktrees/auth");
    assert_eq!(
        plan.command,
        "(npm install) && ccc --yolo -p \"@.wt/tasks/auth.md on wt/auth-3e20 in /repo/.wt/worktrees/auth\" --session-id 3e20cef2-aaaa"
    );
    assert_eq!(plan.instance.tmux_session, "wt");
    assert_eq!(plan.instance.tmux_window, "auth");
    assert_eq!(plan.instance.session_id.as_deref(), Some("3e20cef2-aaaa"));
    assert_eq!(plan.steps.len(), 4);
    assert!(plan.steps.iter().all(|s| !s.is_best_effort()));
    match &plan.steps[0] {
        Step::CreateWorktree { branch, path } => {
            assert_eq!(branch, "wt/auth-3e20");
            assert_eq!(path, "/repo/.wt/worktrees/auth");
        }
        other => panic!("unexpected first step {:?}", other),
    }
    match &plan.steps[1] {
        Step::CopyFiles { files, .. } => assert_eq!(files, &vec![".env".to_string()]),
        other => panic!("unexpected second step {:?}", other),
    }
    assert!(start::conflict(&plan, false).is_ok());
    assert_eq!(
        start::conflict(&plan, true).unwrap_err().message(),
        "Branch 'wt/auth-3e20' already exists.\nHint: Run `git branch -D wt/auth-3e20` to delete it, then retry."
    );
}

#[test]
fn begin_makes_a_fresh_session_each_time() {
    let mut store = TaskStore::default();
    store.tasks.insert("t".to_string(), task("t", &[]));
    let config = WtConfig::default();
    let a = start::begin(&store, &config, "t", "/repo").unwrap();
    let b = start::begin(&store, &config, "t", "/repo").unwrap();
    let id_a = a.instance.session_id.clone().unwrap();
    let id_b = b.instance.session_id.clone().unwrap();
    assert_eq!(id_a.chars().count(), 36);
    assert_ne!(id_a, id_b);
    assert_eq!(a.branch, format!("wt/t-{}", &id_a[..4]));
    assert!(a.command.ends_with(&format!(" --session-id {}", id_a)));
}

#[test]
fn reset_plans_backup_and_orphans() {
    let config = WtConfig::from_str("archive_script: rm -rf target\n").unwrap();
    let mut store = TaskStore::default();
    store.tasks.insert("t".to_string(), task("t", &[]));
    assert!(reset::plan(&store, &config, "t").is_empty());
    store.set_status("t", TaskStatus::Running);
    store.set_instance("t", Some(bound("t", None)));
    let steps = reset::plan(&store, &config, "t");
    assert_eq!(steps.len(), 5);
    assert!(matches!(&steps[0], Step::RunScript { script, .. } if script == "rm -rf target"));
    assert!(matches!(&steps[1], Step::BackupWorktree { task, .. } if task == "t"));
    assert!(matches!(&steps[2], Step::KillWindow { .. }));
    assert!(matches!(&steps[3], Step::RemoveWorktree { path } if path == "/repo/.wt/worktrees/t"));
    assert!(matches!(&steps[4], Step::DeleteBranch { branch } if branch == "wt/t-abcd"));
    let best_effort: Vec<bool> = steps.iter().map(|s| s.is_best_effort()).collect();
    assert_eq!(best_effort, vec![true, false, true, true, true]);
    let orphans = reset::orphan_plan(&config, "t", "/repo", true, &vec!["wt/t-1".to_string(), "wt/t-2".to_string()]);
    assert_eq!(orphans.len(), 3);
    assert!(matches!(&orphans[0], Step::RemoveWorktree { path } if path == "/repo/.wt/worktrees/t"));
    assert!(matches!(&orphans[2], Step::DeleteBranch { branch } if branch == "wt/t-2"));
    assert!(reset::orphan_plan(&config, "t", "/repo", false, &Vec::new()).is_empty());
    let mut pending = TaskStore::default();
    pending.tasks.insert("p".to_string(), task("p", &[]));
    assert_eq!(reset::apply(&mut pending, "p", true), reset::ResetOutcome::Reset);
    assert_eq!(reset::apply(&mut pending, "p", false), reset::ResetOutcome::AlreadyPending);
}

#[test]
fn reset_looks_for_orphans_only_without_instance() {
    let config = WtConfig::default();
    let mut store = TaskStore::default();
    store.tasks.insert("t".to_string(), task("t", &[]));
    let (steps, cleaned) = reset::full_plan(&store, &config, "t", "/repo", true, &vec!["wt/t-1".to_string()]);
    assert_eq!(steps.len(), 2);
    assert!(cleaned);
    let (none, nothing) = reset::full_plan(&store, &config, "t", "/repo", false, &Vec::new());
    assert!(none.is_empty() && !nothing);
    store.set_instance("t", Some(bound("t", None)));
    let (bound_steps, orphaned) = reset::full_plan(&store, &config, "t", "/repo", true, &vec!["wt/t-1".to_string()]);
    assert_eq!(bound_steps.len(), 4);
    assert!(!orphaned);
    assert!(matches!(&bound_steps[0], Step::BackupWorktree { .. }));
}

#[test]
fn observations_of_a_worktree() {
    assert_eq!(get_default_branch(true, true), Some("main"));
    assert_eq!(get_default_branch(false, true), Some("master"));
    assert_eq!(get_default_branch(false, false), None);
    assert_eq!(diff_stats_from(Some(" 1 file changed, 2 insertions(+)"), Some("1 file changed, 9 deletions(-)")), Some((2, 0)));
    assert_eq!(diff_stats_from(Some("\n"), Some("1 file changed, 9 deletions(-)")), Some((0, 9)));
    assert_eq!(diff_stats_from(None, None), None);
    assert_eq!(diff_stats_from(Some("x insertions"), None), Some((0, 0)));
    let m = get_worktree_metrics(Some((3, 4)), None, Some(7), true);
    assert_eq!(m, GitMetrics { additions: 3, deletions: 4, commits: 7, has_conflict: true });
    assert_eq!(get_worktree_metrics(None, None, None, false), GitMetrics::default());
    assert_eq!(get_last_activity(100, Some(40)), Some(60));
    assert_eq!(get_last_activity(100, Some(140)), Some(0));
    assert_eq!(get_last_activity(100, None), None);
    assert_eq!(wt::services::transcript::program_name("/opt/bin/ccc --yolo"), "ccc");
    assert_eq!(wt::services::transcript::program_name("agent"), "agent");
    assert_eq!(wt::services::transcript::program_name(""), "");
}

#[test]
fn name_map_keeps_places() {
    let mut map: wt::models::NameMap<u32> = wt::models::NameMap::new();
    assert!(map.is_empty());
    map.insert("b".to_string(), 1);
    map.insert("a".to_string(), 2);
    map.insert("b".to_string(), 3);
    assert_eq!(map.len(), 2);
    assert_eq!(map.key_at(0), "b");
    assert_eq!(*map.value_at(0), 3);
    assert_eq!(map.get("a"), Some(&2));
    assert_eq!(map.index_of("a"), Some(1));
    assert_eq!(map.remove("b"), Some(3));
    assert_eq!(map.remove("b"), None);
    assert!(!map.contains_key("b"));
    assert_eq!(map.key_at(0), "a");
}

#[test]
fn records_of_states() {
    for status in [TaskStatus::Pending, TaskStatus::Running, TaskStatus::Done, TaskStatus::Merged, TaskStatus::Archived] {
        assert_eq!(status_from_name(status.display_name()), Some(status));
        for scratch in [false, true] {
            let state = TaskState { status, scratch, instance: Some(bound("x", Some("sid"))) };
            let record = state.to_record();
            assert_eq!(record.status, status.display_name());
            assert_eq!(record.scratch, if scratch { Some(true) } else { None });
            let back = TaskState::from_record(record).unwrap();
            assert_eq!((back.status, back.scratch), (status, scratch));
            assert_eq!(back.instance.unwrap().session_id.as_deref(), Some("sid"));
        }
    }
    assert_eq!(status_from_name("Pending"), None);
    let unknown = StateRecord { status: "paused".to_string(), scratch: None, instance: None };
    assert_eq!(TaskState::from_record(unknown).unwrap_err(), "Invalid status.json: unknown status 'paused'");
}

#[test]
fn scratch_names_count_up() {
    let mut store = TaskStore::default();
    assert_eq!(generate_scratch_name(&store, &Vec::new()).as_deref(), Some("s1"));
    store.set_status("s1", TaskStatus::Running);
    store.set_status("s3", TaskStatus::Running);
    let branches = vec!["wt/s2-abcd".to_string(), "wt/s40-abcd".to_string(), "other/s4-x".to_string()];
    assert_eq!(generate_scratch_name(&store, &branches).as_deref(), Some("s4"));
    let config = WtConfig::default();
    assert!(new::check(&store, "s4", &Vec::new()).is_ok());
    assert_eq!(new::check(&store, "s1", &Vec::new()).unwrap_err().message(), "Invalid input: Name 's1' already exists in status.json");
    assert_eq!(new::check(&store, "s9", &branches).unwrap_err().message().lines().next().unwrap(), "Branch 'wt/s2-abcd' already exists.");
    let plan = new::plan(&config, "s4", "0123", "/repo");
    assert_eq!(plan.command, "");
    assert!(plan.instance.session_id.is_none());
    new::apply(&mut store, "s4", plan.instance);
    assert!(store.is_scratch("s4"));
    assert_eq!(store.get_status("s4"), TaskStatus::Running);
    assert_eq!(reset::apply(&mut store, "s4", false), reset::ResetOutcome::ScratchRemoved);
    assert!(!store.name_exists_in_status("s4"));
}

#[test]
fn cleanup_takes_merged_tasks_with_instances() {
    let mut store = TaskStore::default();
    for (name, status, has) in [("a", TaskStatus::Merged, true), ("b", TaskStatus::Merged, false), ("c", TaskStatus::Running, true)] {
        store.tasks.insert(name.to_string(), task(name, &[]));
        store.set_status(name, status);
        if has {
            store.set_instance(name, Some(bound(name, None)));
        }
    }
    assert_eq!(cleanup::candidates(&store, false), vec!["a"]);
    assert_eq!(cleanup::candidates(&store, true), vec!["a", "c"]);
    assert_eq!(cleanup::plan(&store, "a").len(), 3);
    cleanup::apply(&mut store, "a");
    assert!(store.get_instance("a").is_none());
    assert_eq!(store.get_status("a"), TaskStatus::Merged);
    assert_eq!(cleanup::message(0), "Nothing to clean up.");
    assert_eq!(cleanup::message(2), "Cleanup complete.");
}

#[test]
fn workspace_copies_and_scripts() {
    let init = WorkspaceInitializer::new("/w", "/repo");
    let copies = init.copy_files(&vec![".env".to_string(), "config/app.json".to_string()]);
    assert_eq!(copies.len(), 2);
    assert_eq!(copies[1].file, "config/app.json");
    assert_eq!(copies[1].from, "/repo/config/app.json");
    assert_eq!(copies[1].to, "/w/config/app.json");
    let run = init.run_init_script("exit 1");
    assert_eq!(run.program, "bash");
    assert_eq!(run.args, vec!["-c", "exit 1"]);
    assert_eq!(run.cwd.as_deref(), Some("/w"));
    assert!(script_result("exit 1", true, Some(0)).is_ok());
    assert_eq!(
        script_result("exit 1", false, Some(1)).unwrap_err().message(),
        "Script 'exit 1' failed with exit code: Some(1)"
    );
    assert_eq!(
        script_result("x", false, None).unwrap_err().message(),
        "Script 'x' failed with exit code: None"
    );
}

#[test]
fn gitignore_gets_its_entries_once() {
    let fresh = update_gitignore(None).unwrap();
    assert!(fresh.starts_with("# wt - Worktree Task Manager\n"));
    assert_eq!(update_gitignore(Some("target\n")).unwrap(), format!("target\n\n{}", fresh));
    assert_eq!(update_gitignore(Some("target")).unwrap(), format!("target\n\n{}", fresh));
    assert!(update_gitignore(Some(&fresh)).is_none());
}

#[test]
fn dashboard_rows_and_selection() {
    let mut store = TaskStore::default();
    for (name, status) in [("a", TaskStatus::Running), ("b", TaskStatus::Done), ("c", TaskStatus::Pending), ("d", TaskStatus::Merged), ("e", TaskStatus::Running)] {
        store.tasks.insert(name.to_string(), task(name, &[]));
        store.set_status(name, status);
    }
    store.set_instance("e", Some(bound("e", Some("sid"))));
    let observed = vec![(
        "e".to_string(),
        Observation {
            tmux_alive: true,
            metrics: None,
            git: Some(GitMetrics { additions: 5, deletions: 2, commits: 1, has_conflict: true }),
            idle_secs: Some(119),
        },
    )];
    let rows = refresh(&mut store, &observed, true);
    assert_eq!(rows.iter().map(|r| r.name.as_str()).collect::<Vec<_>>(), vec!["a", "b", "d", "e"]);
    assert_eq!(rows[0].status, TaskStatus::Done);
    assert_eq!(store.get_status("a"), TaskStatus::Done);
    assert_eq!(store.get_status("e"), TaskStatus::Running);
    assert!(rows[3].active && rows[3].tmux_alive && rows[3].has_conflict);
    assert_eq!((rows[3].additions, rows[3].deletions, rows[3].commit_count), (5, 2, 1));
    let summary = summarize(&rows);
    assert_eq!((summary.running, summary.done, summary.total_additions, summary.total_deletions), (1, 3, 5, 2));
    let without_merged = refresh(&mut store, &observed, false);
    assert_eq!(without_merged.len(), 3);

    let mut app = App::new(rows, None);
    assert_eq!(app.selected_task().unwrap().name, "a");
    app.previous();
    assert_eq!(app.selected, 3);
    app.next();
    assert_eq!(app.selected, 0);
    assert!(!app.can_mark_done() && app.can_mark_merged() && !app.can_archive());
    assert!(app.enter_action(true).is_none());
    assert!(matches!(app.tail_action(), Some(TuiAction::Tail { name }) if name == "a"));
    let listed = handle_list_action(&app, "a");
    assert!(listed.success);
    assert_eq!(listed.available_actions.unwrap(), vec!["tail", "enter", "merged"]);
    let unavailable = listed.unavailable_actions.unwrap();
    assert_eq!(unavailable[0], ("done".to_string(), "task is done (need running)".to_string()));
    assert_eq!(unavailable[1], ("archive".to_string(), "task is done (need merged)".to_string()));
    app.selected = 3;
    assert!(app.can_mark_done());
    assert!(matches!(app.enter_action(true), Some(TuiAction::SwitchTmuxWindow { session, window }) if session == "wt" && window == "e"));
    assert!(matches!(app.enter_action(false), Some(TuiAction::AttachTmux { .. })));
    assert_eq!(app.mark_done(&mut store).as_deref(), Some("e"));
    assert_eq!(store.get_status("e"), TaskStatus::Done);
    app.refresh(Vec::new());
    assert_eq!(app.selected, 3);
    assert!(app.selected_task().is_none());
    let gone = task_display("e", TaskStatus::Running, Some(&bound("e", Some("sid"))), &nothing_known(false));
    let mut resumed = App::new(vec![gone], None);
    resumed.refresh(vec![task_display("e", TaskStatus::Done, Some(&bound("e", Some("sid"))), &nothing_known(false))]);
    match resumed.enter_action(true) {
        Some(TuiAction::ShowResume { worktree, session_id, claude_command }) => {
            assert_eq!(worktree, "/repo/.wt/worktrees/e");
            assert_eq!(session_id, "sid");
            assert_eq!(inspect::resume_command(&worktree, &claude_command, &session_id), format!("cd /repo/.wt/worktrees/e && {} -r sid", claude_command));
        }
        other => panic!("expected ShowResume, got {:?}", other),
    }
}

#[test]
fn task_input_is_written_with_quotes_where_needed() {
    let input = TaskInput { name: "123".to_string(), depends: vec!["true".to_string(), "plain".to_string()], description: "d".to_string() };
    let markdown = input.to_markdown();
    assert_eq!(markdown, "---\nname: '123'\ndepends:\n- 'true'\n- plain\n---\n\nd\n");
    let back = TaskStore::parse_markdown(&markdown, "123.md".to_string()).unwrap();
    assert_eq!(back.name(), "123");
    assert_eq!(back.depends(), &["true".to_string(), "plain".to_string()]);
}

#[test]
fn references_resolve_by_name_and_by_index() {
    let mut store = TaskStore::default();
    for name in ["zeta", "alpha", "2"] {
        store.tasks.insert(name.to_string(), task(name, &[]));
    }
    store.set_status("orphan", TaskStatus::Running);
    assert_eq!(store.resolve_task_ref("alpha").unwrap(), "alpha");
    assert_eq!(store.resolve_task_ref("orphan").unwrap(), "orphan");
    assert_eq!(store.resolve_task_ref("1").unwrap(), "2");
    assert_eq!(store.resolve_task_ref("2").unwrap(), "2");
    assert_eq!(store.resolve_task_ref("3").unwrap(), "zeta");
    for missing in ["0", "4", "99999999999999999999999", "", "+1", "beta"] {
        assert_eq!(store.resolve_task_ref(missing).unwrap_err().message(), format!("Task '{}' not found", missing));
    }
}

#[test]
fn loading_a_project() {
    let files = vec![
        (".wt/tasks/a.md".to_string(), "---\nname: a\n---\n\nA".to_string()),
        (".wt/tasks/broken.md".to_string(), "no header".to_string()),
        (".wt/tasks/notes.txt".to_string(), "---\nname: notes\n---\n".to_string()),
        (".wt/tasks/b.md".to_string(), "---\nname: b\ndepends: [a]\n---\n".to_string()),
        (".wt/tasks/again.md".to_string(), "---\nname: a\n---\n\nsecond".to_string()),
    ];
    let (store, warnings) = TaskStore::load(Some("{\"tasks\": {\"a\": {\"status\": \"done\"}}}"), &files).unwrap();
    assert_eq!(store.tasks.len(), 2);
    assert_eq!(store.get("a").unwrap().content, "second");
    assert_eq!(store.get("a").unwrap().file_path, ".wt/tasks/again.md");
    assert_eq!(store.get("b").unwrap().depends(), &["a".to_string()]);
    assert_eq!(store.get_status("a"), TaskStatus::Done);
    assert_eq!(store.get_status("b"), TaskStatus::Pending);
    assert_eq!(
        warnings,
        vec!["Warning: Failed to parse .wt/tasks/broken.md: Invalid task file: Missing frontmatter (must start with ---)"]
    );
    let (empty, none) = TaskStore::load(None, &Vec::new()).unwrap();
    assert!(empty.tasks.is_empty() && none.is_empty());
    assert!(TaskStore::load(Some("{"), &files).unwrap_err().message().starts_with("Invalid task file: Invalid status.json: "));
    assert_eq!(WtConfig::load(None).unwrap_err().message(), "Config file .wt.yaml not found in current directory");
    assert_eq!(WtConfig::load(Some("tmux_session: x\n")).unwrap().tmux_session, "x");
    assert!(WtConfig::load(Some("tmux_session: [1]\n")).unwrap_err().message().starts_with("Failed to parse config: "));
    assert!(WtConfig::load(Some("- a\n")).is_err());
}

#[test]
fn latest_transcript_is_the_last_of_the_newest() {
    let file = |name: &str, time: Option<u128>| (name.to_string(), time);
    assert_eq!(find_latest_transcript(&Vec::new()), None);
    assert_eq!(find_latest_transcript(&vec![file("a", None)]).as_deref(), Some("a"));
    assert_eq!(
        find_latest_transcript(&vec![file("a", Some(5)), file("b", None), file("c", Some(9)), file("d", Some(9)), file("e", Some(1))]).as_deref(),
        Some("d")
    );
    assert_eq!(find_latest_transcript(&vec![file("a", None), file("b", None)]).as_deref(), Some("b"));
}

#[test]
fn transcript_lines_that_cannot_be_read_are_passed_over() {
    let content = [
        "{\"type\":\"system\",\"timestamp\":\"2024-03-01T10:00:00Z\"}\n",
        "this is no record\n",
        "\n",
        "{\"no_type\":true}\n",
        "{\"type\":\"assistant\",\"timestamp\":\"2024-03-01T10:00:42Z\",\"message\":{\"usage\":{\"input_tokens\":7,\"output_tokens\":3},\"content\":[{\"type\":\"text\",\"text\":\"All done\"},{\"type\":\"tool_use\",\"name\":\"Bash\"}]}}\r\n",
        "{\"type\":\"assistant\"}\n",
        "[1, 2, 3]\n",
    ]
    .concat();
    let content = content.as_str();
    let records = wt::services::records::read_entries(content);
    assert_eq!(records.len(), 3);
    assert!(matches!(records[0].record, Record::System));
    assert_eq!(records[0].timestamp.as_deref(), Some("2024-03-01T10:00:00Z"));
    match &records[1].record {
        Record::Assistant { usage, content } => {
            let usage = usage.unwrap();
            assert_eq!(usage.input_tokens, Some(7));
            assert_eq!(usage.output_tokens, Some(3));
            assert_eq!(usage.cache_read_input_tokens, None);
            assert_eq!(usage.cache_creation_input_tokens, None);
            assert_eq!(content.len(), 2);
            assert_eq!(content[0].kind, "text");
            assert_eq!(content[0].text.as_deref(), Some("All done"));
            assert_eq!(content[0].name, None);
            assert_eq!(content[1].kind, "tool_use");
            assert_eq!(content[1].name.as_deref(), Some("Bash"));
            assert_eq!(content[1].text, None);
        }
        other => panic!("unexpected record {:?}", other),
    }
    assert!(matches!(records[2].record, Record::Other));

    let metrics = wt::services::records::read_transcript(content).unwrap();
    assert_eq!(metrics.input_tokens, 7);
    assert_eq!(metrics.output_tokens, 3);
    assert_eq!(metrics.num_turns, 1);
    assert_eq!(metrics.summary.as_deref(), Some("All done"));
    assert_eq!(metrics.current_tool.as_deref(), Some("Bash"));
    assert_eq!(metrics.duration_secs(), Some(42));
}

#[test]
fn transcript_without_a_readable_record_gives_no_metrics() {
    assert!(wt::services::records::read_transcript("").is_none());
    assert!(wt::services::records::read_transcript("\n\n").is_none());
    assert!(wt::services::records::read_transcript("not json\n{broken\n").is_none());
    assert!(wt::services::records::read_transcript("{\"type\":5}\n").is_none());
}

#[test]
fn final_result_reports_turns_and_models() {
    let line = "{\"type\":\"result\",\"num_turns\":4,\"modelUsage\":{\"a/b~c\":{\"outputTokens\":11,\"contextWindow\":1000},\"plain\":{\"outputTokens\":12}}}";
    let entry = wt::services::records::read_entry(line).unwrap();
    match entry.record {
        Record::Result { num_turns, models } => {
            assert_eq!(num_turns, Some(4));
            assert_eq!(models.len(), 2);
            assert_eq!(models[0].output_tokens, Some(11));
            assert_eq!(models[0].context_window, Some(1000));
            assert_eq!(models[1].output_tokens, Some(12));
            assert_eq!(models[1].context_window, None);
        }
        other => panic!("unexpected record {:?}", other),
    }
    let too_many = "{\"type\":\"result\",\"num_turns\":4294967296}";
    assert_eq!(wt::services::records::read_turns(too_many), None);
    assert_eq!(wt::services::records::read_turns("{\"num_turns\":4294967295}"), Some(4294967295));
    assert_eq!(wt::services::records::read_turns("{\"num_turns\":-1}"), None);
}

#[test]
fn pointer_escapes_what_a_key_may_not_hold() {
    let pointer = wt::models::json::pointer;
    assert_eq!(pointer(&Vec::new()), "");
    assert_eq!(pointer(&vec!["tasks".to_string(), "a".to_string()]), "/tasks/a");
    assert_eq!(pointer(&vec!["a/b".to_string(), "m~n".to_string(), "~1".to_string()]), "/a~1b/m~0n/~01");
    assert_eq!(pointer(&vec!["".to_string()]), "/");
    let text = "{\"a/b\":{\"m~n\":[\"zero\",\"one\"]}}";
    let path = vec!["a/b".to_string(), "m~n".to_string(), "1".to_string()];
    assert_eq!(wt::models::json::json_text(text, &path).as_deref(), Some("one"));
    assert_eq!(wt::models::json::json_len(text, &path[..2].to_vec()), Some(2));
    assert_eq!(wt::models::json::json_count("{\"n\": 18446744073709551615}", &vec!["n".to_string()]), Some(u64::MAX));
    assert_eq!(wt::models::json::json_count("{\"n\": 1.5}", &vec!["n".to_string()]), None);
}
