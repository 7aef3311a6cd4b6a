use wt::commands::status::{handle_archive_action, handle_done_action, handle_enter_action, handle_merged_action};
use wt::commands::{inspect, list, next, validate};
use wt::error::WtError;
use wt::models::{Instance, Task, TaskFrontmatter, TaskStatus, TaskStore};
use wt::tui::app::{task_display, Observation};
use wt::tui::App;

fn task(name: &str, depends: &[&str]) -> Task {
    Task {
        frontmatter: TaskFrontmatter {
            name: name.to_string(),
            depends: depends.iter().map(|d| d.to_string()).collect(),
        },
        content: String::new(),
        file_path: format!(".wt/tasks/{}.md", name),
    }
}

fn store_of(tasks: &[(&str, &[&str], TaskStatus)]) -> TaskStore {
    let mut store = TaskStore::default();
    for (name, depends, status) in tasks {
        store.tasks.insert(name.to_string(), task(name, depends));
        store.set_status(name, *status);
    }
    store
}

fn bound(name: &str, session: Option<&str>) -> Instance {
    Instance {
        branch: format!("wt/{}-abcd", name),
        worktree_path: format!("/w/{}", name),
        tmux_session: "wt".to_string(),
        tmux_window: name.to_string(),
        session_id: session.map(|s| s.to_string()),
    }
}

fn app_on(name: &str, status: TaskStatus, alive: bool, session: Option<&str>) -> App {
    let observed = Observation { tmux_alive: alive, metrics: None, git: None, idle_secs: None };
    App::new(vec![task_display(name, status, Some(&bound(name, session)), &observed)], None)
}

#[test]
fn every_failure_has_its_message() {
    let s = |x: &str| x.to_string();
    let cases: Vec<(WtError, &str)> = vec![
        (WtError::ConfigNotFound, "Config file .wt.yaml not found in current directory"),
        (WtError::ConfigRead(s("x")), "Failed to read config: x"),
        (WtError::ConfigParse(s("x")), "Failed to parse config: x"),
        (WtError::TaskNotFound(s("t")), "Task 't' not found"),
        (WtError::TaskExists(s("t")), "Task 't' already exists"),
        (WtError::DependencyNotFound(s("d")), "Dependency 'd' not found"),
        (WtError::DependencyNotMerged { task: s("t"), dep: s("d") }, "Cannot start task 't': dependency 'd' is not merged"),
        (WtError::Git(s("x")), "Git command failed: x"),
        (WtError::Tmux(s("x")), "Tmux command failed: x"),
        (WtError::AlreadyRunning(s("t")), "Task 't' is already running"),
        (WtError::BranchExists(s("b")), "Branch 'b' already exists.\nHint: Run `git branch -D b` to delete it, then retry."),
        (WtError::InvalidTaskFile(s("x")), "Invalid task file: x"),
        (WtError::InvalidJson(s("x")), "Invalid JSON: x"),
        (WtError::InvalidInput(s("x")), "Invalid input: x"),
        (WtError::Io { operation: s("read"), path: s("p"), message: s("m") }, "IO error during read on 'p': m"),
        (WtError::Script { script: s("a"), message: s("m") }, "Failed to execute script 'a': m"),
        (WtError::ScriptFailed { script: s("a"), exit_code: Some(-2) }, "Script 'a' failed with exit code: Some(-2)"),
        (WtError::ScriptFailed { script: s("a"), exit_code: Some(i32::MIN) }, "Script 'a' failed with exit code: Some(-2147483648)"),
        (WtError::InvalidStateTransition { from: s("a"), to: s("b") }, "Invalid state transition: cannot change task from a to b"),
        (WtError::HasDependents { task: s("t"), dependent: s("d"), status: s("running") }, "Cannot reset 't': task 'd' depends on it and is running"),
        (WtError::CannotReviewRunning(s("t")), "Cannot review task 't': task is still running"),
        (WtError::WorktreeNotFound(s("t")), "Cannot review task 't': worktree no longer exists"),
        (WtError::TranscriptNotFound(s("t")), "Cannot review task 't': session transcript not found"),
        (WtError::TranscriptParseFailed(s("t")), "Cannot read transcript of task 't'"),
        (WtError::NoSessionId(s("t")), "Cannot review task 't': task has no session ID (started with older wt version)"),
        (WtError::NoAssistantMessages(s("t")), "No assistant messages found for task 't'"),
        (WtError::TaskNotDone(s("t")), "Task 't' is not in Done state"),
        (WtError::TaskNotStarted(s("t")), "Task 't' has not been started"),
    ];
    for (error, expected) in cases {
        assert_eq!(error.message(), expected);
        assert_eq!(error.to_string(), expected);
    }
}

#[test]
fn listing_in_groups() {
    let store = store_of(&[
        ("gone", &[], TaskStatus::Archived),
        ("base", &[], TaskStatus::Merged),
        ("work", &["base", "missing"], TaskStatus::Running),
        ("fin", &[], TaskStatus::Done),
        ("free", &["base", "gone"], TaskStatus::Pending),
        ("wait", &["work", "base"], TaskStatus::Pending),
    ]);
    let text = list::execute(&store, false, false, false);
    let gray = |n: usize| format!("\u{1b}[90m{}\u{1b}[0m", n);
    let expected = vec![
        "Archived (1):".to_string(),
        format!("  {} ▪ gone", gray(4)),
        String::new(),
        "Merged (1):".to_string(),
        format!("  {} ✓ base", gray(1)),
        String::new(),
        "Running (1):".to_string(),
        format!("  {} ● work ← base[1]✓, missing○", gray(6)),
        String::new(),
        "Done (1):".to_string(),
        format!("  {} ◉ fin", gray(2)),
        String::new(),
        "Ready (1):".to_string(),
        format!("  {} ○ free ← base[1]✓, gone[4]▪", gray(3)),
        String::new(),
        "Blocked (1):".to_string(),
        format!("  {} ○ wait ← work○, base✓", gray(5)),
    ];
    assert_eq!(text, format!("{}\n", expected.join("\n")));
    let colored = list::execute(&store, false, false, true);
    assert!(colored.contains("\u{1b}[35m✓\u{1b}[0m base"));
    assert_eq!(list::execute(&TaskStore::default(), false, false, false), "No tasks found in .wt/tasks/\n");
}

#[test]
fn listing_as_json_is_well_formed() {
    let mut store = store_of(&[("任务", &[], TaskStatus::Running), ("b", &["任务", "q\"uote"], TaskStatus::Pending)]);
    store.tasks.insert("back\\slash".to_string(), task("back\\slash", &[]));
    let text = list::execute(&store, false, true, false);
    assert!(text.ends_with("]}\n"));
    let json: serde_json::Value = serde_json::from_str(&text).unwrap();
    let tasks = json["tasks"].as_array().unwrap();
    assert_eq!(tasks.len(), 3);
    assert_eq!(tasks[0]["name"], "b");
    assert_eq!(tasks[0]["index"], 1);
    assert_eq!(tasks[0]["status"], "pending");
    assert_eq!(tasks[0]["depends"][1], "q\"uote");
    assert_eq!(tasks[1]["name"], "back\\slash");
    assert_eq!(tasks[2]["name"], "任务");
    assert_eq!(tasks[2]["status"], "running");
    assert_eq!(list::execute(&TaskStore::default(), false, true, false), "{\"tasks\":[]}\n");
}

#[test]
fn listing_as_tree() {
    let store = store_of(&[
        ("root", &[], TaskStatus::Merged),
        ("left", &["root"], TaskStatus::Running),
        ("right", &["root", "left", "other"], TaskStatus::Pending),
        ("leaf", &["left", "left"], TaskStatus::Pending),
        ("alone", &["nobody"], TaskStatus::Done),
        ("ring", &["ring"], TaskStatus::Pending),
    ]);
    let expected = vec![
        "root [✓]",
        "├── left [●]",
        "│   ├── leaf [○]",
        "│   └── right [○] (+root, other)",
        "alone [◉]",
        "ring [○]",
    ];
    assert_eq!(list::execute(&store, true, false, false), format!("{}\n", expected.join("\n")));
    assert_eq!(list::execute(&TaskStore::default(), true, false, false), "No tasks found in .wt/tasks/\n");
    assert_eq!(list::execute(&store, true, true, false), list::execute(&store, false, true, false));
}

#[test]
fn next_in_words_and_as_json() {
    let store = store_of(&[
        ("a", &[], TaskStatus::Pending),
        ("b", &["a", "z"], TaskStatus::Pending),
        ("c", &[], TaskStatus::Merged),
    ]);
    let gray = |n: usize| format!("\u{1b}[90m{}\u{1b}[0m", n);
    assert_eq!(
        next::execute(&store, false, false),
        format!("Ready to start:\n  {} ○ a\n\nBlocked:\n  {} ○ b (waiting for: a, z)\n", gray(1), gray(2))
    );
    assert_eq!(
        next::execute(&store, true, false),
        "{\"ready\":[{\"index\":1,\"name\":\"a\"}],\"blocked\":[{\"index\":2,\"name\":\"b\",\"waiting_for\":[\"a\",\"z\"]}]}\n"
    );
    assert_eq!(next::execute(&TaskStore::default(), false, false), "No pending tasks.\n");
    assert_eq!(next::execute(&TaskStore::default(), true, false), "{\"ready\":[],\"blocked\":[]}\n");
}

#[test]
fn validation_report() {
    let mut store = store_of(&[("a", &["b"], TaskStatus::Pending), ("b", &["a", "nope"], TaskStatus::Pending)]);
    store.tasks.insert("c".to_string(), Task { file_path: "tasks/other.md".to_string(), ..task("c", &[]) });
    assert_eq!(
        validate::execute(&store, None).unwrap(),
        "✗ a: circular dependency detected: a -> b -> a\n✗ b: depends on 'nope' which doesn't exist\n✗ b: circular dependency detected: b -> a -> b\n✗ tasks/other.md: frontmatter name 'c' doesn't match filename 'other'\n\n4 error(s) found.\n"
    );
    assert_eq!(
        validate::execute(&store, Some("a")).unwrap(),
        "✗ a: circular dependency detected: a -> b -> a\n✗ tasks/other.md: frontmatter name 'c' doesn't match filename 'other'\n\n2 error(s) found.\n"
    );
    assert_eq!(validate::execute(&store, Some("zzz")).unwrap_err().message(), "Task 'zzz' not found");
    let fine = store_of(&[("a", &[], TaskStatus::Pending), ("b", &["a"], TaskStatus::Done)]);
    assert_eq!(validate::execute(&fine, None).unwrap(), "✓ All 2 task(s) valid.\n");
    assert_eq!(validate::execute(&fine, Some("b")).unwrap(), "✓ All 1 task(s) valid.\n");
    assert_eq!(validate::execute(&TaskStore::default(), None).unwrap(), "No tasks found in .wt/tasks/\n");
}

#[test]
fn inspection_guards() {
    let mut store = store_of(&[("p", &[], TaskStatus::Pending), ("r", &[], TaskStatus::Running), ("m", &[], TaskStatus::Merged)]);
    store.set_instance("r", Some(bound("r", Some("sid"))));
    store.set_instance("m", Some(bound("m", None)));
    let message = |r: Result<(), WtError>| r.unwrap_err().message();
    assert_eq!(message(inspect::check_tail(&store, "x", true, true)), "Task 'x' not found");
    assert_eq!(message(inspect::check_tail(&store, "p", true, true)), "Task 'p' has not been started");
    assert_eq!(message(inspect::check_tail(&store, "r", false, true)), "Cannot review task 'r': worktree no longer exists");
    assert_eq!(message(inspect::check_tail(&store, "m", true, true)), "Cannot review task 'm': task has no session ID (started with older wt version)");
    assert_eq!(message(inspect::check_tail(&store, "r", true, false)), "Cannot review task 'r': session transcript not found");
    assert!(inspect::check_tail(&store, "r", true, true).is_ok());
    assert_eq!(
        inspect::render_tail("r", &vec!["hi \"there\"".to_string(), "two".to_string()]).unwrap(),
        "[\n  {\n    \"role\": \"assistant\",\n    \"content\": \"hi \\\"there\\\"\"\n  },\n  {\n    \"role\": \"assistant\",\n    \"content\": \"two\"\n  }\n]"
    );
    assert_eq!(inspect::render_tail("r", &Vec::new()).unwrap_err().message(), "No assistant messages found for task 'r'");

    assert_eq!(message(inspect::check_review(&mut store, "r", true, true, true)), "Cannot review task 'r': task is still running");
    assert_eq!(store.get_status("r"), TaskStatus::Running);
    assert_eq!(message(inspect::check_review(&mut store, "m", false, true, true)), "Task 'm' is not in Done state");
    assert_eq!(message(inspect::check_review(&mut store, "r", false, false, true)), "Cannot review task 'r': worktree no longer exists");
    assert_eq!(store.get_status("r"), TaskStatus::Done);
    assert!(inspect::check_review(&mut store, "r", false, true, true).is_ok());

    assert_eq!(inspect::check_enter(&store, "wt", true, None, false).unwrap(), "wt");
    assert_eq!(inspect::check_enter(&store, "wt", true, Some("r"), true).unwrap(), "wt:r");
    assert_eq!(
        inspect::check_enter(&store, "wt", true, Some("p"), true).unwrap_err().message(),
        "Tmux command failed: Task 'p' is not running. Start it first with: wt start p"
    );
    assert!(inspect::check_enter(&store, "wt", true, Some("r"), false).unwrap_err().message().contains("no longer exists"));
    let (names, skipped) = inspect::plan_logs(&store);
    assert_eq!(names, vec!["m", "r"]);
    assert_eq!(skipped, 0);
    assert_eq!(inspect::logs_summary(2, 1), "\nGenerated: 2, Skipped: 1");
}

#[test]
fn actions_on_the_selected_task() {
    let mut store = store_of(&[("t", &[], TaskStatus::Running)]);
    store.set_instance("t", Some(bound("t", Some("sid"))));
    let running = app_on("t", TaskStatus::Running, true, Some("sid"));
    let refused = handle_merged_action(&running, &mut store, "t");
    assert!(!refused.success);
    assert_eq!(refused.error.as_deref(), Some("Cannot mark as merged: task is running (need done)"));
    assert_eq!(store.get_status("t"), TaskStatus::Running);
    let done = handle_done_action(&running, &mut store, "t");
    assert!(done.success);
    let info = done.task.unwrap();
    assert_eq!((info.status_before, info.status_after), (Some(TaskStatus::Running), Some(TaskStatus::Done)));
    assert_eq!(store.get_status("t"), TaskStatus::Done);
    let entered = handle_enter_action(&running, "t", true);
    assert!(entered.success);
    let command = entered.command.unwrap();
    assert_eq!(command.cmd_type, "tmux_switch");
    assert_eq!((command.session.as_deref(), command.window.as_deref()), (Some("wt"), Some("t")));

    let finished = app_on("t", TaskStatus::Done, false, Some("sid"));
    let again = handle_done_action(&finished, &mut store, "t");
    assert_eq!(again.error.as_deref(), Some("Cannot mark as done: task is not running"));
    let resumed = handle_enter_action(&finished, "t", false).command.unwrap();
    assert_eq!(resumed.cmd_type, "resume");
    assert_eq!(resumed.worktree.as_deref(), Some("/w/t"));
    assert!(resumed.shell_command.unwrap().starts_with("cd /w/t && "));
    assert!(!handle_enter_action(&app_on("t", TaskStatus::Done, false, None), "t", false).success);
    assert!(handle_merged_action(&finished, &mut store, "t").success);
    assert_eq!(store.get_status("t"), TaskStatus::Merged);

    let early = handle_archive_action(&finished, &mut store, "t");
    assert_eq!(early.error.as_deref(), Some("Cannot archive: task is done (need merged)"));
    let merged = app_on("t", TaskStatus::Merged, false, Some("sid"));
    let archived = handle_archive_action(&merged, &mut store, "t");
    assert!(archived.success);
    assert_eq!(store.get_status("t"), TaskStatus::Archived);
    assert!(store.get_instance("t").is_none());
    let stale = handle_archive_action(&merged, &mut store, "t");
    assert_eq!(stale.error.as_deref(), Some("Failed to archive: Invalid state transition: cannot change task from archived to archived"));
}

fn session_facts() -> wt::commands::review::Facts {
    wt::commands::review::Facts {
        duration_secs: Some(90),
        input_tokens: 10020,
        output_tokens: 300,
        num_turns: 2,
        context_percent: 5,
        summary: Some("All tests pass.".to_string()),
    }
}

#[test]
fn review_in_words_lists_what_is_known() {
    let text = wt::commands::review::output_text(
        "auth",
        &Some(session_facts()),
        Some((12, 3)),
        "cd /w/auth && agent -r abc",
        "cd /w/auth && agent --output-format stream-json -r abc -p \"x\"",
    );
    let expected = [
        "Task: auth (Done)",
        "",
        "Duration: 1m 30s",
        "",
        "## Statistics",
        "  Input: 10020 tokens | Output: 300 tokens | Turns: 2",
        "  Context usage: 5%",
        "",
        "## Code Changes",
        "  +12 -3",
        "",
        "## Result",
        "All tests pass.",
        "",
        "---",
        "# Resume conversation (interactive, for human):",
        "cd /w/auth && agent -r abc",
        "",
        "# Continue with prompt (for agent):",
        "cd /w/auth && agent --output-format stream-json -r abc -p \"x\"",
        "",
    ]
    .join("\n");
    assert_eq!(text, expected);
}

#[test]
fn review_in_words_without_metrics_or_changes() {
    let text = wt::commands::review::output_text("auth", &None, Some((5, 5)), "one", "two");
    assert_eq!(
        text,
        "Task: auth (Done)\n\n(Unable to parse transcript)\n\n---\n# Resume conversation (interactive, for human):\none\n\n# Continue with prompt (for agent):\ntwo\n"
    );
    let mut facts = session_facts();
    facts.duration_secs = None;
    facts.summary = None;
    let text = wt::commands::review::output_text("auth", &Some(facts), Some((0, 0)), "one", "two");
    assert_eq!(
        text,
        "Task: auth (Done)\n\n\n## Statistics\n  Input: 10020 tokens | Output: 300 tokens | Turns: 2\n  Context usage: 5%\n\n---\n# Resume conversation (interactive, for human):\none\n\n# Continue with prompt (for agent):\ntwo\n"
    );
}

#[test]
fn review_cuts_a_long_summary() {
    let mut facts = session_facts();
    facts.summary = Some("x".repeat(2001));
    let text = wt::commands::review::output_text("auth", &Some(facts), None, "one", "two");
    assert!(text.contains(&format!("## Result\n{}...\n", "x".repeat(2000))));
    assert!(!text.contains(&"x".repeat(2001)));
    let mut facts = session_facts();
    facts.summary = Some("y".repeat(2000));
    let text = wt::commands::review::output_text("auth", &Some(facts), None, "one", "two");
    assert!(text.contains(&format!("## Result\n{}\n\n---", "y".repeat(2000))));
}

#[test]
fn review_as_json_reads_back() {
    let text = wt::commands::review::output_json(
        "auth",
        "/w/auth",
        "abc",
        &Some(session_facts()),
        Some((12, 3)),
        "cd /w/auth && agent -r abc",
        "go \"on\"",
    );
    let expected = [
        "{",
        "  \"task\": \"auth\",",
        "  \"status\": \"done\",",
        "  \"worktree_path\": \"/w/auth\",",
        "  \"session_id\": \"abc\",",
        "  \"metrics\": {",
        "    \"duration_secs\": 90,",
        "    \"input_tokens\": 10020,",
        "    \"output_tokens\": 300,",
        "    \"num_turns\": 2,",
        "    \"context_percent\": 5",
        "  },",
        "  \"code_changes\": {",
        "    \"insertions\": 12,",
        "    \"deletions\": 3",
        "  },",
        "  \"summary\": \"All tests pass.\",",
        "  \"commands\": {",
        "    \"interactive\": \"cd /w/auth && agent -r abc\",",
        "    \"non_interactive\": \"go \\\"on\\\"\"",
        "  }",
        "}",
    ]
    .join("\n");
    assert_eq!(text, expected);
    let value: serde_json::Value = serde_json::from_str(&text).unwrap();
    assert_eq!(value["commands"]["non_interactive"], "go \"on\"");
    assert_eq!(value["metrics"]["context_percent"], 5);
}

#[test]
fn review_as_json_leaves_out_what_is_not_known() {
    let text = wt::commands::review::output_json("auth", "/w", "abc", &None, Some((0, 0)), "one", "two");
    let value: serde_json::Value = serde_json::from_str(&text).unwrap();
    let keys: Vec<&str> = value.as_object().unwrap().keys().map(|k| k.as_str()).collect();
    assert_eq!(keys, vec!["commands", "session_id", "status", "task", "worktree_path"]);
    let mut facts = session_facts();
    facts.duration_secs = None;
    facts.summary = None;
    let text = wt::commands::review::output_json("auth", "/w", "abc", &Some(facts), None, "one", "two");
    let value: serde_json::Value = serde_json::from_str(&text).unwrap();
    assert!(value.get("summary").is_none());
    assert!(value.get("code_changes").is_none());
    assert!(value["metrics"].get("duration_secs").is_none());
    assert_eq!(value["metrics"]["input_tokens"], 10020);
}

#[test]
fn review_facts_come_from_the_metrics() {
    let records = wt::services::records::read_entries(
        "{\"type\":\"assistant\",\"timestamp\":\"2024-03-01T10:00:00Z\",\"message\":{\"usage\":{\"input_tokens\":20,\"output_tokens\":200,\"cache_read_input_tokens\":10000},\"content\":[{\"type\":\"text\",\"text\":\"Done.\"}]}}\n{\"type\":\"result\",\"timestamp\":\"2024-03-01T10:02:05Z\",\"num_turns\":1,\"modelUsage\":{\"m\":{\"outputTokens\":300,\"contextWindow\":200000}}}\n",
    );
    let metrics = wt::services::transcript::parse_transcript(&records).unwrap();
    let facts = wt::commands::review::facts(&metrics);
    assert_eq!(facts.duration_secs, Some(125));
    assert_eq!(facts.input_tokens, 10020);
    assert_eq!(facts.output_tokens, 300);
    assert_eq!(facts.num_turns, 1);
    assert_eq!(facts.context_percent, 5);
    assert_eq!(facts.summary.as_deref(), Some("Done."));
    assert_eq!(
        wt::commands::review::continue_command("/w/auth", "agent", "abc"),
        "cd /w/auth && agent --output-format stream-json -r abc -p \"继续完成任务\""
    );
}
