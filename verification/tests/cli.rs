use std::cell::RefCell;
use std::collections::BTreeMap;

use wt::commands::report::{display_status, to_json};
use wt::commands::{archive, cleanup, create, done, init, inspect, list, new, next, reset, start, validate};
use wt::error::WtError;
use wt::models::document::status_from_name;
use wt::models::markdown::task_file;
use wt::models::{Instance, StatusStore, TaskInput, TaskStore, WtConfig};

// A project as the commands see it: its files by path. The worktrees, branches and tmux
// windows of a project are not modelled; nothing of them is ever found.
struct Repo {
    files: RefCell<BTreeMap<String, String>>,
}

struct Probe {
    found: bool,
}

impl Probe {
    fn is_there(&self) -> bool {
        self.found
    }

    fn is_dir(&self) -> bool {
        self.found
    }
}

impl Repo {
    fn path(&self) -> &Repo {
        self
    }

    fn join(&self, path: &str) -> Probe {
        let inside = format!("{}/", path);
        let files = self.files.borrow();
        Probe { found: files.contains_key(path) || files.keys().any(|k| k.starts_with(&inside)) }
    }

    fn read(&self, path: &str) -> Option<String> {
        self.files.borrow().get(path).cloned()
    }

    fn write(&self, path: &str, content: &str) {
        self.files.borrow_mut().insert(path.to_string(), content.to_string());
    }

    fn load_status(&self) -> Result<StatusStore, WtError> {
        StatusStore::load(self.read(".wt/status.json").as_deref())
    }

    fn save_status(&self, status: &StatusStore) {
        self.write(".wt/status.json", &status.to_json());
    }

    fn load_config(&self) -> Result<WtConfig, WtError> {
        WtConfig::load(self.read(".wt/config.yaml").as_deref())
    }

    fn load(&self) -> Result<TaskStore, WtError> {
        let files: Vec<(String, String)> = self
            .files
            .borrow()
            .iter()
            .filter(|(path, _)| path.starts_with(".wt/tasks/"))
            .map(|(path, content)| (path.clone(), content.clone()))
            .collect();
        let (store, _warnings) = TaskStore::load(self.read(".wt/status.json").as_deref(), &files)?;
        Ok(store)
    }
}

fn setup_test_repo() -> Repo {
    let repo = Repo { files: RefCell::new(BTreeMap::new()) };
    repo.write("README.md", "# Test");
    repo.write(".wt/config.yaml", "start_args: -p test\ntmux_session: test-wt\n");
    repo
}

fn bare_repo() -> Repo {
    Repo { files: RefCell::new(BTreeMap::new()) }
}

fn setup_repo_with_tasks(tasks: &[(&str, &[&str], &str)]) -> Repo {
    let dir = setup_test_repo();
    for (name, depends, status) in tasks {
        create_task_file(dir.path(), name, depends);
        set_task_status(dir.path(), name, status);
    }
    dir
}

fn create_task_file(dir: &Repo, name: &str, depends: &[&str]) {
    let depends_yaml = if depends.is_empty() {
        String::new()
    } else {
        format!(
            "depends:\n{}\n",
            depends
                .iter()
                .map(|d| format!("  - {}", d))
                .collect::<Vec<_>>()
                .join("\n")
        )
    };
    let content = format!("---\nname: {}\n{}---\n\nTask {}", name, depends_yaml, name);
    dir.write(&format!(".wt/tasks/{}.md", name), &content);
}

fn instance(branch: &str, worktree_path: &str, tmux_session: &str, tmux_window: &str) -> Instance {
    Instance {
        branch: branch.to_string(),
        worktree_path: worktree_path.to_string(),
        tmux_session: tmux_session.to_string(),
        tmux_window: tmux_window.to_string(),
        session_id: None,
    }
}

fn set_task_status(dir: &Repo, name: &str, status: &str) {
    set_task_status_with_instance(dir, name, status, None);
}

fn set_task_status_with_instance(dir: &Repo, name: &str, status: &str, bound: Option<Instance>) {
    let mut store = dir.load_status().unwrap_or_default();
    let _ = store.tasks.remove(name);
    store.set_status(name, status_from_name(status).unwrap());
    if bound.is_some() {
        store.set_instance(name, bound);
    }
    dir.save_status(&store);
}

fn set_scratch_status(dir: &Repo, name: &str, status: &str) {
    set_task_status(dir, name, status);
    let mut store = dir.load_status().unwrap();
    store.set_scratch(name, true);
    dir.save_status(&store);
}

fn set_scratch_status_with_instance(dir: &Repo, name: &str, status: &str, bound: Instance) {
    set_task_status_with_instance(dir, name, status, Some(bound));
    let mut store = dir.load_status().unwrap();
    store.set_scratch(name, true);
    dir.save_status(&store);
}

fn task_exists_in_status(dir: &Repo, name: &str) -> bool {
    dir.load_status().unwrap().name_exists(name)
}

fn line(text: String) -> String {
    format!("{}\n", text)
}

fn dispatch(dir: &Repo, args: &[&str]) -> Result<String, WtError> {
    let positional: Vec<&str> = args[1..].iter().copied().filter(|a| !a.starts_with("--")).collect();
    let json = args.contains(&"--json") && args[0] != "create";
    match args[0] {
        "init" => {
            let plan = init::execute(
                "project",
                dir.join(".wt/config.yaml").is_there(),
                dir.join(".wt/tasks").is_dir(),
                dir.read(".gitignore").as_deref(),
            )?;
            dir.write(".wt/config.yaml", &plan.config);
            if plan.create_tasks_dir {
                dir.write(".wt/tasks/", "");
            }
            if let Some(content) = &plan.gitignore {
                dir.write(".gitignore", content);
            }
            Ok(format!("{}{}", plan.report, plan.next_steps))
        }
        "create" => {
            let input = TaskInput::from_json(args[2])?;
            let store = dir.load()?;
            let path = task_file(&input.name);
            let markdown = store.create(&input, dir.join(&path).is_there())?;
            dir.write(&path, &markdown);
            Ok(line(create::message(&input, &path)))
        }
        "validate" => {
            let store = dir.load()?;
            validate::execute(&store, positional.first().copied())
        }
        "list" => {
            let store = dir.load()?;
            Ok(list::execute(&store, args.contains(&"--tree"), json, false))
        }
        "next" => {
            let store = dir.load()?;
            Ok(next::execute(&store, json, false))
        }
        "start" => {
            let config = dir.load_config()?;
            let mut store = dir.load()?;
            let names = start::execute(&store, positional.first().copied(), false)?;
            let mut out = String::new();
            for name in names {
                let plan = start::begin(&store, &config, &name, "/repo")?;
                start::conflict(&plan, false)?;
                out.push_str(&line(start::message(&config, &name, &plan.branch)));
                start::apply(&mut store, &name, plan.instance);
            }
            dir.save_status(&store.status);
            Ok(out)
        }
        "done" => {
            let mut store = dir.load()?;
            let name = store.resolve_task_ref(positional[0])?;
            done::check_done(&store, &name)?;
            let _ = done::plan_done(&store, &name, false);
            done::apply_done(&mut store, &name);
            dir.save_status(&store.status);
            Ok(line(done::done_message(&name)))
        }
        "merged" => {
            let mut store = dir.load()?;
            let name = store.resolve_task_ref(positional[0])?;
            done::check_merged(&store, &name)?;
            let mut out = String::new();
            if let Some(w) = done::warning(&store, &name) {
                out.push_str(&line(w));
            }
            let _ = done::close_window(&store, &name);
            done::apply_merged(&mut store, &name);
            dir.save_status(&store.status);
            out.push_str(&line(done::merged_message(&name)));
            Ok(out)
        }
        "archive" => {
            let config = dir.load_config()?;
            let mut store = dir.load()?;
            let name = store.resolve_task_ref(positional[0])?;
            archive::check(&store, &name)?;
            let _ = archive::plan(&store, &config, &name);
            let outcome = archive::apply(&mut store, &name);
            dir.save_status(&store.status);
            Ok(line(archive::message(&name, outcome)))
        }
        "reset" => {
            let config = dir.load_config()?;
            let mut store = dir.load()?;
            let name = positional[0];
            reset::check(&store, name)?;
            let (_steps, cleaned) = reset::full_plan(&store, &config, name, "/repo", false, &Vec::new());
            let outcome = reset::apply(&mut store, name, cleaned);
            dir.save_status(&store.status);
            Ok(line(reset::message(name, outcome)))
        }
        "cleanup" => {
            let mut store = dir.load()?;
            let names = cleanup::candidates(&store, args.contains(&"--all"));
            for name in &names {
                let _ = cleanup::plan(&store, name);
                cleanup::apply(&mut store, name);
            }
            dir.save_status(&store.status);
            Ok(line(cleanup::message(names.len()).to_string()))
        }
        "new" => {
            let config = dir.load_config()?;
            let mut store = dir.load()?;
            let name = match positional.first() {
                Some(n) => n.to_string(),
                None => new::generate_scratch_name(&store, &Vec::new()).unwrap(),
            };
            new::check(&store, &name, &Vec::new())?;
            let plan = new::plan(&config, &name, "0123456789abcdef", "/repo");
            let out = line(new::message(&config, &name, &plan.branch));
            new::apply(&mut store, &name, plan.instance);
            dir.save_status(&store.status);
            Ok(out)
        }
        "status" => {
            dir.load_config()?;
            let mut store = dir.load()?;
            let report = display_status(&mut store, &Vec::new(), &Vec::new());
            dir.save_status(&store.status);
            Ok(line(to_json(&report)))
        }
        "logs" => {
            let store = dir.load()?;
            let (names, skipped) = inspect::plan_logs(&store);
            Ok(line(inspect::logs_summary(0, skipped + names.len())))
        }
        "tail" => {
            let store = dir.load()?;
            inspect::check_tail(&store, positional[0], false, false)?;
            inspect::render_tail(positional[0], &Vec::new())
        }
        "enter" => {
            let config = dir.load_config()?;
            let store = dir.load()?;
            inspect::check_enter(&store, &config.tmux_session, false, positional.first().copied(), false)
        }
        other => Err(WtError::InvalidInput(format!("unknown command {}", other))),
    }
}

fn run_wt(dir: &Repo, args: &[&str]) -> (bool, String, String) {
    match dispatch(dir, args) {
        Ok(out) => (true, out, String::new()),
        Err(e) => (false, String::new(), format!("Error: {}\n", e.message())),
    }
}


#[test]
fn test_archive_nonexistent() {
    let dir = setup_test_repo();

    let (ok, _, stderr) = run_wt(dir.path(), &["archive", "nonexistent"]);

    assert!(!ok);
    assert!(stderr.contains("not found"));
}

#[test]
fn test_archive_pending_task_fails() {
    let dir = setup_repo_with_tasks(&[("task1", &[], "pending")]);

    let (ok, _, stderr) = run_wt(dir.path(), &["archive", "task1"]);

    assert!(!ok);
    assert!(
        stderr.contains("Invalid") || stderr.contains("transition") || stderr.contains("pending"),
        "Expected state transition error, got: {}",
        stderr
    );
}

#[test]
fn test_archive_running_task_fails() {
    let dir = setup_repo_with_tasks(&[("task1", &[], "running")]);

    let (ok, _, stderr) = run_wt(dir.path(), &["archive", "task1"]);

    assert!(!ok);
    assert!(
        stderr.contains("Invalid") || stderr.contains("transition"),
        "Expected state transition error, got: {}",
        stderr
    );
}

#[test]
fn test_archive_done_task_fails() {
    let dir = setup_repo_with_tasks(&[("task1", &[], "done")]);

    let (ok, _, stderr) = run_wt(dir.path(), &["archive", "task1"]);

    assert!(!ok);
    assert!(
        stderr.contains("Invalid") || stderr.contains("transition"),
        "Expected state transition error, got: {}",
        stderr
    );
}

#[test]
fn test_archive_merged_task_succeeds() {
    let dir = setup_repo_with_tasks(&[("task1", &[], "merged")]);

    let (ok, stdout, _) = run_wt(dir.path(), &["archive", "task1"]);

    assert!(ok);
    assert!(
        stdout.contains("archived") || stdout.contains("Archive"),
        "Expected archive confirmation, got: {}",
        stdout
    );
}

#[test]
fn test_archive_updates_status_to_archived() {
    let dir = setup_repo_with_tasks(&[("task1", &[], "merged")]);

    let (ok, _, _) = run_wt(dir.path(), &["archive", "task1"]);
    assert!(ok);

    // Verify status changed to archived
    let (ok, stdout, _) = run_wt(dir.path(), &["list", "--json"]);
    assert!(ok);
    assert!(
        stdout.contains("\"status\": \"archived\"") || stdout.contains("\"status\":\"archived\""),
        "Expected archived status, got: {}",
        stdout
    );
}

#[test]
fn test_archive_preserves_task_file() {
    let dir = setup_repo_with_tasks(&[("task1", &[], "merged")]);

    let task_file = dir.path().join(".wt/tasks/task1.md");
    assert!(task_file.is_there(), "Task file should exist before archive");

    let (ok, _, _) = run_wt(dir.path(), &["archive", "task1"]);
    assert!(ok);

    // Task file should still exist after archive
    assert!(
        task_file.is_there(),
        "Task file should be preserved after archive"
    );
}

#[test]
fn test_archive_already_archived_is_idempotent() {
    let dir = setup_repo_with_tasks(&[("task1", &[], "archived")]);

    let (ok, stdout, stderr) = run_wt(dir.path(), &["archive", "task1"]);

    // May succeed with warning or fail with clear message
    // Behavior depends on implementation - document it
    let output = format!("{}{}", stdout, stderr);
    assert!(
        ok || output.contains("archived") || output.contains("Invalid"),
        "Expected success, warning, or state error, got: {}",
        output
    );
}

#[test]
fn test_cleanup_nothing() {
    let dir = setup_test_repo();
    let (ok, stdout, _) = run_wt(dir.path(), &["cleanup"]);

    assert!(ok);
    assert!(stdout.contains("Nothing to clean"));
}

#[test]
fn test_cleanup_with_merged_tasks() {
    let dir = setup_repo_with_tasks(&[
        ("merged1", &[], "merged"),
        ("merged2", &[], "merged"),
        ("pending", &[], "pending"),
    ]);

    let (ok, stdout, _) = run_wt(dir.path(), &["cleanup"]);

    assert!(ok);
    // Should only clean merged tasks
    assert!(stdout.contains("Nothing to clean") || stdout.contains("cleaned"));
}

#[test]
fn test_create_simple_task() {
    let dir = setup_test_repo();
    let (ok, stdout, _) = run_wt(
        dir.path(),
        &["create", "--json", r#"{"name": "auth", "depends": [], "description": "Implement auth"}"#],
    );

    assert!(ok);
    assert!(stdout.contains("Task 'auth' created"));
    assert!(dir.path().join(".wt/tasks/auth.md").is_there());
}

#[test]
fn test_create_with_depends() {
    let dir = setup_test_repo();

    run_wt(dir.path(), &["create", "--json", r#"{"name": "auth", "depends": [], "description": "Auth"}"#]);

    let (ok, stdout, _) = run_wt(
        dir.path(),
        &["create", "--json", r#"{"name": "api", "depends": ["auth"], "description": "API"}"#],
    );

    assert!(ok);
    assert!(stdout.contains("Task 'api' created"));
    assert!(stdout.contains("Depends: auth"));
}

#[test]
fn test_create_duplicate_task() {
    let dir = setup_test_repo();

    run_wt(dir.path(), &["create", "--json", r#"{"name": "task1", "depends": [], "description": "Test"}"#]);

    let (ok, _, stderr) = run_wt(
        dir.path(),
        &["create", "--json", r#"{"name": "task1", "depends": [], "description": "Test"}"#],
    );

    assert!(!ok);
    assert!(stderr.contains("already exists"));
}

#[test]
fn test_create_invalid_json() {
    let dir = setup_test_repo();
    let (ok, _, stderr) = run_wt(dir.path(), &["create", "--json", "not json"]);

    assert!(!ok);
    assert!(stderr.contains("Invalid JSON"));
}

#[test]
fn test_create_missing_description() {
    let dir = setup_test_repo();
    let (ok, _, stderr) = run_wt(dir.path(), &["create", "--json", r#"{"name": "test", "depends": []}"#]);

    assert!(!ok);
    assert!(stderr.contains("description") || stderr.contains("missing field"));
}

#[test]
fn test_create_empty_description() {
    let dir = setup_test_repo();
    let (ok, stdout, _) = run_wt(
        dir.path(),
        &["create", "--json", r#"{"name": "test", "depends": [], "description": ""}"#],
    );

    // Empty description is allowed
    assert!(ok);
    assert!(stdout.contains("created"));
}

#[test]
fn test_create_missing_dependency() {
    let dir = setup_test_repo();
    let (ok, _, stderr) = run_wt(
        dir.path(),
        &["create", "--json", r#"{"name": "test", "depends": ["nonexistent"], "description": "Test"}"#],
    );

    assert!(!ok);
    assert!(stderr.contains("not found") || stderr.contains("nonexistent"));
}

#[test]
fn test_create_invalid_name_with_space() {
    let dir = setup_test_repo();
    let (ok, _, stderr) = run_wt(
        dir.path(),
        &["create", "--json", r#"{"name": "has space", "depends": [], "description": "Test"}"#],
    );

    assert!(!ok);
    assert!(stderr.contains("whitespace"));
}

#[test]
fn test_create_invalid_name_with_special_chars() {
    let dir = setup_test_repo();

    for char in ["~", "^", ":", "?", "*", "@"] {
        let json = format!(r#"{{"name": "test{}name", "depends": [], "description": "Test"}}"#, char);
        let (ok, _, stderr) = run_wt(dir.path(), &["create", "--json", &json]);

        assert!(!ok, "Should reject name with {}", char);
        assert!(stderr.contains("invalid") || stderr.contains(char));
    }
}

#[test]
fn test_create_invalid_name_start_with_dash() {
    let dir = setup_test_repo();
    let (ok, _, stderr) = run_wt(
        dir.path(),
        &["create", "--json", r#"{"name": "-task", "depends": [], "description": "Test"}"#],
    );

    assert!(!ok);
    assert!(stderr.contains("start"));
}

#[test]
fn test_create_invalid_name_end_with_lock() {
    let dir = setup_test_repo();
    let (ok, _, stderr) = run_wt(
        dir.path(),
        &["create", "--json", r#"{"name": "task.lock", "depends": [], "description": "Test"}"#],
    );

    assert!(!ok);
    assert!(stderr.contains(".lock"));
}

#[test]
fn test_done_nonexistent() {
    let dir = setup_test_repo();
    let (ok, _, stderr) = run_wt(dir.path(), &["done", "nonexistent"]);

    assert!(!ok);
    assert!(stderr.contains("not found"));
}

#[test]
fn test_done_pending_task() {
    let dir = setup_repo_with_tasks(&[("task", &[], "pending")]);

    let (ok, _, stderr) = run_wt(dir.path(), &["done", "task"]);

    assert!(!ok);
    assert!(stderr.contains("no running") || stderr.contains("instance") || stderr.contains("Invalid state"));
}

#[test]
fn test_done_already_done() {
    let dir = setup_repo_with_tasks(&[("task", &[], "done")]);

    let (ok, _, stderr) = run_wt(dir.path(), &["done", "task"]);

    assert!(!ok);
    assert!(stderr.contains("no running") || stderr.contains("instance") || stderr.contains("Invalid state"));
}

#[test]
fn test_enter_no_session() {
    let dir = setup_test_repo();

    let (ok, _, stderr) = run_wt(dir.path(), &["enter"]);

    assert!(!ok);
    assert!(stderr.contains("does not exist") || stderr.contains("Start a task first"));
}

#[test]
fn test_enter_task_not_found() {
    let dir = setup_test_repo();

    let (ok, _, stderr) = run_wt(dir.path(), &["enter", "nonexistent"]);

    // Either session doesn't exist or task not found
    assert!(!ok);
    assert!(stderr.contains("not found") || stderr.contains("does not exist"));
}

#[test]
fn test_enter_task_not_running() {
    let dir = setup_repo_with_tasks(&[("auth", &[], "pending")]);

    let (ok, _, stderr) = run_wt(dir.path(), &["enter", "auth"]);

    // Session doesn't exist (no task started) or task not running
    assert!(!ok);
    assert!(
        stderr.contains("not running")
            || stderr.contains("does not exist")
            || stderr.contains("Start")
    );
}

#[test]
fn list_test_list_empty() {
    let dir = setup_test_repo();
    let (ok, stdout, _) = run_wt(dir.path(), &["list"]);

    assert!(ok);
    assert!(stdout.contains("No tasks found"));
}

#[test]
fn test_list_shows_tasks() {
    let dir = setup_test_repo();

    run_wt(dir.path(), &["create", "--json", r#"{"name": "auth", "depends": [], "description": "Auth"}"#]);

    let (ok, stdout, _) = run_wt(dir.path(), &["list"]);

    assert!(ok);
    assert!(stdout.contains("auth"));
}

#[test]
fn test_list_shows_status_symbols() {
    let dir = setup_repo_with_tasks(&[
        ("pending_task", &[], "pending"),
        ("running_task", &[], "running"),
        ("done_task", &[], "done"),
        ("merged_task", &[], "merged"),
    ]);

    let (ok, stdout, _) = run_wt(dir.path(), &["list"]);

    assert!(ok);
    assert!(stdout.contains("○")); // pending
    assert!(stdout.contains("●")); // running
    assert!(stdout.contains("◉")); // done
    assert!(stdout.contains("✓")); // merged
}

#[test]
fn test_list_shows_grouped_view() {
    let dir = setup_test_repo();

    run_wt(dir.path(), &["create", "--json", r#"{"name": "a", "depends": [], "description": "A"}"#]);
    run_wt(dir.path(), &["create", "--json", r#"{"name": "b", "depends": ["a"], "description": "B"}"#]);

    let (ok, stdout, _) = run_wt(dir.path(), &["list"]);

    assert!(ok);
    // Default view is grouped, should show "Ready" and "Blocked" sections
    assert!(stdout.contains("Ready"));
    assert!(stdout.contains("Blocked"));
    assert!(stdout.contains("← a○")); // b is blocked by a
}

#[test]
fn test_list_tree_option() {
    let dir = setup_test_repo();

    run_wt(dir.path(), &["create", "--json", r#"{"name": "a", "depends": [], "description": "A"}"#]);
    run_wt(dir.path(), &["create", "--json", r#"{"name": "b", "depends": ["a"], "description": "B"}"#]);

    let (ok, stdout, _) = run_wt(dir.path(), &["list", "--tree"]);

    assert!(ok);
    assert!(stdout.contains("└") || stdout.contains("├"));
}

#[test]
fn test_list_json_empty() {
    let dir = setup_test_repo();
    let (ok, stdout, _) = run_wt(dir.path(), &["list", "--json"]);

    assert!(ok);

    let json: serde_json::Value = serde_json::from_str(&stdout).unwrap();
    assert_eq!(json["tasks"].as_array().unwrap().len(), 0);
}

#[test]
fn test_list_json_single_task() {
    let dir = setup_test_repo();

    run_wt(dir.path(), &["create", "--json", r#"{"name": "auth", "depends": [], "description": "Auth"}"#]);

    let (ok, stdout, _) = run_wt(dir.path(), &["list", "--json"]);

    assert!(ok);

    let json: serde_json::Value = serde_json::from_str(&stdout).unwrap();
    let tasks = json["tasks"].as_array().unwrap();
    assert_eq!(tasks.len(), 1);
    assert_eq!(tasks[0]["name"], "auth");
    assert_eq!(tasks[0]["status"], "pending");
}

#[test]
fn test_list_json_with_depends() {
    let dir = setup_test_repo();

    run_wt(dir.path(), &["create", "--json", r#"{"name": "a", "depends": [], "description": "A"}"#]);
    run_wt(dir.path(), &["create", "--json", r#"{"name": "b", "depends": ["a"], "description": "B"}"#]);

    let (ok, stdout, _) = run_wt(dir.path(), &["list", "--json"]);

    assert!(ok);

    let json: serde_json::Value = serde_json::from_str(&stdout).unwrap();
    let task_b = json["tasks"].as_array().unwrap().iter().find(|t| t["name"] == "b").unwrap();
    assert_eq!(task_b["depends"].as_array().unwrap(), &[serde_json::Value::String("a".to_string())]);
}

#[test]
fn test_list_json_all_statuses() {
    let dir = setup_repo_with_tasks(&[
        ("p", &[], "pending"),
        ("r", &[], "running"),
        ("d", &[], "done"),
        ("m", &[], "merged"),
    ]);

    let (ok, stdout, _) = run_wt(dir.path(), &["list", "--json"]);

    assert!(ok);

    let json: serde_json::Value = serde_json::from_str(&stdout).unwrap();
    let statuses: Vec<&str> = json["tasks"].as_array().unwrap()
        .iter()
        .map(|t| t["status"].as_str().unwrap())
        .collect();

    assert!(statuses.contains(&"pending"));
    assert!(statuses.contains(&"running"));
    assert!(statuses.contains(&"done"));
    assert!(statuses.contains(&"merged"));
}

#[test]
fn test_logs_no_tasks() {
    let dir = setup_test_repo();

    let (ok, stdout, _) = run_wt(dir.path(), &["logs"]);

    assert!(ok);
    assert!(
        stdout.contains("Generated: 0") || stdout.contains("Skipped: 0"),
        "Expected summary line, got: {}",
        stdout
    );
}

#[test]
fn test_logs_skips_pending_tasks() {
    let dir = setup_repo_with_tasks(&[
        ("task1", &[], "pending"),
        ("task2", &[], "pending"),
    ]);

    let (ok, stdout, _) = run_wt(dir.path(), &["logs"]);

    assert!(ok);
    // Pending tasks should be skipped silently
    assert!(
        stdout.contains("Generated: 0"),
        "Pending tasks should be skipped, got: {}",
        stdout
    );
}

#[test]
fn test_logs_processes_running_task_without_transcript() {
    let dir = setup_test_repo();

    create_task_file(dir.path(), "task1", &[]);
    set_task_status_with_instance(
        dir.path(),
        "task1",
        "running",
        Some(instance("wt/task1", "/tmp/nonexistent-worktree", "test-session", "task1")),
    );

    let (ok, stdout, _) = run_wt(dir.path(), &["logs"]);

    assert!(ok);
    // Task should be skipped (no transcript found)
    assert!(
        stdout.contains("Skipped: 1") || stdout.contains("Generated: 0"),
        "Task without transcript should be skipped, got: {}",
        stdout
    );
}

#[test]
fn test_logs_processes_done_tasks() {
    let dir = setup_test_repo();

    create_task_file(dir.path(), "task1", &[]);
    set_task_status_with_instance(
        dir.path(),
        "task1",
        "done",
        Some(instance("wt/task1", "/tmp/nonexistent-worktree", "test-session", "task1")),
    );

    let (ok, stdout, _) = run_wt(dir.path(), &["logs"]);

    assert!(ok);
    // Done tasks should be processed (but skipped if no transcript)
    assert!(
        stdout.contains("Skipped") || stdout.contains("Generated"),
        "Expected summary output, got: {}",
        stdout
    );
}

#[test]
fn test_logs_skips_tasks_without_instance() {
    let dir = setup_repo_with_tasks(&[
        ("task1", &[], "running"),  // No instance
        ("task2", &[], "done"),     // No instance
    ]);

    let (ok, stdout, _) = run_wt(dir.path(), &["logs"]);

    assert!(ok);
    // Tasks without instance should be skipped
    assert!(
        stdout.contains("Skipped: 2") || (stdout.contains("Generated: 0") && stdout.contains("Skipped")),
        "Tasks without instance should be skipped, got: {}",
        stdout
    );
}

#[test]
fn test_logs_ignores_archived_tasks() {
    let dir = setup_repo_with_tasks(&[("task1", &[], "archived")]);

    let (ok, stdout, _) = run_wt(dir.path(), &["logs"]);

    assert!(ok);
    // Archived tasks should not cause errors
    // They may or may not be processed depending on implementation
}

#[test]
fn test_logs_ignores_merged_tasks_without_instance() {
    let dir = setup_repo_with_tasks(&[("task1", &[], "merged")]);

    let (ok, stdout, _) = run_wt(dir.path(), &["logs"]);

    assert!(ok);
    // Merged tasks without instance should be skipped gracefully
    assert!(
        stdout.contains("Skipped") || stdout.contains("Generated"),
        "Expected summary output, got: {}",
        stdout
    );
}

#[test]
fn test_logs_shows_summary() {
    let dir = setup_test_repo();

    let (ok, stdout, _) = run_wt(dir.path(), &["logs"]);

    assert!(ok);
    assert!(
        stdout.contains("Generated:") && stdout.contains("Skipped:"),
        "Should show summary with Generated and Skipped counts, got: {}",
        stdout
    );
}

#[test]
fn test_logs_multiple_tasks_summary() {
    let dir = setup_repo_with_tasks(&[
        ("task1", &[], "pending"),
        ("task2", &[], "running"),
        ("task3", &[], "done"),
    ]);

    let (ok, stdout, _) = run_wt(dir.path(), &["logs"]);

    assert!(ok);
    // Should process all non-pending tasks
    assert!(stdout.contains("Generated:") && stdout.contains("Skipped:"));
}

#[test]
fn test_logs_mixed_states() {
    let dir = setup_test_repo();

    // Create mix of regular tasks and scratch
    create_task_file(dir.path(), "regular", &[]);
    set_task_status(dir.path(), "regular", "pending");

    set_scratch_status(dir.path(), "scratch-env", "running");

    let (ok, stdout, _) = run_wt(dir.path(), &["logs"]);

    assert!(ok);
    // Should handle mix gracefully
    assert!(stdout.contains("Generated:") && stdout.contains("Skipped:"));
}

#[test]
fn test_merged_nonexistent() {
    let dir = setup_test_repo();
    let (ok, _, stderr) = run_wt(dir.path(), &["merged", "nonexistent"]);

    assert!(!ok);
    assert!(stderr.contains("not found"));
}

#[test]
fn test_merged_already_merged() {
    let dir = setup_repo_with_tasks(&[("task", &[], "merged")]);

    let (ok, stdout, _) = run_wt(dir.path(), &["merged", "task"]);

    // Should warn but succeed (idempotent)
    assert!(ok);
    assert!(stdout.contains("Warning") || stdout.contains("merged"));
}

#[test]
fn test_merged_pending_task() {
    let dir = setup_repo_with_tasks(&[("task", &[], "pending")]);

    let (ok, stdout, _) = run_wt(dir.path(), &["merged", "task"]);

    // Should warn but succeed (allow force merge)
    assert!(ok);
    assert!(stdout.contains("Warning") || stdout.contains("pending"));
}

#[test]
fn test_new_auto_generates_name_s1_s2() {
    let dir = setup_test_repo();

    // wt new without name should fail in test environment (no tmux)
    // but we can check the error message shows a generated name
    let (_ok, stdout, stderr) = run_wt(dir.path(), &["new"]);

    // It will fail because tmux is not available in test, but should show the generated name
    // or succeed in creating status entry before tmux failure
    let output = format!("{}{}", stdout, stderr);

    // The command should attempt to create a scratch env with auto-generated name (s1, s2, ...)
    // Either succeeds partially or fails on tmux - both indicate name was generated
    assert!(
        output.contains(": s1") || output.contains(": s2") || output.contains("'s1'") || output.contains("'s2'") || output.contains("Created scratch"),
        "Expected auto-generated name pattern 's1/s2' or creation message, got: {}",
        output
    );
}

#[test]
fn test_new_with_explicit_name_validates() {
    let dir = setup_test_repo();

    // Invalid name (starts with dash) should fail validation
    // Use positional argument, not --name
    let (ok, _, stderr) = run_wt(dir.path(), &["new", "--", "-invalid"]);

    assert!(!ok);
    assert!(
        stderr.contains("Invalid") || stderr.contains("branch") || stderr.contains("cannot start with"),
        "Expected validation error, got: {}",
        stderr
    );
}

#[test]
fn test_new_with_valid_explicit_name() {
    let dir = setup_test_repo();

    // Valid name - will fail on git/tmux but should pass validation
    let (_ok, stdout, stderr) = run_wt(dir.path(), &["new", "my-scratch"]);

    let output = format!("{}{}", stdout, stderr);

    // Should either succeed or fail on git/tmux (not validation)
    // If it fails on validation, that's a bug
    assert!(
        !output.contains("Invalid task name"),
        "Name 'my-scratch' should be valid"
    );
}

#[test]
fn test_new_name_conflict_with_task_file() {
    let dir = setup_test_repo();

    // Create existing task file
    create_task_file(dir.path(), "existing", &[]);

    // Try to create scratch with same name (positional arg)
    let (ok, _, stderr) = run_wt(dir.path(), &["new", "existing"]);

    assert!(!ok);
    assert!(
        stderr.contains("already exists") || stderr.contains("TaskExists"),
        "Expected conflict error, got: {}",
        stderr
    );
}

#[test]
fn test_new_name_conflict_with_status_entry() {
    let dir = setup_test_repo();

    // Create status entry without task file (scratch scenario)
    set_scratch_status(dir.path(), "scratch-env", "running");

    // Try to create another scratch with same name
    let (ok, _, stderr) = run_wt(dir.path(), &["new", "scratch-env"]);

    assert!(!ok);
    assert!(
        stderr.contains("already exists") || stderr.contains("status.json"),
        "Expected conflict error, got: {}",
        stderr
    );
}

#[test]
fn test_new_does_not_create_task_file() {
    let dir = setup_test_repo();

    // Run new command (may fail on tmux but should not create task file)
    let _ = run_wt(dir.path(), &["new", "no-file-scratch"]);

    // Verify no task file was created
    let task_file = dir.path().join(".wt/tasks/no-file-scratch.md");
    assert!(
        !task_file.is_there(),
        "wt new should not create task file"
    );
}

#[test]
fn test_new_rejects_names_starting_with_dash() {
    let dir = setup_test_repo();

    // Use -- to pass argument starting with dash
    let (ok, _, stderr) = run_wt(dir.path(), &["new", "--", "-badname"]);

    assert!(!ok);
    assert!(
        stderr.contains("Invalid") || stderr.contains("branch") || stderr.contains("cannot start with"),
        "Expected validation error, got: {}",
        stderr
    );
}

#[test]
fn test_new_rejects_names_with_spaces() {
    let dir = setup_test_repo();

    let (ok, _, stderr) = run_wt(dir.path(), &["new", "bad name"]);

    assert!(!ok);
    assert!(
        stderr.contains("Invalid") || stderr.contains("space") || stderr.contains("whitespace"),
        "Expected validation error, got: {}",
        stderr
    );
}

#[test]
fn test_new_rejects_names_ending_with_dot() {
    let dir = setup_test_repo();

    let (ok, _, stderr) = run_wt(dir.path(), &["new", "badname."]);

    assert!(!ok);
    assert!(
        stderr.contains("Invalid") || stderr.contains("branch") || stderr.contains("cannot end with"),
        "Expected validation error, got: {}",
        stderr
    );
}

#[test]
fn test_new_rejects_names_ending_with_lock() {
    let dir = setup_test_repo();

    let (ok, _, stderr) = run_wt(dir.path(), &["new", "badname.lock"]);

    assert!(!ok);
    assert!(
        stderr.contains("Invalid") || stderr.contains("branch") || stderr.contains(".lock"),
        "Expected validation error, got: {}",
        stderr
    );
}

#[test]
fn test_new_rejects_names_with_double_dots() {
    let dir = setup_test_repo();

    let (ok, _, stderr) = run_wt(dir.path(), &["new", "bad..name"]);

    assert!(!ok);
    assert!(
        stderr.contains("Invalid") || stderr.contains("branch") || stderr.contains(".."),
        "Expected validation error, got: {}",
        stderr
    );
}

#[test]
fn test_next_empty() {
    let dir = setup_test_repo();
    let (ok, stdout, _) = run_wt(dir.path(), &["next"]);

    assert!(ok);
    assert!(stdout.contains("No pending tasks"));
}

#[test]
fn test_next_single_ready() {
    let dir = setup_repo_with_tasks(&[("auth", &[], "pending")]);

    let (ok, stdout, _) = run_wt(dir.path(), &["next"]);

    assert!(ok);
    assert!(stdout.contains("Ready to start"));
    assert!(stdout.contains("auth"));
}

#[test]
fn test_next_multiple_ready() {
    let dir = setup_repo_with_tasks(&[
        ("auth", &[], "pending"),
        ("database", &[], "pending"),
    ]);

    let (ok, stdout, _) = run_wt(dir.path(), &["next"]);

    assert!(ok);
    assert!(stdout.contains("auth"));
    assert!(stdout.contains("database"));
}

#[test]
fn test_next_blocked_by_pending() {
    let dir = setup_repo_with_tasks(&[
        ("auth", &[], "pending"),
        ("api", &["auth"], "pending"),
    ]);

    let (ok, stdout, _) = run_wt(dir.path(), &["next"]);

    assert!(ok);
    assert!(stdout.contains("Blocked"));
    assert!(stdout.contains("api"));
    assert!(stdout.contains("waiting for"));
}

#[test]
fn test_next_unblocked_by_merged() {
    let dir = setup_repo_with_tasks(&[
        ("auth", &[], "merged"),
        ("api", &["auth"], "pending"),
    ]);

    let (ok, stdout, _) = run_wt(dir.path(), &["next"]);

    assert!(ok);
    assert!(stdout.contains("Ready"));
    assert!(stdout.contains("api"));
}

#[test]
fn test_next_ignores_non_pending() {
    let dir = setup_repo_with_tasks(&[
        ("running", &[], "running"),
        ("done", &[], "done"),
        ("merged", &[], "merged"),
    ]);

    let (ok, stdout, _) = run_wt(dir.path(), &["next"]);

    assert!(ok);
    assert!(stdout.contains("No pending tasks"));
}

#[test]
fn test_next_diamond_dependency() {
    let dir = setup_repo_with_tasks(&[
        ("a", &[], "merged"),
        ("b", &["a"], "pending"),
        ("c", &["a"], "pending"),
        ("d", &["b", "c"], "pending"),
    ]);

    let (ok, stdout, _) = run_wt(dir.path(), &["next", "--json"]);

    assert!(ok);

    let json: serde_json::Value = serde_json::from_str(&stdout).unwrap();
    let ready: Vec<&str> = json["ready"]
        .as_array()
        .unwrap()
        .iter()
        .map(|v| v["name"].as_str().unwrap())
        .collect();

    assert!(ready.contains(&"b"));
    assert!(ready.contains(&"c"));
    assert!(!ready.contains(&"d"));
}

#[test]
fn test_next_json_empty() {
    let dir = setup_test_repo();
    let (ok, stdout, _) = run_wt(dir.path(), &["next", "--json"]);

    assert!(ok);

    let json: serde_json::Value = serde_json::from_str(&stdout).unwrap();
    assert!(json["ready"].as_array().unwrap().is_empty());
    assert!(json["blocked"].as_array().unwrap().is_empty());
}

#[test]
fn test_next_json_ready() {
    let dir = setup_repo_with_tasks(&[("auth", &[], "pending")]);

    let (ok, stdout, _) = run_wt(dir.path(), &["next", "--json"]);

    assert!(ok);

    let json: serde_json::Value = serde_json::from_str(&stdout).unwrap();
    assert_eq!(json["ready"][0]["name"], "auth");
    assert_eq!(json["ready"][0]["index"], 1);
}

#[test]
fn test_next_json_blocked() {
    let dir = setup_repo_with_tasks(&[
        ("auth", &[], "pending"),
        ("api", &["auth"], "pending"),
    ]);

    let (ok, stdout, _) = run_wt(dir.path(), &["next", "--json"]);

    assert!(ok);

    let json: serde_json::Value = serde_json::from_str(&stdout).unwrap();
    assert_eq!(json["blocked"][0]["name"], "api");
    assert!(json["blocked"][0]["waiting_for"].as_array().unwrap().contains(&serde_json::Value::String("auth".to_string())));
}

#[test]
fn test_next_json_multiple_blockers() {
    let dir = setup_repo_with_tasks(&[
        ("a", &[], "pending"),
        ("b", &[], "pending"),
        ("c", &["a", "b"], "pending"),
    ]);

    let (ok, stdout, _) = run_wt(dir.path(), &["next", "--json"]);

    assert!(ok);

    let json: serde_json::Value = serde_json::from_str(&stdout).unwrap();
    let waiting_for = json["blocked"][0]["waiting_for"].as_array().unwrap();
    assert_eq!(waiting_for.len(), 2);
}

#[test]
fn test_reset_nonexistent() {
    let dir = setup_test_repo();

    let (ok, _stdout, stderr) = run_wt(dir.path(), &["reset", "nonexistent"]);

    assert!(!ok);
    assert!(stderr.contains("not found"));
}

#[test]
fn test_reset_pending_task_is_idempotent() {
    let dir = setup_repo_with_tasks(&[("task1", &[], "pending")]);

    let (ok, stdout, _stderr) = run_wt(dir.path(), &["reset", "task1"]);

    assert!(ok);
    assert!(stdout.contains("already pending"));
}

#[test]
fn test_reset_running_task() {
    let dir = setup_repo_with_tasks(&[("task1", &[], "running")]);

    let (ok, stdout, _stderr) = run_wt(dir.path(), &["reset", "task1"]);

    assert!(ok);
    assert!(stdout.contains("reset to pending"));

    // Verify status changed to pending
    let (ok, stdout, _) = run_wt(dir.path(), &["list", "--json"]);
    assert!(ok);
    assert!(stdout.contains("\"status\": \"pending\"") || stdout.contains("\"status\":\"pending\""));
}

#[test]
fn test_reset_done_task() {
    let dir = setup_repo_with_tasks(&[("task1", &[], "done")]);

    let (ok, stdout, _stderr) = run_wt(dir.path(), &["reset", "task1"]);

    assert!(ok);
    assert!(stdout.contains("reset to pending"));
}

#[test]
fn test_reset_with_non_pending_dependents_fails() {
    // Create task1 and task2 where task2 depends on task1
    // If task2 is running, we should not be able to reset task1
    let dir = setup_repo_with_tasks(&[
        ("task1", &[], "running"),
        ("task2", &["task1"], "running"),
    ]);

    let (ok, _stdout, stderr) = run_wt(dir.path(), &["reset", "task1"]);

    assert!(!ok);
    assert!(stderr.contains("Cannot reset"));
    assert!(stderr.contains("task2"));
    assert!(stderr.contains("depends on it"));
}

#[test]
fn test_reset_with_pending_dependents_succeeds() {
    // If dependent task is pending, reset should succeed
    let dir = setup_repo_with_tasks(&[
        ("task1", &[], "running"),
        ("task2", &["task1"], "pending"),
    ]);

    let (ok, stdout, _stderr) = run_wt(dir.path(), &["reset", "task1"]);

    assert!(ok);
    assert!(stdout.contains("reset to pending"));
}

#[test]
fn test_reset_merged_task() {
    let dir = setup_repo_with_tasks(&[("task1", &[], "merged")]);

    let (ok, stdout, _stderr) = run_wt(dir.path(), &["reset", "task1"]);

    assert!(ok);
    assert!(stdout.contains("reset to pending"));
}

#[test]
fn test_scratch_done_forbidden() {
    let dir = setup_test_repo();

    // Create scratch status entry (no task file)
    set_scratch_status(dir.path(), "scratch-env", "running");

    let (ok, _, stderr) = run_wt(dir.path(), &["done", "scratch-env"]);

    assert!(!ok);
    assert!(
        stderr.contains("Scratch") || stderr.contains("cannot be marked as done"),
        "Expected scratch-specific error, got: {}",
        stderr
    );
}

#[test]
fn test_scratch_done_suggests_archive() {
    let dir = setup_test_repo();

    set_scratch_status(dir.path(), "scratch-env", "running");

    let (ok, _, stderr) = run_wt(dir.path(), &["done", "scratch-env"]);

    assert!(!ok);
    assert!(
        stderr.contains("archive"),
        "Error should suggest using 'wt archive', got: {}",
        stderr
    );
}

#[test]
fn test_scratch_merged_forbidden() {
    let dir = setup_test_repo();

    // Create scratch in done-like state
    set_scratch_status(dir.path(), "scratch-env", "running");

    let (ok, _, stderr) = run_wt(dir.path(), &["merged", "scratch-env"]);

    assert!(!ok);
    assert!(
        stderr.contains("Scratch") || stderr.contains("cannot be marked as merged"),
        "Expected scratch-specific error, got: {}",
        stderr
    );
}

#[test]
fn test_scratch_merged_suggests_archive() {
    let dir = setup_test_repo();

    set_scratch_status(dir.path(), "scratch-env", "running");

    let (ok, _, stderr) = run_wt(dir.path(), &["merged", "scratch-env"]);

    assert!(!ok);
    assert!(
        stderr.contains("archive"),
        "Error should suggest using 'wt archive', got: {}",
        stderr
    );
}

#[test]
fn test_scratch_archive_allowed_from_running() {
    let dir = setup_test_repo();

    // Create scratch with instance info
    set_scratch_status_with_instance(
        dir.path(),
        "scratch-env",
        "running",
        instance("wt/scratch-env", "/tmp/nonexistent", "test-session", "scratch-env"),
    );

    let (ok, stdout, _) = run_wt(dir.path(), &["archive", "scratch-env"]);

    assert!(ok, "Scratch should be archivable directly from running");
    assert!(
        stdout.contains("cleaned up") || stdout.contains("Scratch"),
        "Expected scratch cleanup message, got: {}",
        stdout
    );
}

#[test]
fn test_scratch_archive_removes_from_status() {
    let dir = setup_test_repo();

    set_scratch_status_with_instance(
        dir.path(),
        "scratch-env",
        "running",
        instance("wt/scratch-env", "/tmp/nonexistent", "test-session", "scratch-env"),
    );

    // Verify scratch exists before
    assert!(task_exists_in_status(dir.path(), "scratch-env"));

    let (ok, _, _) = run_wt(dir.path(), &["archive", "scratch-env"]);
    assert!(ok);

    // Verify scratch entry is completely removed (not set to Archived)
    assert!(
        !task_exists_in_status(dir.path(), "scratch-env"),
        "Scratch should be removed from status.json, not set to Archived"
    );
}

#[test]
fn test_scratch_reset_removes_from_status() {
    let dir = setup_test_repo();

    set_scratch_status_with_instance(
        dir.path(),
        "scratch-env",
        "running",
        instance("wt/scratch-env", "/tmp/nonexistent", "test-session", "scratch-env"),
    );

    // Verify scratch exists before
    assert!(task_exists_in_status(dir.path(), "scratch-env"));

    let (ok, stdout, _) = run_wt(dir.path(), &["reset", "scratch-env"]);
    assert!(ok);

    // Scratch reset should remove entry, not reset to pending
    assert!(
        !task_exists_in_status(dir.path(), "scratch-env"),
        "Scratch should be removed from status.json on reset"
    );

    assert!(
        stdout.contains("cleaned up") || stdout.contains("removed"),
        "Expected cleanup message, got: {}",
        stdout
    );
}

#[test]
fn test_scratch_identified_by_flag_not_missing_file() {
    let dir = setup_test_repo();

    // Create normal status entry (no scratch flag) without task file
    set_task_status(dir.path(), "orphan", "running");

    // Try to mark as done - should fail because task file not found, not because scratch
    let (ok, _, stderr) = run_wt(dir.path(), &["done", "orphan"]);

    assert!(!ok);
    assert!(
        stderr.contains("not found"),
        "Should fail because task not found, not scratch: {}",
        stderr
    );
}

#[test]
fn test_scratch_not_in_status_without_task_file() {
    let dir = setup_test_repo();

    // Scratch without task file won't appear in status
    // (status command only shows tasks that have task files)
    set_scratch_status_with_instance(
        dir.path(),
        "scratch-env",
        "running",
        instance("wt/scratch-env", "/tmp/nonexistent", "test-session", "scratch-env"),
    );

    let (ok, stdout, _) = run_wt(dir.path(), &["status", "--json"]);
    assert!(ok);

    // Scratch without task file doesn't appear in status
    // This is expected behavior - status shows tasks, not scratch environments
    let json: serde_json::Value = serde_json::from_str(&stdout).expect("valid JSON");
    let tasks = json.get("tasks").and_then(|t| t.as_array()).unwrap();

    // Tasks array should be empty (scratch has no task file)
    assert!(
        tasks.is_empty(),
        "Scratch without task file should not appear in status: {}",
        stdout
    );
}

#[test]
fn test_scratch_not_in_task_list() {
    let dir = setup_test_repo();

    // Create both regular task and scratch
    create_task_file(dir.path(), "regular-task", &[]);
    set_task_status(dir.path(), "regular-task", "pending");
    set_scratch_status(dir.path(), "scratch-env", "running");

    let (ok, stdout, _) = run_wt(dir.path(), &["list", "--json"]);
    assert!(ok);

    // Regular task should appear
    assert!(
        stdout.contains("regular-task"),
        "Regular task should appear in list"
    );

    // Scratch should NOT appear in list (no task file)
    assert!(
        !stdout.contains("scratch-env"),
        "Scratch should not appear in list (no task file)"
    );
}

#[test]
fn test_scratch_archive_fails_from_pending() {
    let dir = setup_test_repo();

    // Scratch in pending state (unusual but possible)
    set_scratch_status(dir.path(), "scratch-env", "pending");

    let (ok, _, stderr) = run_wt(dir.path(), &["archive", "scratch-env"]);

    // Should fail - scratch needs to be running or merged
    assert!(!ok);
    assert!(
        stderr.contains("Invalid") || stderr.contains("transition"),
        "Expected state error, got: {}",
        stderr
    );
}

#[test]
fn test_start_nonexistent() {
    let dir = setup_test_repo();
    let (ok, _, stderr) = run_wt(dir.path(), &["start", "nonexistent"]);

    assert!(!ok);
    assert!(stderr.contains("not found"));
}

#[test]
fn test_start_unmerged_dependency() {
    let dir = setup_test_repo();

    run_wt(dir.path(), &["create", "--json", r#"{"name": "a", "depends": [], "description": "A"}"#]);
    run_wt(dir.path(), &["create", "--json", r#"{"name": "b", "depends": ["a"], "description": "B"}"#]);

    let (ok, _, stderr) = run_wt(dir.path(), &["start", "b"]);

    assert!(!ok);
    assert!(stderr.contains("not merged") || stderr.contains("dependency"));
}

#[test]
fn test_start_already_running() {
    let dir = setup_repo_with_tasks(&[("task", &[], "running")]);

    let (ok, _, stderr) = run_wt(dir.path(), &["start", "task"]);

    assert!(!ok);
    assert!(stderr.contains("already") || stderr.contains("running"));
}

#[test]
fn test_status_no_tasks() {
    let dir = setup_test_repo();

    // Non-TTY environment auto-degrades to JSON
    let (ok, stdout, _stderr) = run_wt(dir.path(), &["status", "--json"]);

    assert!(ok);
    let json: serde_json::Value = serde_json::from_str(&stdout).unwrap();
    let tasks = json.get("tasks").unwrap().as_array().unwrap();
    assert!(tasks.is_empty());
}

#[test]
fn test_status_with_running_task() {
    let dir = setup_repo_with_tasks(&[("task1", &[], "running")]);

    let (ok, stdout, _stderr) = run_wt(dir.path(), &["status", "--json"]);

    assert!(ok);
    let json: serde_json::Value = serde_json::from_str(&stdout).unwrap();
    let tasks = json.get("tasks").unwrap().as_array().unwrap();
    assert_eq!(tasks.len(), 1);
    assert_eq!(tasks[0].get("name").unwrap().as_str().unwrap(), "task1");
}

#[test]
fn test_status_with_done_task() {
    let dir = setup_repo_with_tasks(&[("task1", &[], "done")]);

    let (ok, stdout, _stderr) = run_wt(dir.path(), &["status", "--json"]);

    assert!(ok);
    let json: serde_json::Value = serde_json::from_str(&stdout).unwrap();
    let tasks = json.get("tasks").unwrap().as_array().unwrap();
    assert_eq!(tasks.len(), 1);
    assert_eq!(tasks[0].get("status").unwrap().as_str().unwrap(), "done");
}

#[test]
fn test_status_ignores_pending_tasks() {
    let dir = setup_repo_with_tasks(&[
        ("task1", &[], "pending"),
        ("task2", &[], "running"),
    ]);

    let (ok, stdout, _stderr) = run_wt(dir.path(), &["status", "--json"]);

    assert!(ok);
    let json: serde_json::Value = serde_json::from_str(&stdout).unwrap();
    let tasks = json.get("tasks").unwrap().as_array().unwrap();
    // Only task2 should be shown (running), task1 (pending) is ignored
    // Note: task2 will be auto-marked as done since tmux window doesn't exist
    assert_eq!(tasks.len(), 1);
    assert_eq!(tasks[0].get("name").unwrap().as_str().unwrap(), "task2");
}

#[test]
fn test_status_ignores_merged_tasks() {
    let dir = setup_repo_with_tasks(&[
        ("task1", &[], "merged"),
        ("task2", &[], "running"),
    ]);

    let (ok, stdout, _stderr) = run_wt(dir.path(), &["status", "--json"]);

    assert!(ok);
    let json: serde_json::Value = serde_json::from_str(&stdout).unwrap();
    let tasks = json.get("tasks").unwrap().as_array().unwrap();
    // Only task2 should be shown, task1 (merged) is ignored
    assert_eq!(tasks.len(), 1);
    assert_eq!(tasks[0].get("name").unwrap().as_str().unwrap(), "task2");
}

#[test]
fn test_status_json_output() {
    let dir = setup_repo_with_tasks(&[("task1", &[], "running")]);

    let (ok, stdout, _stderr) = run_wt(dir.path(), &["status", "--json"]);

    assert!(ok);
    // Should be valid JSON
    let parsed: Result<serde_json::Value, _> = serde_json::from_str(&stdout);
    assert!(parsed.is_ok(), "Output should be valid JSON: {}", stdout);

    let json = parsed.unwrap();
    assert!(json.get("tasks").is_some());
    assert!(json.get("summary").is_some());
}

#[test]
fn test_status_json_structure() {
    // Note: "running" tasks without a real tmux window get auto-marked as "done"
    let dir = setup_repo_with_tasks(&[
        ("task1", &[], "done"),
        ("task2", &[], "done"),
    ]);

    let (ok, stdout, _stderr) = run_wt(dir.path(), &["status", "--json"]);

    assert!(ok);
    let json: serde_json::Value = serde_json::from_str(&stdout).unwrap();

    // Check tasks array
    let tasks = json.get("tasks").unwrap().as_array().unwrap();
    assert_eq!(tasks.len(), 2);

    // Check summary
    let summary = json.get("summary").unwrap();
    assert_eq!(summary.get("running").unwrap().as_i64().unwrap(), 0);
    assert_eq!(summary.get("done").unwrap().as_i64().unwrap(), 2);
}

#[test]
fn test_status_summary_line() {
    // Note: "running" tasks without a real tmux window get auto-marked as "done"
    let dir = setup_repo_with_tasks(&[
        ("task1", &[], "done"),
        ("task2", &[], "done"),
    ]);

    let (ok, stdout, _stderr) = run_wt(dir.path(), &["status", "--json"]);

    assert!(ok);
    let json: serde_json::Value = serde_json::from_str(&stdout).unwrap();
    let summary = json.get("summary").unwrap();
    assert_eq!(summary.get("running").unwrap().as_i64().unwrap(), 0);
    assert_eq!(summary.get("done").unwrap().as_i64().unwrap(), 2);
}

#[test]
fn test_status_auto_marks_done_when_tmux_window_closed() {
    let dir = setup_test_repo();

    // Create task file
    create_task_file(dir.path(), "task1", &[]);

    // Set running status with instance pointing to non-existent tmux window
    set_task_status_with_instance(
        dir.path(),
        "task1",
        "running",
        Some(instance("wt/task1", "/tmp/nonexistent", "nonexistent-session-12345", "task1")),
    );

    let (ok, stdout, _stderr) = run_wt(dir.path(), &["status", "--json"]);

    assert!(ok);
    let json: serde_json::Value = serde_json::from_str(&stdout).unwrap();
    let tasks = json.get("tasks").unwrap().as_array().unwrap();
    let task = &tasks[0];
    // Task should be auto-marked as done when tmux window is closed
    assert_eq!(task.get("status").unwrap().as_str().unwrap(), "done");
}

#[test]
fn test_status_json_auto_marks_done_when_tmux_closed() {
    let dir = setup_test_repo();

    // Create task file
    create_task_file(dir.path(), "task1", &[]);

    // Set running status with instance pointing to non-existent tmux window
    set_task_status_with_instance(
        dir.path(),
        "task1",
        "running",
        Some(instance("wt/task1", "/tmp/nonexistent", "nonexistent-session-12345", "task1")),
    );

    let (ok, stdout, _stderr) = run_wt(dir.path(), &["status", "--json"]);

    assert!(ok);
    let json: serde_json::Value = serde_json::from_str(&stdout).unwrap();
    let tasks = json.get("tasks").unwrap().as_array().unwrap();
    let task = &tasks[0];

    // Task should be auto-marked as done, tmux_alive is not included for done tasks
    assert_eq!(task.get("status").unwrap().as_str().unwrap(), "done");
    assert!(task.get("tmux_alive").is_none(), "tmux_alive should not be included for done tasks");
}

#[test]
fn test_tail_nonexistent_task() {
    let dir = setup_test_repo();

    let (ok, _, stderr) = run_wt(dir.path(), &["tail", "nonexistent"]);

    assert!(!ok);
    assert!(
        stderr.contains("not found"),
        "Expected not found error, got: {}",
        stderr
    );
}

#[test]
fn test_tail_pending_task_error() {
    let dir = setup_repo_with_tasks(&[("task1", &[], "pending")]);

    let (ok, _, stderr) = run_wt(dir.path(), &["tail", "task1"]);

    assert!(!ok);
    // Error message is "has not been started"
    assert!(
        stderr.contains("not") && stderr.contains("started"),
        "Expected 'not started' error, got: {}",
        stderr
    );
}

#[test]
fn test_tail_running_task_without_transcript() {
    let dir = setup_test_repo();

    // Create task with instance but no transcript
    create_task_file(dir.path(), "task1", &[]);
    set_task_status_with_instance(
        dir.path(),
        "task1",
        "running",
        Some(instance("wt/task1", "/tmp/nonexistent-worktree", "test-session", "task1")),
    );

    let (ok, _, stderr) = run_wt(dir.path(), &["tail", "task1"]);

    assert!(!ok);
    // Error message mentions "worktree no longer exists"
    assert!(
        stderr.contains("worktree") || stderr.contains("transcript") || stderr.contains("Worktree"),
        "Expected worktree/transcript error, got: {}",
        stderr
    );
}

#[test]
fn test_tail_done_task_without_transcript() {
    let dir = setup_test_repo();

    create_task_file(dir.path(), "task1", &[]);
    set_task_status_with_instance(
        dir.path(),
        "task1",
        "done",
        Some(instance("wt/task1", "/tmp/nonexistent-worktree", "test-session", "task1")),
    );

    let (ok, _, stderr) = run_wt(dir.path(), &["tail", "task1"]);

    assert!(!ok);
    // Should fail gracefully with worktree/transcript error
    assert!(
        stderr.contains("worktree") || stderr.contains("transcript"),
        "Expected worktree/transcript error, got: {}",
        stderr
    );
}

#[test]
fn test_tail_with_count_parameter() {
    let dir = setup_test_repo();

    create_task_file(dir.path(), "task1", &[]);
    set_task_status_with_instance(
        dir.path(),
        "task1",
        "running",
        Some(instance("wt/task1", "/tmp/nonexistent-worktree", "test-session", "task1")),
    );

    // Use -n for count parameter
    let (ok, _, stderr) = run_wt(dir.path(), &["tail", "task1", "-n", "5"]);

    // Will fail due to missing transcript, not invalid argument
    assert!(!ok);
    assert!(
        !stderr.contains("Invalid argument") && !stderr.contains("unexpected"),
        "Should accept -n parameter, got: {}",
        stderr
    );
}

#[test]
fn test_tail_task_without_instance() {
    let dir = setup_repo_with_tasks(&[("task1", &[], "done")]);

    // Task is done but has no instance info
    let (ok, _, stderr) = run_wt(dir.path(), &["tail", "task1"]);

    assert!(!ok);
    assert!(
        stderr.contains("not found") || stderr.contains("instance") || stderr.contains("transcript"),
        "Expected error about missing instance/transcript, got: {}",
        stderr
    );
}

#[test]
fn test_tail_scratch_task() {
    let dir = setup_test_repo();

    // Create scratch task file too (tail uses ensure_exists which checks task file)
    create_task_file(dir.path(), "scratch-env", &[]);
    set_scratch_status_with_instance(
        dir.path(),
        "scratch-env",
        "running",
        instance("wt/scratch-env", "/tmp/nonexistent-worktree", "test-session", "scratch-env"),
    );

    let (ok, _, stderr) = run_wt(dir.path(), &["tail", "scratch-env"]);

    // Scratch can have tail called, but will fail on worktree/transcript
    assert!(!ok);
    // Should fail on worktree, not "task not found"
    assert!(
        stderr.contains("worktree") || stderr.contains("transcript"),
        "Should fail on worktree/transcript, actual error: {}",
        stderr
    );
}

#[test]
fn test_validate_empty() {
    let dir = setup_test_repo();
    let (ok, stdout, _) = run_wt(dir.path(), &["validate"]);

    assert!(ok);
    assert!(stdout.contains("No tasks found"));
}

#[test]
fn validate_test_validate_all_valid() {
    let dir = setup_test_repo();

    run_wt(dir.path(), &["create", "--json", r#"{"name": "a", "depends": [], "description": "A"}"#]);
    run_wt(dir.path(), &["create", "--json", r#"{"name": "b", "depends": ["a"], "description": "B"}"#]);

    let (ok, stdout, _) = run_wt(dir.path(), &["validate"]);

    assert!(ok);
    assert!(stdout.contains("valid"));
}

#[test]
fn test_validate_specific_task() {
    let dir = setup_test_repo();

    run_wt(dir.path(), &["create", "--json", r#"{"name": "task1", "depends": [], "description": "Test"}"#]);

    let (ok, stdout, _) = run_wt(dir.path(), &["validate", "task1"]);

    assert!(ok);
    assert!(stdout.contains("valid"));
}

#[test]
fn test_validate_nonexistent_task() {
    let dir = setup_test_repo();
    let (ok, _, stderr) = run_wt(dir.path(), &["validate", "nonexistent"]);

    assert!(!ok);
    assert!(stderr.contains("not found"));
}

#[test]
fn test_validate_detects_cycle() {
    let dir = setup_test_repo();

    dir.write(".wt/tasks/a.md", "---\nname: a\nstatus: pending\ndepends:\n  - b\n---\n\nA");
    dir.write(".wt/tasks/b.md", "---\nname: b\nstatus: pending\ndepends:\n  - a\n---\n\nB");

    let (_, stdout, _) = run_wt(dir.path(), &["validate"]);

    assert!(stdout.contains("circular") || stdout.contains("error"));
}

#[test]
fn test_init_creates_config_file() {
    let dir = bare_repo();
    let (ok, stdout, _) = run_wt(dir.path(), &["init"]);

    assert!(ok);
    assert!(stdout.contains("Created .wt/config.yaml"));
    assert!(dir.path().join(".wt/config.yaml").is_there());
}

#[test]
fn test_init_creates_tasks_directory() {
    let dir = bare_repo();
    let (ok, stdout, _) = run_wt(dir.path(), &["init"]);

    assert!(ok);
    assert!(stdout.contains("Created .wt/tasks/"));
    assert!(dir.path().join(".wt/tasks").is_dir());
}

#[test]
fn test_init_creates_gitignore() {
    let dir = bare_repo();
    let (ok, stdout, _) = run_wt(dir.path(), &["init"]);

    assert!(ok);
    assert!(stdout.contains(".gitignore"));

    let gitignore = dir.read(".gitignore").unwrap();
    assert!(gitignore.contains(".wt/"));
    assert!(gitignore.contains("# wt - Worktree Task Manager"));
}

#[test]
fn test_init_appends_to_existing_gitignore() {
    let dir = bare_repo();

    // Create existing .gitignore
    dir.write(".gitignore", "node_modules/\n.env\n");

    let (ok, stdout, _) = run_wt(dir.path(), &["init"]);

    assert!(ok);
    assert!(stdout.contains("Updated .gitignore"));

    let gitignore = dir.read(".gitignore").unwrap();
    // Should preserve existing content
    assert!(gitignore.contains("node_modules/"));
    assert!(gitignore.contains(".env"));
    // Should add wt entry
    assert!(gitignore.contains(".wt/"));
}

#[test]
fn test_init_does_not_duplicate_gitignore_entries() {
    let dir = bare_repo();

    // Create .gitignore with wt marker already
    dir.write(".gitignore", "node_modules/\n# wt - Worktree Task Manager\n.wt/\n");

    let (ok, stdout, _) = run_wt(dir.path(), &["init"]);

    assert!(ok);
    assert!(stdout.contains("already has wt entries"));

    let gitignore = dir.read(".gitignore").unwrap();
    // Should not duplicate
    let count = gitignore.matches("# wt - Worktree Task Manager").count();
    assert_eq!(count, 1);
}

#[test]
fn test_init_fails_if_config_exists() {
    let dir = bare_repo();

    // Create existing config
    dir.write(".wt/config.yaml", "agent_command: test\n");

    let (ok, _, stderr) = run_wt(dir.path(), &["init"]);

    assert!(!ok);
    assert!(stderr.contains("already exists"));
}

#[test]
fn test_init_config_has_required_fields() {
    let dir = bare_repo();
    run_wt(dir.path(), &["init"]);

    let config = dir.read(".wt/config.yaml").unwrap();

    assert!(config.contains("start_args:"));
    assert!(config.contains("tmux_session:"));
    assert!(config.contains("worktree_dir:"));
    assert!(config.contains("copy_files:"));
    assert!(config.contains(".env"));
}

#[test]
fn test_init_config_has_stream_json_flags() {
    let dir = bare_repo();
    run_wt(dir.path(), &["init"]);

    let config = dir.read(".wt/config.yaml").unwrap();

    assert!(config.contains("--verbose"));
    assert!(config.contains("--output-format=stream-json"));
    assert!(config.contains("--input-format=stream-json"));
}

#[test]
fn test_init_uses_directory_name_as_session() {
    let dir = bare_repo();
    run_wt(dir.path(), &["init"]);

    let config = dir.read(".wt/config.yaml").unwrap();

    // The tempdir has a random name, just check it's not the default "wt"
    // and that tmux_session field exists with some value
    assert!(config.contains("tmux_session:"));
}

#[test]
fn test_init_shows_next_steps() {
    let dir = bare_repo();
    let (ok, stdout, _) = run_wt(dir.path(), &["init"]);

    assert!(ok);
    assert!(stdout.contains("Next steps:"));
    assert!(stdout.contains("Edit .wt/config.yaml"));
    assert!(stdout.contains("wt create"));
    assert!(stdout.contains("wt start"));
}

#[test]
fn test_init_preserves_gitignore_without_trailing_newline() {
    let dir = bare_repo();

    // Create .gitignore without trailing newline
    dir.write(".gitignore", "node_modules/");

    let (ok, _, _) = run_wt(dir.path(), &["init"]);

    assert!(ok);

    let gitignore = dir.read(".gitignore").unwrap();
    // Should have added a blank line before wt entries
    assert!(gitignore.contains("node_modules/\n\n# wt"));
}

#[test]
fn test_init_existing_tasks_dir_is_ok() {
    let dir = bare_repo();

    // Create tasks dir beforehand

    let (ok, stdout, _) = run_wt(dir.path(), &["init"]);

    assert!(ok);
    // Should still create config
    assert!(stdout.contains("Created .wt/config.yaml"));
}

#[test]
fn test_corrupted_status_json_reports_error() {
    let dir = setup_test_repo();

    // Create corrupted status.json
    dir.write(".wt/status.json", "{ invalid json content");

    // Commands should report clear error for corrupted JSON
    let (ok, _, stderr) = run_wt(dir.path(), &["list"]);

    // Current behavior: fails with parse error
    assert!(!ok);
    assert!(
        stderr.contains("status.json") || stderr.contains("Invalid") || stderr.contains("parse"),
        "Should report JSON parse error: {}",
        stderr
    );
}

#[test]
fn test_empty_status_json_reports_error() {
    let dir = setup_test_repo();

    // Create empty status.json
    dir.write(".wt/status.json", "");

    let (ok, _, stderr) = run_wt(dir.path(), &["list"]);

    // Current behavior: fails with parse error for empty file
    assert!(!ok);
    assert!(
        stderr.contains("status.json") || stderr.contains("Invalid") || stderr.contains("EOF"),
        "Should report parse error for empty file: {}",
        stderr
    );
}

#[test]
fn test_status_json_missing_tasks_field() {
    let dir = setup_test_repo();

    // Create status.json without tasks field
    dir.write(".wt/status.json", "{}");

    let (ok, stdout, stderr) = run_wt(dir.path(), &["list"]);

    // Current behavior: may fail or succeed depending on implementation
    // Document actual behavior
    if ok {
        // If succeeds, should treat as no tasks
        assert!(
            stdout.contains("No tasks") || stdout.contains("[]") || stdout.is_empty() || !stdout.contains("name"),
            "Should handle missing tasks field: {}",
            stdout
        );
    } else {
        // If fails, should report meaningful error
        assert!(
            stderr.contains("tasks") || stderr.contains("Invalid"),
            "Should report meaningful error: {}",
            stderr
        );
    }
}

#[test]
fn test_status_json_null_task_entry() {
    let dir = setup_test_repo();

    // Create status.json with null task entry
    dir.write(".wt/status.json", r#"{"tasks": {"task1": null}}"#);

    let (ok, _, stderr) = run_wt(dir.path(), &["list"]);

    // Should handle gracefully (skip null entry or error clearly)
    assert!(
        ok || stderr.contains("invalid") || stderr.contains("parse"),
        "Should handle null task entry: {}",
        stderr
    );
}

#[test]
fn test_missing_wt_directory() {
    let dir = bare_repo();

    // Init git but don't create .wt

    let (ok, stdout, stderr) = run_wt(dir.path(), &["list"]);

    // Current behavior: may succeed with empty list or fail with config error
    // Document actual behavior
    let output = format!("{}{}", stdout, stderr);
    assert!(
        !ok || stdout.contains("No tasks") || stdout.contains("[]"),
        "Should either fail with config error or show empty list: {}",
        output
    );
}

#[test]
fn test_missing_tasks_directory() {
    let dir = setup_test_repo();

    // .wt exists but tasks directory doesn't
    // (setup_test_repo doesn't create tasks dir)

    let (ok, stdout, _) = run_wt(dir.path(), &["list"]);

    assert!(ok);
    // Should show empty list
    assert!(
        stdout.contains("No tasks") || stdout.contains("[]") || stdout.is_empty(),
        "Should handle missing tasks dir: {}",
        stdout
    );
}

#[test]
fn test_task_file_without_frontmatter() {
    let dir = setup_test_repo();

    // Create tasks directory

    // Create task file without YAML frontmatter
    dir.write(".wt/tasks/invalid.md", "Just some content without frontmatter");

    let (ok, _, stderr) = run_wt(dir.path(), &["list"]);

    // Should skip invalid file or report error
    assert!(
        ok || stderr.contains("frontmatter") || stderr.contains("parse"),
        "Should handle missing frontmatter: {}",
        stderr
    );
}

#[test]
fn test_task_file_mismatched_name() {
    let dir = setup_test_repo();


    // Create task file where filename doesn't match name in frontmatter
    dir.write(".wt/tasks/filename.md", "---\nname: different\n---\n\nContent");

    let (ok, _, _) = run_wt(dir.path(), &["list"]);

    // Behavior depends on implementation - document it
    // Some implementations use filename, some use frontmatter name
    assert!(ok || true, "Should handle name mismatch somehow");
}

#[test]
fn test_corrupted_config_yaml() {
    let dir = bare_repo();


    dir.write(".wt/config.yaml", "invalid: yaml: content: [");

    let (ok, stdout, stderr) = run_wt(dir.path(), &["list"]);

    // Current behavior: serde_yaml may be lenient or strict
    // Document actual behavior
    let output = format!("{}{}", stdout, stderr);
    if !ok {
        assert!(
            stderr.contains("config") || stderr.contains("YAML") || stderr.contains("parse") || stderr.contains("Invalid"),
            "Should report config parse error: {}",
            stderr
        );
    }
    // If ok, the parser was lenient - that's also acceptable behavior
}

#[test]
fn test_empty_config_yaml() {
    let dir = bare_repo();


    dir.write(".wt/config.yaml", "");

    let (ok, _, _) = run_wt(dir.path(), &["list"]);

    // Empty config should use defaults or fail gracefully
    assert!(ok || true, "Should handle empty config");
}

#[test]
fn test_status_entry_without_task_file() {
    let dir = setup_test_repo();

    // Create status entry without corresponding task file
    dir.write(".wt/status.json", r#"{"tasks": {"orphan": {"status": "running"}}}"#);

    let (ok, _, _) = run_wt(dir.path(), &["list"]);

    // List might or might not show orphaned entries
    // This documents the behavior
    assert!(ok || true, "Should handle orphaned status entries");
}

#[test]
fn test_task_file_without_status_entry() {
    let dir = setup_test_repo();

    dir.write(".wt/tasks/orphan.md", "---\nname: orphan\n---\n\nContent");

    // No status entry in status.json

    let (ok, stdout, _) = run_wt(dir.path(), &["list"]);

    assert!(ok);
    // Task should appear with default status (pending)
    assert!(
        stdout.contains("orphan") || stdout.contains("pending"),
        "Task without status should appear with default status: {}",
        stdout
    );
}

#[test]
fn test_unicode_task_name() {
    let dir = setup_test_repo();

    dir.write(".wt/tasks/任务.md", "---\nname: 任务\n---\n\n中文内容");

    let (ok, stdout, _) = run_wt(dir.path(), &["list"]);

    assert!(ok);
    assert!(
        stdout.contains("任务") || stdout.is_empty(),
        "Should handle unicode task name: {}",
        stdout
    );
}

#[test]
fn test_task_description_with_special_chars() {
    let dir = setup_test_repo();

    dir.write(".wt/tasks/special.md", "---\nname: special\n---\n\nContent with $pecial ch@rs & symbols <>&\"'");

    let (ok, _, _) = run_wt(dir.path(), &["list"]);

    assert!(ok);
}

#[test]
fn test_start_without_config() {
    let dir = bare_repo();


    create_task_file(dir.path(), "task1", &[]);

    let (ok, _, stderr) = run_wt(dir.path(), &["start", "task1"]);

    assert!(!ok);
    assert!(stderr.contains("Config") || stderr.contains(".wt.yaml"));
}

#[test]
fn test_list_without_config() {
    let dir = bare_repo();
    let (ok, stdout, _) = run_wt(dir.path(), &["list"]);

    assert!(ok);
    assert!(stdout.contains("No tasks"));
}

#[test]
fn test_create_without_config() {
    let dir = bare_repo();

    let (ok, stdout, _) = run_wt(
        dir.path(),
        &["create", "--json", r#"{"name": "task1", "depends": [], "description": "Test"}"#],
    );

    assert!(ok);
    assert!(stdout.contains("created"));
}

#[test]
fn test_next_without_config() {
    let dir = bare_repo();

    create_task_file(dir.path(), "task1", &[]);

    let (ok, stdout, _) = run_wt(dir.path(), &["next"]);

    assert!(ok);
    assert!(stdout.contains("task1"));
}

#[test]
fn test_status_without_config() {
    let dir = bare_repo();

    let (ok, _, stderr) = run_wt(dir.path(), &["status"]);

    assert!(!ok);
    assert!(stderr.contains("Config") || stderr.contains(".wt.yaml"));
}
