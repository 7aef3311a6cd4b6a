use wt::error::WtError;
use wt::models::markdown::read_header;
use wt::models::{StatusStore, TaskStatus, TaskStore, WtConfig};
use wt::services::command::{CommandRunner, Outcome};
use wt::services::git::{branches_found, conflicts_found};
use wt::services::tmux::kill_window_result;
use wt::services::transcript::parse_log_file;

fn ended(success: bool, stdout: &str, stderr: &str) -> Outcome {
    Outcome { success, stdout: stdout.to_string(), stderr: stderr.to_string() }
}

#[test]
fn task_name_with_any_white_space_is_refused() {
    for name in ["a\nb", "a\rb", "a\u{a0}b", "a\u{2003}b", "a\u{3000}b", "a\u{b}b", "a\u{85}b", "a b", "a\tb", "\n"] {
        match TaskStore::validate_task_name(name) {
            Err(WtError::InvalidTaskFile(m)) => {
                assert_eq!(m, "name cannot contain whitespace (invalid for git branch)", "{:?}", name)
            }
            other => panic!("{:?} gave {:?}", name, other),
        }
    }
    assert!(TaskStore::validate_task_name("a\u{200b}b").is_ok());
    assert!(TaskStore::validate_task_name("a-b_c.d").is_ok());
}

#[test]
fn test_parse_empty_file() {
    let records = wt::services::records::read_entries("");
    assert!(records.is_empty());
    let metrics = parse_log_file(&records);
    assert!(metrics.is_none());
    assert!(wt::services::records::read_transcript("").is_none());
}

#[test]
fn failed_run_is_a_failure_of_its_program() {
    let tmux = CommandRunner::tmux().arg("kill-window");
    let git = CommandRunner::git().arg("status");
    let other = CommandRunner::new("ls");
    let bad = ended(false, "printed", "went wrong");
    let good = ended(true, "printed", "noise");
    assert!(matches!(tmux.check_status(&bad), Err(WtError::Tmux(m)) if m == "went wrong"));
    assert!(matches!(git.check_status(&bad), Err(WtError::Git(m)) if m == "went wrong"));
    assert!(matches!(other.check_status(&bad), Err(WtError::Git(m)) if m == "went wrong"));
    assert!(tmux.check_status(&good).is_ok());
    assert!(git.check_status(&good).is_ok());
    assert_eq!(git.printed(&good).unwrap(), "printed");
    assert!(matches!(git.printed(&bad), Err(WtError::Git(m)) if m == "went wrong"));
    assert!(matches!(tmux.printed(&bad), Err(WtError::Tmux(m)) if m == "went wrong"));
    assert!(matches!(tmux.failure("x"), WtError::Tmux(m) if m == "x"));
}

#[test]
fn closing_a_window_tells_whether_one_was_closed() {
    assert_eq!(kill_window_result(None).unwrap(), false);
    assert_eq!(kill_window_result(Some(&ended(true, "", ""))).unwrap(), true);
    match kill_window_result(Some(&ended(false, "", "no such window"))) {
        Err(WtError::Tmux(m)) => assert_eq!(m, "no such window"),
        other => panic!("unexpected {:?}", other),
    }
}

#[test]
fn failed_listing_names_no_branch() {
    let out = "* wt/auth-3e20\n  wt/auth-a1b2\n";
    assert_eq!(branches_found(&ended(true, out, "")), vec!["wt/auth-3e20", "wt/auth-a1b2"]);
    assert!(branches_found(&ended(false, out, "fatal")).is_empty());
    assert!(branches_found(&ended(true, "", "")).is_empty());
}

#[test]
fn failed_status_tells_of_no_conflict() {
    assert!(conflicts_found(&ended(true, "UU a.rs\n", "")));
    assert!(!conflicts_found(&ended(true, " M a.rs\n?? b\n", "")));
    assert!(!conflicts_found(&ended(false, "UU a.rs\n", "fatal")));
}

#[test]
fn scratch_mark_of_another_kind_is_refused() {
    let text = "{\"tasks\":{\"a\":{\"status\":\"running\",\"scratch\":\"yes\"}}}";
    match StatusStore::from_json(text) {
        Err(WtError::InvalidTaskFile(m)) => {
            assert_eq!(m, "Invalid status.json: task 'a': invalid type: `scratch` must be true or false")
        }
        other => panic!("unexpected {:?}", other),
    }
    let text = "{\"tasks\":{\"a\":{\"status\":\"running\",\"scratch\":null}}}";
    assert!(StatusStore::from_json(text).is_err());
    let text = "{\"tasks\":{\"a\":{\"status\":\"running\",\"scratch\":true}}}";
    let store = StatusStore::from_json(text).unwrap();
    assert!(store.is_scratch("a"));
    assert_eq!(store.get_status("a"), TaskStatus::Running);
}

#[test]
fn session_id_of_another_kind_is_refused() {
    let entry = |session: &str| {
        format!(
            "{{\"tasks\":{{\"a\":{{\"status\":\"running\",\"instance\":{{\"branch\":\"b\",\"worktree_path\":\"w\",\"tmux_session\":\"s\",\"tmux_window\":\"a\"{}}}}}}}}}",
            session
        )
    };
    match StatusStore::from_json(&entry(",\"session_id\":5")) {
        Err(WtError::InvalidTaskFile(m)) => {
            assert_eq!(m, "Invalid status.json: task 'a': invalid type: `session_id` must be a string")
        }
        other => panic!("unexpected {:?}", other),
    }
    assert!(StatusStore::from_json(&entry(",\"session_id\":[\"x\"]")).is_err());
    let store = StatusStore::from_json(&entry(",\"session_id\":null")).unwrap();
    assert_eq!(store.get_instance("a").unwrap().session_id, None);
    let store = StatusStore::from_json(&entry("")).unwrap();
    assert_eq!(store.get_instance("a").unwrap().session_id, None);
    let store = StatusStore::from_json(&entry(",\"session_id\":\"abc\"")).unwrap();
    assert_eq!(store.get_instance("a").unwrap().session_id.as_deref(), Some("abc"));
}

#[test]
fn header_scalars_are_read_as_text() {
    let header = read_header("name: 123\ndepends: [1, two, true]\n").unwrap();
    assert_eq!(header.name, "123");
    assert_eq!(header.depends, vec!["1", "two", "true"]);
    let header = read_header("name: \"quoted\"\ndepends:\n  - a\n  - 2.5\n").unwrap();
    assert_eq!(header.name, "quoted");
    assert_eq!(header.depends, vec!["a", "2.5"]);
    assert!(read_header("name: [a]\n").is_err());
    assert!(read_header("name: a\ndepends: [[b]]\n").is_err());
    assert!(read_header("name: a\ndepends: b\n").is_err());
    assert!(read_header("name: a\ndepends: {b: c}\n").is_err());
    assert!(read_header("name: a\ndepends: []\n").unwrap().depends.is_empty());
}

#[test]
fn settings_that_are_scalars_are_read_as_text() {
    let config = WtConfig::from_str("tmux_session: 123\nworktree_dir: true\ncopy_files: [1, .env]\n").unwrap();
    assert_eq!(config.tmux_session, "123");
    assert_eq!(config.worktree_dir, "true");
    assert_eq!(config.copy_files, vec!["1", ".env"]);
    assert!(WtConfig::from_str("tmux_session: [a]\n").is_err());
    assert!(WtConfig::from_str("copy_files: {a: b}\n").is_err());
}

fn held(name: &str, session: Option<&str>) -> wt::models::Instance {
    wt::models::Instance {
        branch: format!("wt/{}-abcd", name),
        worktree_path: format!("/repo/.wt/worktrees/{}", name),
        tmux_session: "wt".to_string(),
        tmux_window: name.to_string(),
        session_id: session.map(|s| s.to_string()),
    }
}

#[test]
fn saved_status_is_loaded_as_the_same_store() {
    let mut store = StatusStore::default();
    store.set_status("plain", TaskStatus::Pending);
    store.set_status("a/b~c \"q\"\n", TaskStatus::Running);
    store.set_instance("a/b~c \"q\"\n", Some(held("odd", Some("0123"))));
    store.set_status("scratch", TaskStatus::Merged);
    store.set_scratch("scratch", true);
    store.set_instance("scratch", Some(held("scratch", None)));
    store.set_status("", TaskStatus::Archived);
    store.set_status("fin", TaskStatus::Done);
    let text = store.save().unwrap();
    assert_eq!(text, store.to_json());
    let back = StatusStore::load(Some(&text)).unwrap();
    assert!(store.same_as(&back));
    assert!(back.same_as(&store));
    assert_eq!(back.tasks.len(), 5);
    assert_eq!(back.get_status("a/b~c \"q\"\n"), TaskStatus::Running);
    assert_eq!(back.get_instance("a/b~c \"q\"\n").unwrap().session_id.as_deref(), Some("0123"));
    assert!(back.is_scratch("scratch"));
    assert_eq!(back.get_instance("scratch").unwrap().session_id, None);
    let again = store.reload().unwrap();
    assert!(again.same_as(&store));
    let empty = StatusStore::default();
    assert!(empty.reload().unwrap().same_as(&empty));
    assert!(StatusStore::load(None).unwrap().same_as(&empty));
}

#[test]
fn stores_are_compared_by_what_they_hold() {
    let mut a = StatusStore::default();
    a.set_status("x", TaskStatus::Running);
    a.set_status("y", TaskStatus::Done);
    let mut b = StatusStore::default();
    b.set_status("y", TaskStatus::Done);
    assert!(!a.same_as(&b));
    assert!(!b.same_as(&a));
    b.set_status("x", TaskStatus::Running);
    assert!(a.same_as(&b));
    b.set_instance("x", Some(held("x", None)));
    assert!(!a.same_as(&b));
    a.set_instance("x", Some(held("x", Some("s"))));
    assert!(!a.same_as(&b));
    b.set_instance("x", Some(held("x", Some("s"))));
    assert!(a.same_as(&b));
    b.set_scratch("y", true);
    assert!(!a.same_as(&b));
    b.set_scratch("y", false);
    b.set_status("y", TaskStatus::Merged);
    assert!(!a.same_as(&b));
}

#[test]
fn keys_of_the_dashboard() {
    use_keys();
}

fn use_keys() {
    let command = wt::tui::ui::key_command;
    assert_eq!(command(wt::tui::ui::Key::Char('q')), wt::tui::ui::KeyCommand::Quit);
    assert_eq!(command(wt::tui::ui::Key::Esc), wt::tui::ui::KeyCommand::Quit);
    assert_eq!(command(wt::tui::ui::Key::Up), wt::tui::ui::KeyCommand::Previous);
    assert_eq!(command(wt::tui::ui::Key::Char('k')), wt::tui::ui::KeyCommand::Previous);
    assert_eq!(command(wt::tui::ui::Key::Down), wt::tui::ui::KeyCommand::Next);
    assert_eq!(command(wt::tui::ui::Key::Char('j')), wt::tui::ui::KeyCommand::Next);
    assert_eq!(command(wt::tui::ui::Key::Enter), wt::tui::ui::KeyCommand::Enter);
    assert_eq!(command(wt::tui::ui::Key::Char('t')), wt::tui::ui::KeyCommand::Tail);
    assert_eq!(command(wt::tui::ui::Key::Char('d')), wt::tui::ui::KeyCommand::Done);
    assert_eq!(command(wt::tui::ui::Key::Char('m')), wt::tui::ui::KeyCommand::Merged);
    assert_eq!(command(wt::tui::ui::Key::Char('a')), wt::tui::ui::KeyCommand::Archive);
    assert_eq!(command(wt::tui::ui::Key::Char('Q')), wt::tui::ui::KeyCommand::Nothing);
    assert_eq!(command(wt::tui::ui::Key::Char('x')), wt::tui::ui::KeyCommand::Nothing);
    assert_eq!(command(wt::tui::ui::Key::Other), wt::tui::ui::KeyCommand::Nothing);
}

#[test]
fn records_of_excluded_types_are_left_out() {
    let types = vec!["system".to_string(), "progress".to_string()];
    let excluded = wt::services::records::is_excluded;
    assert!(excluded("{\"type\":\"system\",\"x\":1}", &types));
    assert!(excluded("{\"type\":\"progress\"}", &types));
    assert!(!excluded("{\"type\":\"assistant\"}", &types));
    assert!(!excluded("{\"kind\":\"system\"}", &types));
    assert!(!excluded("{\"type\":7}", &types));
    assert!(!excluded("not json", &types));
    assert!(!excluded("{\"type\":\"system\"}", &Vec::new()));
}

#[test]
fn changes_are_measured_against_the_default_branch() {
    assert_eq!(wt::services::git::base_branch(true, false), "main");
    assert_eq!(wt::services::git::base_branch(true, true), "main");
    assert_eq!(wt::services::git::base_branch(false, true), "master");
    assert_eq!(wt::services::git::base_branch(false, false), "main");
}

fn object(members: Vec<(&str, wt::services::filter::Json)>) -> wt::services::filter::Json {
    wt::services::filter::Json::Object(
        members
            .into_iter()
            .map(|(key, value)| wt::services::filter::Member { key: key.to_string(), value })
            .collect(),
    )
}

fn shape(value: &wt::services::filter::Json) -> String {
    match value {
        wt::services::filter::Json::Null => "null".to_string(),
        wt::services::filter::Json::Bool(b) => b.to_string(),
        wt::services::filter::Json::Number(n) => n.clone(),
        wt::services::filter::Json::Text(t) => format!("{:?}", t),
        wt::services::filter::Json::Array(items) => {
            format!("[{}]", items.iter().map(shape).collect::<Vec<_>>().join(","))
        }
        wt::services::filter::Json::Object(members) => format!(
            "{{{}}}",
            members.iter().map(|m| format!("{:?}:{}", m.key, shape(&m.value))).collect::<Vec<_>>().join(",")
        ),
    }
}

#[test]
fn fields_are_taken_out_at_every_depth() {
    let number = |n: &str| wt::services::filter::Json::Number(n.to_string());
    let text = |t: &str| wt::services::filter::Json::Text(t.to_string());
    let value = object(vec![
        ("type", text("assistant")),
        ("uuid", text("u-1")),
        (
            "message",
            object(vec![
                ("usage", object(vec![("input_tokens", number("5"))])),
                (
                    "content",
                    wt::services::filter::Json::Array(vec![
                        object(vec![("type", text("text")), ("signature", text("s")), ("text", text("hi"))]),
                        number("1.50"),
                        wt::services::filter::Json::Array(vec![object(vec![("uuid", wt::services::filter::Json::Null)])]),
                    ]),
                ),
                ("cwd", text("/repo")),
            ]),
        ),
        ("done", wt::services::filter::Json::Bool(true)),
    ]);
    let fields = vec!["uuid".to_string(), "signature".to_string(), "usage".to_string(), "cwd".to_string()];
    let kept = wt::services::filter::remove_fields(&value, &fields);
    assert_eq!(
        shape(&kept),
        "{\"type\":\"assistant\",\"message\":{\"content\":[{\"type\":\"text\",\"text\":\"hi\"},1.50,[{}]]},\"done\":true}"
    );
    assert_eq!(shape(&wt::services::filter::remove_fields(&value, &Vec::new())), shape(&value));
    assert_eq!(shape(&wt::services::filter::remove_fields(&text("uuid"), &fields)), "\"uuid\"");
    let all = vec!["type".to_string(), "uuid".to_string(), "message".to_string(), "done".to_string()];
    assert_eq!(shape(&wt::services::filter::remove_fields(&value, &all)), "{}");
}

#[test]
fn settings_in_a_section_are_read() {
    let config = WtConfig::from_str(
        "logs:\n  exclude_types:\n    - system\n    - \"123\"\n    - 7\n  exclude_fields: [uuid, cwd]\ntmux_session: dev\n",
    )
    .unwrap();
    assert_eq!(config.logs.exclude_types, vec!["system", "123", "7"]);
    assert_eq!(config.logs.exclude_fields, vec!["uuid", "cwd"]);
    assert_eq!(config.tmux_session, "dev");
    let config = WtConfig::from_str("logs:\n  exclude_types: [a]\n").unwrap();
    assert_eq!(config.logs.exclude_types, vec!["a"]);
    assert!(config.logs.exclude_fields.is_empty());
    assert!(WtConfig::from_str("logs: 5\n").unwrap().logs.exclude_types.is_empty());
    assert!(WtConfig::from_str("logs:\n  exclude_types: no\n").is_err());
    assert!(WtConfig::from_str("logs:\n  exclude_fields:\n    - [a]\n").is_err());
    assert!(WtConfig::from_str("- a\n- b\n").is_err());
}

#[test]
fn save_owes_the_text_that_reads_back() {
    let mut store = StatusStore::default();
    store.set_status("t", TaskStatus::Done);
    store.set_instance("t", Some(held("t", Some("s-1"))));
    assert_eq!(store.save().unwrap(), store.to_json());
    assert!(store.reload().unwrap().same_as(&store));
    let empty = StatusStore::default();
    assert_eq!(empty.save().unwrap(), "{\n  \"tasks\": {}\n}");
}
