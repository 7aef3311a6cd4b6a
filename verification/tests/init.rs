use wt::commands::init::{generate_config, GITIGNORE_ENTRIES, GITIGNORE_MARKER};

#[test]
fn test_generate_config_contains_project_name() {
    let config = generate_config("my-project");
    assert!(config.contains("tmux_session: my-project"));
}

#[test]
fn test_generate_config_has_required_fields() {
    let config = generate_config("test");
    assert!(config.contains("start_args:"));
    assert!(config.contains("tmux_session:"));
    assert!(config.contains("worktree_dir:"));
    assert!(config.contains("copy_files:"));
    assert!(config.contains(".env"));
}

#[test]
fn test_generate_config_has_claude_command_comment() {
    let config = generate_config("test");
    assert!(config.contains("claude_command:"));
}

#[test]
fn test_generate_config_has_template_variables() {
    let config = generate_config("test");
    assert!(config.contains("${task}"));
}

#[test]
fn test_generate_config_has_archive_script() {
    let config = generate_config("test");
    assert!(config.contains("archive_script:"));
    assert!(config.contains("node_modules"));
}

#[test]
fn test_gitignore_entries_has_marker() {
    assert!(GITIGNORE_ENTRIES.contains(GITIGNORE_MARKER));
}

#[test]
fn test_gitignore_entries_has_wt_dir() {
    assert!(GITIGNORE_ENTRIES.contains(".wt/*"));
}

#[test]
fn test_gitignore_entries_exposes_tasks_and_config() {
    assert!(GITIGNORE_ENTRIES.contains("!.wt/tasks/"));
    assert!(GITIGNORE_ENTRIES.contains("!.wt/config.yaml"));
}
