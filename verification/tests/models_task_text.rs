use wt::models::document::status_from_name;
use wt::models::markdown::read_header;
use wt::models::{format_task_markdown, TaskFrontmatter, TaskStatus};

#[test]
fn test_task_status_serialize() {
    assert_eq!(
        TaskStatus::Pending.display_name().trim(),
        "pending"
    );
    assert_eq!(
        TaskStatus::Running.display_name().trim(),
        "running"
    );
    assert_eq!(
        TaskStatus::Done.display_name().trim(),
        "done"
    );
    assert_eq!(
        TaskStatus::Merged.display_name().trim(),
        "merged"
    );
}

#[test]
fn test_task_status_deserialize() {
    assert_eq!(
        status_from_name("pending").unwrap(),
        TaskStatus::Pending
    );
    assert_eq!(
        status_from_name("running").unwrap(),
        TaskStatus::Running
    );
    assert_eq!(
        status_from_name("done").unwrap(),
        TaskStatus::Done
    );
    assert_eq!(
        status_from_name("merged").unwrap(),
        TaskStatus::Merged
    );
}

#[test]
fn test_task_status_deserialize_invalid() {
    let result = status_from_name("invalid");
    assert!(result.is_none());
}

#[test]
fn test_task_frontmatter_serialize_minimal() {
    let fm = TaskFrontmatter {
        name: "test".to_string(),
        depends: vec![],
    };
    let yaml = format_task_markdown(&fm, "");

    assert!(yaml.contains("name: test"));
    // No status or instance fields
    assert!(!yaml.contains("status:"));
    assert!(!yaml.contains("instance:"));
    // Empty depends should be skipped
    assert!(!yaml.contains("depends:"));
}

#[test]
fn test_task_frontmatter_serialize_with_depends() {
    let fm = TaskFrontmatter {
        name: "test".to_string(),
        depends: vec!["dep1".to_string()],
    };
    let yaml = format_task_markdown(&fm, "");

    assert!(yaml.contains("name: test"));
    assert!(yaml.contains("depends:"));
    assert!(yaml.contains("- dep1"));
}

#[test]
fn test_task_frontmatter_deserialize_minimal() {
    let yaml = "name: test\n";
    let fm: TaskFrontmatter = read_header(yaml).unwrap();

    assert_eq!(fm.name, "test");
    assert!(fm.depends.is_empty());
}

#[test]
fn test_parse_with_assistant_and_result() {
    // Simulate real log: assistant messages followed by result
    let mut file = String::new();
    file.push_str(
        r#"{"type":"assistant","message":{"usage":{"input_tokens":10,"output_tokens":100,"cache_read_input_tokens":5000}}}"#,
    );
    file.push('\n');
    file.push_str(
        r#"{"type":"assistant","message":{"usage":{"input_tokens":20,"output_tokens":200,"cache_read_input_tokens":10000}}}"#,
    );
    file.push('\n');
    file.push_str(
        r#"{"type":"result","num_turns":2,"modelUsage":{"sonnet":{"inputTokens":30,"outputTokens":300,"contextWindow":200000}}}"#,
    );
    file.push('\n');

    let records = wt::services::records::read_entries(&file);
    let metrics = wt::services::transcript::parse_log_file(&records).unwrap();
    assert_eq!(metrics.num_turns, 2);
    // Context = last assistant's cache_read + input = 10000 + 20
    assert_eq!(metrics.input_tokens, 10020);
    // Output = cumulative from result
    assert_eq!(metrics.output_tokens, 300);
    assert_eq!(metrics.context_window, 200_000);
    // Context percent = 10020 / 200000 = 5%
    assert_eq!(metrics.context_percent(), 5);
}
