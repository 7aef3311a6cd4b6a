use wt::models::TaskStatus;
use wt::tui::ui::{align, count_status, footer, format_task_line, format_tool_name, get_status_icon, header, pad, truncate, Segment, Tint};
use wt::tui::TaskDisplay;

fn shown(name: &str, status: TaskStatus) -> TaskDisplay {
    TaskDisplay {
        name: name.to_string(),
        status,
        duration: None,
        context_percent: 0,
        additions: 0,
        deletions: 0,
        active: false,
        tmux_alive: true,
        worktree_path: None,
        tmux_session: None,
        tmux_window: None,
        session_id: None,
        commit_count: 0,
        has_conflict: false,
        current_tool: None,
    }
}

fn written(line: &[Segment]) -> String {
    line.iter().map(|s| s.text.as_str()).collect()
}

#[test]
fn padding_fills_up_to_the_width() {
    assert_eq!(pad("ab", 5), "ab   ");
    assert_eq!(pad("abcde", 5), "abcde");
    assert_eq!(pad("abcdef", 5), "abcdef");
    assert_eq!(pad("", 0), "");
    assert_eq!(align("ab", 5), "   ab");
    assert_eq!(align("abcdef", 5), "abcdef");
    assert_eq!(align("é", 3), "  é");
}

#[test]
fn truncation_keeps_short_names_and_marks_cut_ones() {
    assert_eq!(truncate("short", 12), "short");
    assert_eq!(truncate("exactly12chr", 12), "exactly12chr");
    assert_eq!(truncate("thirteen-char", 12), "thirteen-ch…");
    assert_eq!(truncate("ab", 1), "…");
    assert_eq!(truncate("ééééé", 3), "éé…");
}

#[test]
fn tool_names_are_shortened() {
    assert_eq!(format_tool_name("Read"), "Read");
    assert_eq!(format_tool_name("WebFetch"), "Web");
    assert_eq!(format_tool_name("WebSearch"), "Search");
    assert_eq!(format_tool_name("mcp__server__lookup"), "lookup");
    assert_eq!(format_tool_name("mcp__server___x"), "x");
    assert_eq!(format_tool_name("mcp__"), "");
    assert_eq!(format_tool_name("other__tool"), "other__tool");
    assert_eq!(format_tool_name("AVeryLongToolNameIndeed"), "AVeryLongTo…");
}

#[test]
fn status_mark_follows_the_state_of_the_task() {
    let mut task = shown("a", TaskStatus::Running);
    let mark = get_status_icon(&task);
    assert_eq!((mark.text.as_str(), mark.tint), ("○", Tint::DarkGray));
    task.active = true;
    let mark = get_status_icon(&task);
    assert_eq!((mark.text.as_str(), mark.tint), ("●", Tint::Green));
    task.tmux_alive = false;
    let mark = get_status_icon(&task);
    assert_eq!((mark.text.as_str(), mark.tint), ("⚠", Tint::Yellow));
    task.has_conflict = true;
    let mark = get_status_icon(&task);
    assert_eq!((mark.text.as_str(), mark.tint), ("⚠", Tint::Red));
    let mark = get_status_icon(&shown("a", TaskStatus::Done));
    assert_eq!((mark.text.as_str(), mark.tint), ("◉", Tint::Blue));
    let mark = get_status_icon(&shown("a", TaskStatus::Merged));
    assert_eq!((mark.text.as_str(), mark.tint), ("✓", Tint::Magenta));
    let mark = get_status_icon(&shown("a", TaskStatus::Pending));
    assert_eq!((mark.text.as_str(), mark.tint), ("○", Tint::DarkGray));
}

#[test]
fn task_line_of_an_idle_task() {
    let line = format_task_line(&shown("auth", TaskStatus::Running), false);
    assert_eq!(line.len(), 8);
    let pieces: Vec<&str> = line.iter().map(|s| s.text.as_str()).collect();
    assert_eq!(pieces, vec!["   ", "○", " ", "auth        ", "     -", "   0%", "   -", " -          "]);
    assert_eq!(line[0].tint, Tint::Plain);
    assert_eq!(line[3].tint, Tint::White);
    assert!(!line[3].bold);
    assert_eq!(line[5].tint, Tint::Cyan);
    assert_eq!(line[7].tint, Tint::DarkGray);
}

#[test]
fn task_line_of_a_busy_task() {
    let mut task = shown("a-task-with-a-long-name", TaskStatus::Running);
    task.active = true;
    task.duration = Some("1h 5m".to_string());
    task.context_percent = 83;
    task.commit_count = 4;
    task.additions = 120;
    task.deletions = 7;
    task.current_tool = Some("mcp__files__read".to_string());
    let line = format_task_line(&task, true);
    assert_eq!(line.len(), 9);
    assert_eq!(written(&line), " ▸ ● a-task-with… 1h 5m  83%  4c +120/-7     read");
    assert_eq!(line[0].tint, Tint::Yellow);
    assert!(line[3].bold);
    assert_eq!(line[5].tint, Tint::Yellow);
    assert_eq!(line[6].text, "  4c");
    assert_eq!(line[7].tint, Tint::Gray);
    assert_eq!(line[8].tint, Tint::DarkGray);
    task.context_percent = 95;
    task.commit_count = 123;
    let line = format_task_line(&task, false);
    assert_eq!(line[5].text, "  95%");
    assert_eq!(line[5].tint, Tint::Red);
    assert_eq!(line[6].text, " 123c");
}

#[test]
fn task_line_of_a_task_in_conflict() {
    let mut task = shown("auth", TaskStatus::Done);
    task.has_conflict = true;
    task.deletions = 3;
    task.current_tool = Some("Bash".to_string());
    let line = format_task_line(&task, false);
    let pieces: Vec<&str> = line.iter().map(|s| s.text.as_str()).collect();
    assert_eq!(
        pieces,
        vec!["   ", "⚠", " ", "auth        ", "     -", "   0%", "   -", " +0/-3      ", " ⚡CONFLICT"]
    );
    assert_eq!(line[1].tint, Tint::Red);
    assert!(line[8].bold);
    assert_eq!(line[8].tint, Tint::Red);
}

#[test]
fn header_counts_the_tasks_by_status() {
    let tasks = vec![
        shown("a", TaskStatus::Running),
        shown("b", TaskStatus::Done),
        shown("c", TaskStatus::Running),
    ];
    assert_eq!(count_status(&tasks, TaskStatus::Running), 2);
    assert_eq!(count_status(&tasks, TaskStatus::Merged), 0);
    let line = header(&tasks);
    assert_eq!(line.len(), 5);
    assert_eq!(written(&line), format!(" wt status{}2 running · 1 done", " ".repeat(30)));
    let mut tasks = tasks;
    tasks.push(shown("d", TaskStatus::Merged));
    let line = header(&tasks);
    assert_eq!(line.len(), 7);
    assert_eq!(written(&line), format!(" wt status{}2 running · 1 done · 1 merged", " ".repeat(30)));
    assert_eq!(line[6].tint, Tint::Magenta);
    assert_eq!(written(&header(&Vec::new())), format!(" wt status{}0 running · 0 done", " ".repeat(30)));
}

#[test]
fn footer_offers_the_keys_of_the_chosen_task() {
    assert_eq!(written(&footer(None)), " ↑↓ navigate  ⏎ cd  q quit");
    assert_eq!(written(&footer(Some(TaskStatus::Running))), " ↑↓ navigate  ⏎ cd  t tail  d done  q quit");
    assert_eq!(written(&footer(Some(TaskStatus::Done))), " ↑↓ navigate  ⏎ cd  t tail  m merged  q quit");
    assert_eq!(written(&footer(Some(TaskStatus::Merged))), " ↑↓ navigate  ⏎ cd  a archive  q quit");
    assert_eq!(written(&footer(Some(TaskStatus::Pending))), " ↑↓ navigate  ⏎ cd  q quit");
    let line = footer(Some(TaskStatus::Merged));
    assert_eq!(line[1].tint, Tint::Yellow);
    assert_eq!(line[2].tint, Tint::Plain);
}
