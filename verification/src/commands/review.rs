//! The report of the `review` command: what the transcript of a finished session says,
//! what the task changed, and the commands that take the session up again.

use vstd::prelude::*;
use crate::commands::pretty::{count_member, maybe, member, number_member, object, object_text, push_maybe, raw_member, text_member};
use crate::display::{duration_text, format_duration};
use crate::models::json::json_string;
use crate::services::logs::percent_used;
use crate::services::transcript::{MetricsModel, TranscriptMetrics, seconds_between};
use crate::text::{chars_of, copy_opt_text, decimal, join, joined, opt_text, push_decimal, push_signed_decimal, signed_decimal, string_of_range, texts};

verus! {

/// The longest summary that a review shows in full, in characters.
pub const SUMMARY_LIMIT: usize = 2000;

/// What a review shows of a session, as plain values.
pub struct FactsModel {
    pub duration_secs: Option<i64>,
    pub input_tokens: u64,
    pub output_tokens: u64,
    pub num_turns: u32,
    pub context_percent: u8,
    pub summary: Option<Seq<char>>,
}

/// What a review shows of a session.
#[derive(Debug)]
pub struct Facts {
    pub duration_secs: Option<i64>,
    pub input_tokens: u64,
    pub output_tokens: u64,
    pub num_turns: u32,
    pub context_percent: u8,
    pub summary: Option<String>,
}

impl View for Facts {
    type V = FactsModel;

    open spec fn view(&self) -> FactsModel {
        FactsModel {
            duration_secs: self.duration_secs,
            input_tokens: self.input_tokens,
            output_tokens: self.output_tokens,
            num_turns: self.num_turns,
            context_percent: self.context_percent,
            summary: opt_text(self.summary),
        }
    }
}

/// What a review shows of a session with the metrics `m`.
pub open spec fn facts_of(m: MetricsModel) -> FactsModel {
    FactsModel {
        duration_secs: match (m.started_at, m.finished_at) {
            (Some(a), Some(b)) => Some(seconds_between(a, b) as i64),
            _ => None,
        },
        input_tokens: m.input_tokens,
        output_tokens: m.output_tokens,
        num_turns: m.num_turns,
        context_percent: percent_used(
            m.input_tokens as int,
            m.output_tokens as int,
            m.context_window as int,
        ) as u8,
        summary: m.summary,
    }
}

/// What a review shows of a session with the given metrics.
pub fn facts(metrics: &TranscriptMetrics) -> (r: Facts)
    ensures
        r@ == facts_of(metrics@),
{
    Facts {
        duration_secs: metrics.duration_secs(),
        input_tokens: metrics.input_tokens,
        output_tokens: metrics.output_tokens,
        num_turns: metrics.num_turns,
        context_percent: metrics.context_percent(),
        summary: copy_opt_text(&metrics.summary),
    }
}

/// The lines added and deleted, where any were.
pub open spec fn changed(changes: Option<(i32, i32)>) -> Option<(i32, i32)> {
    match changes {
        Some(c) => if c.0 > 0 || c.1 > 0 {
            Some(c)
        } else {
            None
        },
        None => None,
    }
}

/// The command that lets the agent go on with the session by itself.
pub open spec fn continue_text(worktree: Seq<char>, agent: Seq<char>, session_id: Seq<char>) -> Seq<
    char,
> {
    "cd "@ + worktree + " && "@ + agent + " --output-format stream-json -r "@ + session_id
        + " -p \"继续完成任务\""@
}

/// The command that lets the agent go on with the session by itself.
pub fn continue_command(worktree: &str, agent: &str, session_id: &str) -> (r: String)
    ensures
        r@ == continue_text(worktree@, agent@, session_id@),
{
    let mut r = String::from_str("cd ");
    r.append(worktree);
    r.append(" && ");
    r.append(agent);
    r.append(" --output-format stream-json -r ");
    r.append(session_id);
    r.append(" -p \"继续完成任务\"");
    r
}

/// A summary as a review shows it: in full up to 2000 characters, else its first 2000
/// characters and three dots.
pub open spec fn summary_shown(summary: Seq<char>) -> Seq<char> {
    if summary.len() > 2000 {
        summary.take(2000) + "..."@
    } else {
        summary
    }
}

/// The lines of a review that tell of the session: how long it took, where that is known,
/// the token counts, what was changed, where anything was, and the summary, where there
/// is one. Without metrics, one line says so.
pub open spec fn session_lines(facts: Option<FactsModel>, changes: Option<(i32, i32)>) -> Seq<
    Seq<char>,
> {
    match facts {
        Some(f) => (match f.duration_secs {
            Some(d) => seq!["Duration: "@ + duration_text(d as int)],
            None => Seq::<Seq<char>>::empty(),
        }) + seq![
            Seq::<char>::empty(),
            "## Statistics"@,
            "  Input: "@ + decimal(f.input_tokens as nat) + " tokens | Output: "@ + decimal(
                f.output_tokens as nat,
            ) + " tokens | Turns: "@ + decimal(f.num_turns as nat),
            "  Context usage: "@ + decimal(f.context_percent as nat) + "%"@,
        ] + (match changed(changes) {
            Some(c) => seq![
                Seq::<char>::empty(),
                "## Code Changes"@,
                "  +"@ + signed_decimal(c.0 as int) + " -"@ + signed_decimal(c.1 as int),
            ],
            None => Seq::<Seq<char>>::empty(),
        }) + (match f.summary {
            Some(s) => seq![Seq::<char>::empty(), "## Result"@, summary_shown(s)],
            None => Seq::<Seq<char>>::empty(),
        }),
        None => seq!["(Unable to parse transcript)"@],
    }
}

/// The review in words, line by line: the task, what is known of its session, and the two
/// commands that take the session up again.
pub open spec fn review_lines(
    name: Seq<char>,
    facts: Option<FactsModel>,
    changes: Option<(i32, i32)>,
    interactive: Seq<char>,
    non_interactive: Seq<char>,
) -> Seq<Seq<char>> {
    seq!["Task: "@ + name + " (Done)"@, Seq::<char>::empty()] + session_lines(facts, changes)
        + seq![
        Seq::<char>::empty(),
        "---"@,
        "# Resume conversation (interactive, for human):"@,
        interactive,
        Seq::<char>::empty(),
        "# Continue with prompt (for agent):"@,
        non_interactive,
    ]
}

/// The views of optional facts.
pub open spec fn facts_view(facts: Option<Facts>) -> Option<FactsModel> {
    match facts {
        Some(f) => Some(f@),
        None => None,
    }
}

fn statistics_line(f: &Facts) -> (r: String)
    ensures
        r@ == "  Input: "@ + decimal(f.input_tokens as nat) + " tokens | Output: "@ + decimal(
            f.output_tokens as nat,
        ) + " tokens | Turns: "@ + decimal(f.num_turns as nat),
{
    let mut r = String::from_str("  Input: ");
    push_decimal(&mut r, f.input_tokens);
    r.append(" tokens | Output: ");
    push_decimal(&mut r, f.output_tokens);
    r.append(" tokens | Turns: ");
    push_decimal(&mut r, f.num_turns as u64);
    r
}

fn show_summary(summary: &str) -> (r: String)
    ensures
        r@ == summary_shown(summary@),
{
    let v = chars_of(summary);
    if v.len() > SUMMARY_LIMIT {
        let mut r = string_of_range(&v, 0, SUMMARY_LIMIT);
        r.append("...");
        assert(v@.subrange(0, 2000) =~= v@.take(2000));
        r
    } else {
        String::from_str(summary)
    }
}

fn write_session(f: &Facts, changes: Option<(i32, i32)>, out: &mut Vec<String>)
    ensures
        texts(final(out)@) == texts(old(out)@) + session_lines(Some(f@), changes),
{
    let ghost start = texts(out@);
    match f.duration_secs {
        Some(d) => {
            let mut line = String::from_str("Duration: ");
            line.append(format_duration(d).as_str());
            out.push(line);
        },
        None => {},
    }
    let ghost first = texts(out@);
    assert(first =~= start + (match f.duration_secs {
        Some(d) => seq!["Duration: "@ + duration_text(d as int)],
        None => Seq::<Seq<char>>::empty(),
    }));
    out.push(String::new());
    out.push(String::from_str("## Statistics"));
    out.push(statistics_line(f));
    let mut usage = String::from_str("  Context usage: ");
    push_decimal(&mut usage, f.context_percent as u64);
    usage.append("%");
    out.push(usage);
    let ghost second = texts(out@);
    assert(second =~= first + seq![
        Seq::<char>::empty(),
        "## Statistics"@,
        "  Input: "@ + decimal(f.input_tokens as nat) + " tokens | Output: "@ + decimal(
            f.output_tokens as nat,
        ) + " tokens | Turns: "@ + decimal(f.num_turns as nat),
        "  Context usage: "@ + decimal(f.context_percent as nat) + "%"@,
    ]);
    match changes {
        Some(c) => {
            if c.0 > 0 || c.1 > 0 {
                out.push(String::new());
                out.push(String::from_str("## Code Changes"));
                let mut line = String::from_str("  +");
                push_signed_decimal(&mut line, c.0 as i64);
                line.append(" -");
                push_signed_decimal(&mut line, c.1 as i64);
                out.push(line);
            }
        },
        None => {},
    }
    let ghost third = texts(out@);
    assert(third =~= second + (match changed(changes) {
        Some(c) => seq![
            Seq::<char>::empty(),
            "## Code Changes"@,
            "  +"@ + signed_decimal(c.0 as int) + " -"@ + signed_decimal(c.1 as int),
        ],
        None => Seq::<Seq<char>>::empty(),
    }));
    match &f.summary {
        Some(s) => {
            out.push(String::new());
            out.push(String::from_str("## Result"));
            out.push(show_summary(s.as_str()));
        },
        None => {},
    }
    assert(texts(out@) =~= third + (match f@.summary {
        Some(s) => seq![Seq::<char>::empty(), "## Result"@, summary_shown(s)],
        None => Seq::<Seq<char>>::empty(),
    }));
    assert(texts(out@) =~= start + session_lines(Some(f@), changes));
}

/// The review in words. Each line ends with a line feed.
pub fn output_text(
    name: &str,
    facts: &Option<Facts>,
    changes: Option<(i32, i32)>,
    interactive_cmd: &str,
    non_interactive_cmd: &str,
) -> (r: String)
    ensures
        r@ == joined(
            review_lines(
                name@,
                facts_view(*facts),
                changes,
                interactive_cmd@,
                non_interactive_cmd@,
            ),
            "\n"@,
        ) + "\n"@,
{
    let mut out: Vec<String> = Vec::new();
    let mut head = String::from_str("Task: ");
    head.append(name);
    head.append(" (Done)");
    out.push(head);
    out.push(String::new());
    let ghost first = texts(out@);
    assert(first =~= seq!["Task: "@ + name@ + " (Done)"@, Seq::<char>::empty()]);
    match facts {
        Some(f) => {
            write_session(f, changes, &mut out);
        },
        None => {
            out.push(String::from_str("(Unable to parse transcript)"));
            assert(texts(out@) =~= first + session_lines(None, changes));
        },
    }
    let ghost second = texts(out@);
    assert(second == first + session_lines(facts_view(*facts), changes));
    out.push(String::new());
    out.push(String::from_str("---"));
    out.push(String::from_str("# Resume conversation (interactive, for human):"));
    out.push(String::from_str(interactive_cmd));
    out.push(String::new());
    out.push(String::from_str("# Continue with prompt (for agent):"));
    out.push(String::from_str(non_interactive_cmd));
    assert(texts(out@) =~= review_lines(
        name@,
        facts_view(*facts),
        changes,
        interactive_cmd@,
        non_interactive_cmd@,
    ));
    let mut r = join(&out, "\n");
    r.append("\n");
    r
}

/// The members of the object that holds what the transcript says: the duration, where it
/// is known, and the counts.
pub open spec fn facts_members(f: FactsModel) -> Seq<Seq<char>> {
    maybe(
        match f.duration_secs {
            Some(d) => Some(member("duration_secs"@, signed_decimal(d as int))),
            None => None,
        },
    ) + seq![
        member("input_tokens"@, decimal(f.input_tokens as nat)),
        member("output_tokens"@, decimal(f.output_tokens as nat)),
        member("num_turns"@, decimal(f.num_turns as nat)),
        member("context_percent"@, decimal(f.context_percent as nat)),
    ]
}

/// The members of the review that are there only where something is known: the metrics,
/// the changes, and the summary.
pub open spec fn known_members(facts: Option<FactsModel>, changes: Option<(i32, i32)>) -> Seq<
    Seq<char>,
> {
    maybe(
        match facts {
            Some(f) => Some(member("metrics"@, object_text(facts_members(f), "  "@))),
            None => None,
        },
    ) + maybe(
        match changed(changes) {
            Some(c) => Some(
                member(
                    "code_changes"@,
                    object_text(
                        seq![
                            member("insertions"@, signed_decimal(c.0 as int)),
                            member("deletions"@, signed_decimal(c.1 as int)),
                        ],
                        "  "@,
                    ),
                ),
            ),
            None => None,
        },
    ) + maybe(
        match facts {
            Some(f) => match f.summary {
                Some(s) => Some(member("summary"@, json_string(s))),
                None => None,
            },
            None => None,
        },
    )
}

/// The review as JSON in the indented form: the task, its status, worktree and session,
/// what is known of the session, and the two commands.
pub open spec fn review_json(
    name: Seq<char>,
    worktree: Seq<char>,
    session_id: Seq<char>,
    facts: Option<FactsModel>,
    changes: Option<(i32, i32)>,
    interactive: Seq<char>,
    non_interactive: Seq<char>,
) -> Seq<char> {
    object_text(
        seq![
            member("task"@, json_string(name)),
            member("status"@, json_string("done"@)),
            member("worktree_path"@, json_string(worktree)),
            member("session_id"@, json_string(session_id)),
        ] + known_members(facts, changes) + seq![
            member(
                "commands"@,
                object_text(
                    seq![
                        member("interactive"@, json_string(interactive)),
                        member("non_interactive"@, json_string(non_interactive)),
                    ],
                    "  "@,
                ),
            ),
        ],
        Seq::<char>::empty(),
    )
}

fn write_facts(f: &Facts) -> (r: String)
    ensures
        r@ == member("metrics"@, object_text(facts_members(f@), "  "@)),
{
    let mut members: Vec<String> = Vec::new();
    assert(texts(members@) =~= Seq::<Seq<char>>::empty());
    push_maybe(
        &mut members,
        match f.duration_secs {
            Some(d) => Some(number_member("duration_secs", d)),
            None => None,
        },
    );
    let ghost first = texts(members@);
    members.push(count_member("input_tokens", f.input_tokens));
    members.push(count_member("output_tokens", f.output_tokens));
    members.push(count_member("num_turns", f.num_turns as u64));
    members.push(count_member("context_percent", f.context_percent as u64));
    assert(texts(members@) =~= first + seq![
        member("input_tokens"@, decimal(f.input_tokens as nat)),
        member("output_tokens"@, decimal(f.output_tokens as nat)),
        member("num_turns"@, decimal(f.num_turns as nat)),
        member("context_percent"@, decimal(f.context_percent as nat)),
    ]);
    assert(texts(members@) =~= facts_members(f@));
    raw_member("metrics", object(&members, "  ").as_str())
}

fn write_changes(c: (i32, i32)) -> (r: String)
    ensures
        r@ == member(
            "code_changes"@,
            object_text(
                seq![
                    member("insertions"@, signed_decimal(c.0 as int)),
                    member("deletions"@, signed_decimal(c.1 as int)),
                ],
                "  "@,
            ),
        ),
{
    let mut members: Vec<String> = Vec::new();
    members.push(number_member("insertions", c.0 as i64));
    members.push(number_member("deletions", c.1 as i64));
    assert(texts(members@) =~= seq![
        member("insertions"@, signed_decimal(c.0 as int)),
        member("deletions"@, signed_decimal(c.1 as int)),
    ]);
    raw_member("code_changes", object(&members, "  ").as_str())
}

fn write_known(facts: &Option<Facts>, changes: Option<(i32, i32)>, out: &mut Vec<String>)
    ensures
        texts(final(out)@) == texts(old(out)@) + known_members(facts_view(*facts), changes),
{
    let ghost start = texts(out@);
    push_maybe(
        out,
        match facts {
            Some(f) => Some(write_facts(f)),
            None => None,
        },
    );
    let ghost first = texts(out@);
    let change_member = match changes {
        Some(c) => if c.0 > 0 || c.1 > 0 {
            Some(write_changes(c))
        } else {
            None
        },
        None => None,
    };
    push_maybe(out, change_member);
    let ghost second = texts(out@);
    let summary_member = match facts {
        Some(f) => match &f.summary {
            Some(s) => Some(text_member("summary", s.as_str())),
            None => None,
        },
        None => None,
    };
    push_maybe(out, summary_member);
    assert(texts(out@) =~= start + known_members(facts_view(*facts), changes));
}

/// The review as JSON in the indented form.
pub fn output_json(
    name: &str,
    worktree_path: &str,
    session_id: &str,
    facts: &Option<Facts>,
    changes: Option<(i32, i32)>,
    interactive_cmd: &str,
    non_interactive_cmd: &str,
) -> (r: String)
    ensures
        r@ == review_json(
            name@,
            worktree_path@,
            session_id@,
            facts_view(*facts),
            changes,
            interactive_cmd@,
            non_interactive_cmd@,
        ),
{
    let mut out: Vec<String> = Vec::new();
    out.push(text_member("task", name));
    out.push(text_member("status", "done"));
    out.push(text_member("worktree_path", worktree_path));
    out.push(text_member("session_id", session_id));
    let ghost first = texts(out@);
    assert(first =~= seq![
        member("task"@, json_string(name@)),
        member("status"@, json_string("done"@)),
        member("worktree_path"@, json_string(worktree_path@)),
        member("session_id"@, json_string(session_id@)),
    ]);
    write_known(facts, changes, &mut out);
    let ghost second = texts(out@);
    let mut commands: Vec<String> = Vec::new();
    commands.push(text_member("interactive", interactive_cmd));
    commands.push(text_member("non_interactive", non_interactive_cmd));
    assert(texts(commands@) =~= seq![
        member("interactive"@, json_string(interactive_cmd@)),
        member("non_interactive"@, json_string(non_interactive_cmd@)),
    ]);
    out.push(raw_member("commands", object(&commands, "  ").as_str()));
    assert(texts(out@) =~= second + seq![
        member(
            "commands"@,
            object_text(
                seq![
                    member("interactive"@, json_string(interactive_cmd@)),
                    member("non_interactive"@, json_string(non_interactive_cmd@)),
                ],
                "  "@,
            ),
        ),
    ]);
    let margin = String::new();
    object(&out, margin.as_str())
}

} // verus!
