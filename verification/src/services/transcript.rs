//! What a conversation transcript says of an agent's session: how long it took, how many
//! tokens it used, what the agent said last and which tool it used last.

use vstd::prelude::*;
use crate::constants::{head, head_of};
use crate::models::task::Instance;
use crate::services::logs::{LogMetrics, context_percent_of, percent_used};
use crate::text::{char_is_space, chars_of, find_last, is_space, join, joined, last_place, opt_text, path_join, path_joined, replace_all, replaced, same_text, string_of_range, texts};

verus! {

/// The instant that an RFC 3339 date and time names: the seconds since the start of 1970
/// and the nanoseconds since the last full second. `None` where the text is no such date
/// and time.
pub uninterp spec fn rfc3339_instant(text: Seq<char>) -> Option<(i64, u32)>;

/// Reads `text` with `chrono::DateTime::parse_from_rfc3339` and hands back, for a text
/// that it accepts, what `timestamp` and `timestamp_subsec_nanos` say of the result.
#[verifier::external_body]
fn parse_instant(text: &str) -> (r: Option<(i64, u32)>)
    ensures
        r == rfc3339_instant(text@),
{
    match chrono::DateTime::parse_from_rfc3339(text) {
        Ok(d) => Some((d.timestamp(), d.timestamp_subsec_nanos())),
        Err(_) => None,
    }
}

/// A point in time: seconds since the start of 1970, and nanoseconds since the last full
/// second.
#[derive(Debug, Clone, Copy, PartialEq, Eq, Structural)]
pub struct Instant {
    pub secs: i64,
    pub nanos: u32,
}

/// The instant that `timestamp` names, where it names one.
pub open spec fn instant_of(timestamp: Option<Seq<char>>) -> Option<Instant> {
    match timestamp {
        Some(t) => match rfc3339_instant(t) {
            Some(p) => Some(Instant { secs: p.0, nanos: p.1 }),
            None => None,
        },
        None => None,
    }
}

/// The token counts that an assistant turn reports.
#[derive(Debug, Clone, Copy, PartialEq, Eq, Structural)]
pub struct Usage {
    pub input_tokens: Option<u64>,
    pub output_tokens: Option<u64>,
    pub cache_creation_input_tokens: Option<u64>,
    pub cache_read_input_tokens: Option<u64>,
}

/// What a final result reports of one model.
#[derive(Debug, Clone, Copy, PartialEq, Eq, Structural)]
pub struct ModelUsage {
    pub output_tokens: Option<u64>,
    pub context_window: Option<u64>,
}

/// One block of an assistant message, as plain sequences.
pub struct ContentItemModel {
    pub kind: Seq<char>,
    pub text: Option<Seq<char>>,
    pub thinking: Option<Seq<char>>,
    pub name: Option<Seq<char>>,
}

/// One block of an assistant message: free text, thinking, or the use of a tool.
#[derive(Debug)]
pub struct ContentItem {
    pub kind: String,
    pub text: Option<String>,
    pub thinking: Option<String>,
    pub name: Option<String>,
}

impl View for ContentItem {
    type V = ContentItemModel;

    open spec fn view(&self) -> ContentItemModel {
        ContentItemModel {
            kind: self.kind@,
            text: opt_text(self.text),
            thinking: opt_text(self.thinking),
            name: opt_text(self.name),
        }
    }
}

/// The views of a list of blocks.
pub open spec fn items(v: Seq<ContentItem>) -> Seq<ContentItemModel> {
    v.map_values(|i: ContentItem| i@)
}

/// What a record of a transcript holds, as plain values.
pub enum RecordModel {
    System,
    Assistant { usage: Option<Usage>, content: Seq<ContentItemModel> },
    Result { num_turns: Option<u32>, models: Seq<ModelUsage> },
    Other,
}

/// What a record of a transcript holds. A record of the assistant that carries no message
/// counts as `Other`.
#[derive(Debug)]
pub enum Record {
    /// The system speaks, or the session is set up.
    System,
    /// A turn of the assistant.
    Assistant { usage: Option<Usage>, content: Vec<ContentItem> },
    /// The final result, with the models in the order in which it lists them.
    Result { num_turns: Option<u32>, models: Vec<ModelUsage> },
    /// Anything else.
    Other,
}

impl View for Record {
    type V = RecordModel;

    open spec fn view(&self) -> RecordModel {
        match self {
            Record::System => RecordModel::System,
            Record::Assistant { usage, content } => RecordModel::Assistant {
                usage: *usage,
                content: items(content@),
            },
            Record::Result { num_turns, models } => RecordModel::Result {
                num_turns: *num_turns,
                models: models@,
            },
            Record::Other => RecordModel::Other,
        }
    }
}

/// One record of a transcript, as plain values.
pub struct EntryModel {
    pub timestamp: Option<Seq<char>>,
    pub record: RecordModel,
}

/// One record of a transcript: a line that could be read.
#[derive(Debug)]
pub struct Entry {
    pub timestamp: Option<String>,
    pub record: Record,
}

impl View for Entry {
    type V = EntryModel;

    open spec fn view(&self) -> EntryModel {
        EntryModel { timestamp: opt_text(self.timestamp), record: self.record@ }
    }
}

/// The views of a list of records.
pub open spec fn entries(v: Seq<Entry>) -> Seq<EntryModel> {
    v.map_values(|e: Entry| e@)
}

/// What a scan has gathered so far, as plain values.
pub struct Scan {
    pub cache_read: u64,
    pub input: u64,
    pub output: u64,
    pub cache_creation: u64,
    pub turns: u32,
    pub reported_turns: Option<u32>,
    pub window: u64,
    pub summary: Option<Seq<char>>,
    pub tool: Option<Seq<char>>,
    pub first: Option<Instant>,
    pub last: Option<Instant>,
}

/// The capacity assumed for the context window until a final result reports one.
pub const DEFAULT_CONTEXT_WINDOW: u64 = 200_000;

/// A scan before its first record.
pub open spec fn scan_start() -> Scan {
    Scan {
        cache_read: 0,
        input: 0,
        output: 0,
        cache_creation: 0,
        turns: 0,
        reported_turns: None,
        window: 200_000,
        summary: None,
        tool: None,
        first: None,
        last: None,
    }
}

/// `a + b`, cut off at the largest `u64`.
pub open spec fn capped_sum(a: u64, b: u64) -> u64 {
    if a + b > u64::MAX {
        u64::MAX
    } else {
        (a + b) as u64
    }
}

/// The count, or 0 where there is none.
pub open spec fn count_or_zero(c: Option<u64>) -> u64 {
    match c {
        Some(n) => n,
        None => 0,
    }
}

/// The last free text and the last tool after the blocks `content`: a block of kind
/// `text` that carries a text replaces the text, a block of kind `tool_use` that carries
/// a name replaces the tool.
pub open spec fn after_items(
    summary: Option<Seq<char>>,
    tool: Option<Seq<char>>,
    content: Seq<ContentItemModel>,
) -> (Option<Seq<char>>, Option<Seq<char>>)
    decreases content.len(),
{
    if content.len() == 0 {
        (summary, tool)
    } else {
        let before = after_items(summary, tool, content.drop_last());
        let it = content.last();
        if it.kind == "text"@ {
            (
                if it.text is Some {
                    it.text
                } else {
                    before.0
                },
                before.1,
            )
        } else if it.kind == "tool_use"@ {
            (
                before.0,
                if it.name is Some {
                    it.name
                } else {
                    before.1
                },
            )
        } else {
            before
        }
    }
}

/// The context window and the output tokens after the models of a final result: each
/// model that reports one of them replaces it.
pub open spec fn after_models(window: u64, output: u64, models: Seq<ModelUsage>) -> (u64, u64)
    decreases models.len(),
{
    if models.len() == 0 {
        (window, output)
    } else {
        let before = after_models(window, output, models.drop_last());
        let m = models.last();
        (
            match m.context_window {
                Some(w) => w,
                None => before.0,
            },
            match m.output_tokens {
                Some(o) => o,
                None => before.1,
            },
        )
    }
}

/// The scan after one more record.
pub open spec fn after_entry(st: Scan, e: EntryModel) -> Scan {
    let seen = instant_of(e.timestamp);
    let timed = match seen {
        Some(t) => Scan {
            first: if st.first is Some {
                st.first
            } else {
                Some(t)
            },
            last: Some(t),
            ..st
        },
        None => st,
    };
    match e.record {
        RecordModel::Assistant { usage, content } => {
            let counted = match usage {
                Some(u) => Scan {
                    cache_read: count_or_zero(u.cache_read_input_tokens),
                    input: count_or_zero(u.input_tokens),
                    output: capped_sum(timed.output, count_or_zero(u.output_tokens)),
                    cache_creation: capped_sum(
                        timed.cache_creation,
                        count_or_zero(u.cache_creation_input_tokens),
                    ),
                    ..timed
                },
                None => timed,
            };
            let said = after_items(counted.summary, counted.tool, content);
            Scan {
                summary: said.0,
                tool: said.1,
                turns: if counted.turns == u32::MAX {
                    u32::MAX
                } else {
                    (counted.turns + 1) as u32
                },
                ..counted
            }
        },
        RecordModel::Result { num_turns, models } => {
            let told = after_models(timed.window, timed.output, models);
            Scan { reported_turns: num_turns, window: told.0, output: told.1, ..timed }
        },
        _ => timed,
    }
}

/// The scan after the records `es`, in order.
pub open spec fn after_entries(st: Scan, es: Seq<EntryModel>) -> Scan
    decreases es.len(),
{
    if es.len() == 0 {
        st
    } else {
        after_entry(after_entries(st, es.drop_last()), es.last())
    }
}

/// The metrics of a session, as plain values.
pub struct MetricsModel {
    pub input_tokens: u64,
    pub output_tokens: u64,
    pub cache_creation_tokens: u64,
    pub cache_read_tokens: u64,
    pub num_turns: u32,
    pub context_window: u64,
    pub summary: Option<Seq<char>>,
    pub completed: bool,
    pub started_at: Option<Instant>,
    pub finished_at: Option<Instant>,
    pub current_tool: Option<Seq<char>>,
}

/// The metrics of a session.
#[derive(Debug)]
pub struct TranscriptMetrics {
    /// The size of the context at the last assistant turn: what was read from the cache
    /// plus the new input.
    pub input_tokens: u64,
    /// The output tokens of all turns, or what the final result reports.
    pub output_tokens: u64,
    /// The tokens written to the cache over all turns.
    pub cache_creation_tokens: u64,
    /// The tokens read from the cache at the last assistant turn.
    pub cache_read_tokens: u64,
    /// The number of turns: what the final result reports where that is positive, else
    /// the number of assistant turns seen.
    pub num_turns: u32,
    /// The capacity of the context window.
    pub context_window: u64,
    /// The last free text of the assistant.
    pub summary: Option<String>,
    /// Whether the assistant had a turn at all.
    pub completed: bool,
    /// The time of the first record that carries one.
    pub started_at: Option<Instant>,
    /// The time of the last record that carries one.
    pub finished_at: Option<Instant>,
    /// The tool that the assistant used last.
    pub current_tool: Option<String>,
}

impl View for TranscriptMetrics {
    type V = MetricsModel;

    open spec fn view(&self) -> MetricsModel {
        MetricsModel {
            input_tokens: self.input_tokens,
            output_tokens: self.output_tokens,
            cache_creation_tokens: self.cache_creation_tokens,
            cache_read_tokens: self.cache_read_tokens,
            num_turns: self.num_turns,
            context_window: self.context_window,
            summary: opt_text(self.summary),
            completed: self.completed,
            started_at: self.started_at,
            finished_at: self.finished_at,
            current_tool: opt_text(self.current_tool),
        }
    }
}

impl Default for TranscriptMetrics {
    fn default() -> (r: Self)
        ensures
            r@ == (MetricsModel {
                input_tokens: 0,
                output_tokens: 0,
                cache_creation_tokens: 0,
                cache_read_tokens: 0,
                num_turns: 0,
                context_window: 0,
                summary: None,
                completed: false,
                started_at: None,
                finished_at: None,
                current_tool: None,
            }),
    {
        TranscriptMetrics {
            input_tokens: 0,
            output_tokens: 0,
            cache_creation_tokens: 0,
            cache_read_tokens: 0,
            num_turns: 0,
            context_window: 0,
            summary: None,
            completed: false,
            started_at: None,
            finished_at: None,
            current_tool: None,
        }
    }
}

/// The metrics that a finished scan stands for.
pub open spec fn metrics_of(st: Scan) -> MetricsModel {
    MetricsModel {
        input_tokens: capped_sum(st.cache_read, st.input),
        output_tokens: st.output,
        cache_creation_tokens: st.cache_creation,
        cache_read_tokens: st.cache_read,
        num_turns: match st.reported_turns {
            Some(n) => if n > 0 {
                n
            } else {
                st.turns
            },
            None => st.turns,
        },
        context_window: st.window,
        summary: st.summary,
        completed: st.turns > 0,
        started_at: st.first,
        finished_at: st.last,
        current_tool: st.tool,
    }
}

/// The metrics of the records `es`: none for a transcript without a record that could be
/// read.
pub open spec fn scan_result(es: Seq<EntryModel>) -> Option<MetricsModel> {
    if es.len() == 0 {
        None
    } else {
        Some(metrics_of(after_entries(scan_start(), es)))
    }
}

/// The whole seconds from `start` to `end`, counted towards zero and kept within the
/// range of `i64`.
pub open spec fn seconds_between(start: Instant, end: Instant) -> int {
    let d = (end.secs - start.secs) * 1_000_000_000 + (end.nanos - start.nanos);
    let whole = if d >= 0 {
        d / 1_000_000_000
    } else {
        -((-d) / 1_000_000_000)
    };
    if whole > i64::MAX {
        i64::MAX as int
    } else if whole < i64::MIN {
        i64::MIN as int
    } else {
        whole
    }
}

/// The whole seconds from `start` to `end`.
pub fn whole_seconds(start: Instant, end: Instant) -> (r: i64)
    ensures
        r == seconds_between(start, end),
{
    let d: i128 = (end.secs as i128 - start.secs as i128) * 1_000_000_000 + (end.nanos as i128
        - start.nanos as i128);
    let whole: i128 = if d >= 0 {
        d / 1_000_000_000
    } else {
        -((-d) / 1_000_000_000)
    };
    if whole > i64::MAX as i128 {
        i64::MAX
    } else if whole < i64::MIN as i128 {
        i64::MIN
    } else {
        whole as i64
    }
}

impl TranscriptMetrics {
    /// The share of the context window in use, in percent.
    pub fn context_percent(&self) -> (r: u8)
        ensures
            r == percent_used(
                self.input_tokens as int,
                self.output_tokens as int,
                self.context_window as int,
            ),
    {
        context_percent_of(self.input_tokens, self.output_tokens, self.context_window)
    }

    /// How long the session took, in whole seconds, where the first and the last time are
    /// known.
    pub fn duration_secs(&self) -> (r: Option<i64>)
        ensures
            r == match (self.started_at, self.finished_at) {
                (Some(a), Some(b)) => Some(seconds_between(a, b) as i64),
                _ => None,
            },
    {
        match (self.started_at, self.finished_at) {
            (Some(a), Some(b)) => Some(whole_seconds(a, b)),
            _ => None,
        }
    }

    /// The token counts alone.
    pub fn log_metrics(&self) -> (r: LogMetrics)
        ensures
            r == (LogMetrics {
                input_tokens: self.input_tokens,
                output_tokens: self.output_tokens,
                cache_creation_tokens: self.cache_creation_tokens,
                cache_read_tokens: self.cache_read_tokens,
                num_turns: self.num_turns,
                context_window: self.context_window,
            }),
    {
        LogMetrics {
            input_tokens: self.input_tokens,
            output_tokens: self.output_tokens,
            cache_creation_tokens: self.cache_creation_tokens,
            cache_read_tokens: self.cache_read_tokens,
            num_turns: self.num_turns,
            context_window: self.context_window,
        }
    }
}

/// What a scan has gathered so far.
struct Gathered {
    cache_read: u64,
    input: u64,
    output: u64,
    cache_creation: u64,
    turns: u32,
    reported_turns: Option<u32>,
    window: u64,
    summary: Option<String>,
    tool: Option<String>,
    first: Option<Instant>,
    last: Option<Instant>,
}

impl View for Gathered {
    type V = Scan;

    closed spec fn view(&self) -> Scan {
        Scan {
            cache_read: self.cache_read,
            input: self.input,
            output: self.output,
            cache_creation: self.cache_creation,
            turns: self.turns,
            reported_turns: self.reported_turns,
            window: self.window,
            summary: opt_text(self.summary),
            tool: opt_text(self.tool),
            first: self.first,
            last: self.last,
        }
    }
}

fn or_zero(c: Option<u64>) -> (r: u64)
    ensures
        r == count_or_zero(c),
{
    match c {
        Some(n) => n,
        None => 0,
    }
}

fn take_items(st: &mut Gathered, content: &Vec<ContentItem>)
    ensures
        final(st)@ == ({
            let said = after_items(old(st)@.summary, old(st)@.tool, items(content@));
            Scan { summary: said.0, tool: said.1, ..old(st)@ }
        }),
{
    let mut i: usize = 0;
    let ghost s0 = st@.summary;
    let ghost t0 = st@.tool;
    assert(items(content@).take(0) =~= Seq::<ContentItemModel>::empty());
    while i < content.len()
        invariant
            i <= content.len(),
            st@ == ({
                let said = after_items(s0, t0, items(content@).take(i as int));
                Scan { summary: said.0, tool: said.1, ..old(st)@ }
            }),
        decreases content.len() - i,
    {
        let it = &content[i];
        proof {
            assert(items(content@).take(i + 1).drop_last() =~= items(content@).take(i as int));
            assert(items(content@).take(i + 1).last() == it@);
        }
        if same_text(it.kind.as_str(), "text") {
            match &it.text {
                Some(t) => {
                    st.summary = Some(t.clone());
                },
                None => {},
            }
        } else if same_text(it.kind.as_str(), "tool_use") {
            match &it.name {
                Some(n) => {
                    st.tool = Some(n.clone());
                },
                None => {},
            }
        }
        i += 1;
    }
    assert(items(content@).take(content.len() as int) =~= items(content@));
}

fn take_models(st: &mut Gathered, models: &Vec<ModelUsage>)
    ensures
        final(st)@ == ({
            let told = after_models(old(st)@.window, old(st)@.output, models@);
            Scan { window: told.0, output: told.1, ..old(st)@ }
        }),
{
    let mut i: usize = 0;
    let ghost w0 = st@.window;
    let ghost o0 = st@.output;
    assert(models@.take(0) =~= Seq::<ModelUsage>::empty());
    while i < models.len()
        invariant
            i <= models.len(),
            st@ == ({
                let told = after_models(w0, o0, models@.take(i as int));
                Scan { window: told.0, output: told.1, ..old(st)@ }
            }),
        decreases models.len() - i,
    {
        let m = models[i];
        proof {
            assert(models@.take(i + 1).drop_last() =~= models@.take(i as int));
            assert(models@.take(i + 1).last() == m);
        }
        match m.context_window {
            Some(w) => {
                st.window = w;
            },
            None => {},
        }
        match m.output_tokens {
            Some(o) => {
                st.output = o;
            },
            None => {},
        }
        i += 1;
    }
    assert(models@.take(models.len() as int) =~= models@);
}

fn take_entry(st: &mut Gathered, e: &Entry)
    ensures
        final(st)@ == after_entry(old(st)@, e@),
{
    match &e.timestamp {
        Some(t) => {
            match parse_instant(t.as_str()) {
                Some(p) => {
                    let at = Instant { secs: p.0, nanos: p.1 };
                    if st.first.is_none() {
                        st.first = Some(at);
                    }
                    st.last = Some(at);
                },
                None => {},
            }
        },
        None => {},
    }
    match &e.record {
        Record::Assistant { usage, content } => {
            match usage {
                Some(u) => {
                    st.cache_read = or_zero(u.cache_read_input_tokens);
                    st.input = or_zero(u.input_tokens);
                    st.output = st.output.saturating_add(or_zero(u.output_tokens));
                    st.cache_creation = st.cache_creation.saturating_add(
                        or_zero(u.cache_creation_input_tokens),
                    );
                },
                None => {},
            }
            take_items(st, content);
            if st.turns < u32::MAX {
                st.turns = st.turns + 1;
            }
        },
        Record::Result { num_turns, models } => {
            take_models(st, models);
            st.reported_turns = *num_turns;
        },
        _ => {},
    }
}

/// Scans the records of a transcript from first to last and gathers the metrics of the
/// session. A transcript without records gives none.
pub fn parse_transcript(records: &Vec<Entry>) -> (r: Option<TranscriptMetrics>)
    ensures
        match scan_result(entries(records@)) {
            Some(m) => r is Some && r->Some_0@ == m,
            None => r is None,
        },
{
    if records.len() == 0 {
        return None;
    }
    let mut st = Gathered {
        cache_read: 0,
        input: 0,
        output: 0,
        cache_creation: 0,
        turns: 0,
        reported_turns: None,
        window: DEFAULT_CONTEXT_WINDOW,
        summary: None,
        tool: None,
        first: None,
        last: None,
    };
    let mut i: usize = 0;
    assert(entries(records@).take(0) =~= Seq::<EntryModel>::empty());
    while i < records.len()
        invariant
            i <= records.len(),
            st@ == after_entries(scan_start(), entries(records@).take(i as int)),
        decreases records.len() - i,
    {
        proof {
            assert(entries(records@).take(i + 1).drop_last() =~= entries(records@).take(i as int));
            assert(entries(records@).take(i + 1).last() == records@[i as int]@);
        }
        take_entry(&mut st, &records[i]);
        i += 1;
    }
    assert(entries(records@).take(records.len() as int) =~= entries(records@));
    let reported = match st.reported_turns {
        Some(n) => if n > 0 {
            n
        } else {
            st.turns
        },
        None => st.turns,
    };
    Some(
        TranscriptMetrics {
            input_tokens: st.cache_read.saturating_add(st.input),
            output_tokens: st.output,
            cache_creation_tokens: st.cache_creation,
            cache_read_tokens: st.cache_read,
            num_turns: reported,
            context_window: st.window,
            summary: st.summary,
            completed: st.turns > 0,
            started_at: st.first,
            finished_at: st.last,
            current_tool: st.tool,
        },
    )
}

/// Scans the records of an agent's log and gathers its token counts.
pub fn parse_log_file(records: &Vec<Entry>) -> (r: Option<LogMetrics>)
    ensures
        match scan_result(entries(records@)) {
            Some(m) => r == Some(
                LogMetrics {
                    input_tokens: m.input_tokens,
                    output_tokens: m.output_tokens,
                    cache_creation_tokens: m.cache_creation_tokens,
                    cache_read_tokens: m.cache_read_tokens,
                    num_turns: m.num_turns,
                    context_window: m.context_window,
                },
            ),
            None => r is None,
        },
{
    match parse_transcript(records) {
        Some(m) => Some(m.log_metrics()),
        None => None,
    }
}

/// The name of the directory in which the agent keeps the transcripts of the project at
/// `path`: the path with every `/` and every `.` turned into `-`.
pub open spec fn project_dir_of(path: Seq<char>) -> Seq<char> {
    replaced(replaced(path, "/"@, "-"@), "."@, "-"@)
}

/// The name of the directory in which the agent keeps the transcripts of the project at
/// `path`.
pub fn project_dir_name(path: &str) -> (r: String)
    ensures
        r@ == project_dir_of(path@),
{
    let a = replace_all(path, "/", "-");
    replace_all(a.as_str(), ".", "-")
}

/// The directory under which the agent keeps its transcripts: `projects` in the agent's
/// own directory, which lies in the home directory and is named `.` and the name of the
/// agent's program.
pub open spec fn projects_dir_of(home: Seq<char>, program: Seq<char>) -> Seq<char> {
    path_joined(path_joined(home, "."@ + program), "projects"@)
}

/// The directory under which the agent `program` keeps its transcripts.
pub fn claude_projects_dir(home: &str, program: &str) -> (r: String)
    ensures
        r@ == projects_dir_of(home@, program@),
{
    let mut own = String::from_str(".");
    own.append(program);
    let dir = path_join(home, own.as_str());
    path_join(dir.as_str(), "projects")
}

/// The file of the transcript of the session `session_id` in the worktree at
/// `worktree_path`.
pub open spec fn transcript_of(
    projects_dir: Seq<char>,
    worktree_path: Seq<char>,
    session_id: Seq<char>,
) -> Seq<char> {
    path_joined(path_joined(projects_dir, project_dir_of(worktree_path)), session_id + ".jsonl"@)
}

/// The file of the transcript of the session `session_id` in the worktree at
/// `worktree_path`.
pub fn transcript_path(projects_dir: &str, worktree_path: &str, session_id: &str) -> (r: String)
    ensures
        r@ == transcript_of(projects_dir@, worktree_path@, session_id@),
{
    let name = project_dir_name(worktree_path);
    let dir = path_join(projects_dir, name.as_str());
    let mut file = String::from_str(session_id);
    file.append(".jsonl");
    path_join(dir.as_str(), file.as_str())
}

/// The transcript of an instance: the file of its session where the instance records one
/// and that file was found, else the latest transcript of its worktree, if any.
pub fn find_transcript_for_instance(
    instance: &Instance,
    projects_dir: &str,
    session_file_found: bool,
    latest: Option<String>,
) -> (r: Option<String>)
    ensures
        opt_text(r) == if instance@.session_id is Some && session_file_found {
            Some(
                transcript_of(
                    projects_dir@,
                    instance@.worktree_path,
                    instance@.session_id->Some_0,
                ),
            )
        } else {
            opt_text(latest)
        },
{
    match &instance.session_id {
        Some(id) => {
            if session_file_found {
                return Some(
                    transcript_path(projects_dir, instance.worktree_path.as_str(), id.as_str()),
                );
            }
        },
        None => {},
    }
    latest
}

/// The file of the extracted log of a task: in the task's directory under the logs, named
/// by the first eight characters of the session id.
pub open spec fn log_path_of(task_name: Seq<char>, session_id: Seq<char>) -> Seq<char> {
    path_joined(path_joined(".wt/logs"@, task_name), head(session_id, 8) + ".jsonl"@)
}

/// The file of the extracted log of a task.
pub fn log_path(task_name: &str, session_id: &str) -> (r: String)
    ensures
        r@ == log_path_of(task_name@, session_id@),
{
    let dir = path_join(crate::constants::LOGS_DIR, task_name);
    let mut file = head_of(session_id, 8);
    file.append(".jsonl");
    path_join(dir.as_str(), file.as_str())
}

/// The texts of the blocks of kind `kind` in `content`, in order; `thinking` tells
/// whether the thinking of a block is meant, or its text.
pub open spec fn parts_of(content: Seq<ContentItemModel>, kind: Seq<char>, thinking: bool) -> Seq<
    Seq<char>,
>
    decreases content.len(),
{
    if content.len() == 0 {
        Seq::<Seq<char>>::empty()
    } else {
        let rest = parts_of(content.drop_last(), kind, thinking);
        let it = content.last();
        let part = if thinking {
            it.thinking
        } else {
            it.text
        };
        if it.kind == kind && part is Some {
            rest.push(part->Some_0)
        } else {
            rest
        }
    }
}

/// What the assistant said in a message: its texts, one to a line, or else its thinking;
/// none where the message holds neither.
pub open spec fn message_of(content: Seq<ContentItemModel>) -> Option<Seq<char>> {
    if parts_of(content, "text"@, false).len() > 0 {
        Some(joined(parts_of(content, "text"@, false), "\n"@))
    } else if parts_of(content, "thinking"@, true).len() > 0 {
        Some(joined(parts_of(content, "thinking"@, true), "\n"@))
    } else {
        None
    }
}

/// What the assistant said in the records `es`, message by message.
pub open spec fn messages_of(es: Seq<EntryModel>) -> Seq<Seq<char>>
    decreases es.len(),
{
    if es.len() == 0 {
        Seq::<Seq<char>>::empty()
    } else {
        let rest = messages_of(es.drop_last());
        match es.last().record {
            RecordModel::Assistant { usage, content } => match message_of(content) {
                Some(m) => rest.push(m),
                None => rest,
            },
            _ => rest,
        }
    }
}

/// The last `n` elements of `s`, or all of them where there are fewer.
pub open spec fn tail_of(s: Seq<Seq<char>>, n: nat) -> Seq<Seq<char>> {
    if s.len() <= n {
        s
    } else {
        s.skip(s.len() - n)
    }
}

fn collect_parts(content: &Vec<ContentItem>, kind: &str, thinking: bool) -> (r: Vec<String>)
    ensures
        texts(r@) == parts_of(items(content@), kind@, thinking),
{
    let mut r: Vec<String> = Vec::new();
    let mut i: usize = 0;
    assert(items(content@).take(0) =~= Seq::<ContentItemModel>::empty());
    assert(texts(r@) =~= Seq::<Seq<char>>::empty());
    while i < content.len()
        invariant
            i <= content.len(),
            texts(r@) == parts_of(items(content@).take(i as int), kind@, thinking),
        decreases content.len() - i,
    {
        let it = &content[i];
        proof {
            assert(items(content@).take(i + 1).drop_last() =~= items(content@).take(i as int));
            assert(items(content@).take(i + 1).last() == it@);
        }
        if same_text(it.kind.as_str(), kind) {
            let part = if thinking {
                &it.thinking
            } else {
                &it.text
            };
            match part {
                Some(p) => {
                    let ghost before = r@;
                    r.push(p.clone());
                    assert(texts(r@) =~= texts(before).push(p@));
                },
                None => {},
            }
        }
        i += 1;
    }
    assert(items(content@).take(content.len() as int) =~= items(content@));
    r
}

/// The last `n` messages of the assistant in the records of a transcript.
pub fn get_last_messages(records: &Vec<Entry>, n: usize) -> (r: Vec<String>)
    ensures
        texts(r@) == tail_of(messages_of(entries(records@)), n as nat),
{
    let mut all: Vec<String> = Vec::new();
    let mut i: usize = 0;
    assert(entries(records@).take(0) =~= Seq::<EntryModel>::empty());
    assert(texts(all@) =~= Seq::<Seq<char>>::empty());
    while i < records.len()
        invariant
            i <= records.len(),
            texts(all@) == messages_of(entries(records@).take(i as int)),
        decreases records.len() - i,
    {
        proof {
            assert(entries(records@).take(i + 1).drop_last() =~= entries(records@).take(i as int));
            assert(entries(records@).take(i + 1).last() == records@[i as int]@);
        }
        match &records[i].record {
            Record::Assistant { usage, content } => {
                let said = collect_parts(content, "text", false);
                if said.len() > 0 {
                    let ghost before = all@;
                    let m = join(&said, "\n");
                    all.push(m);
                    assert(texts(all@) =~= texts(before).push(m@));
                } else {
                    let thought = collect_parts(content, "thinking", true);
                    if thought.len() > 0 {
                        let ghost before = all@;
                        let m = join(&thought, "\n");
                        all.push(m);
                        assert(texts(all@) =~= texts(before).push(m@));
                    }
                }
            },
            _ => {},
        }
        i += 1;
    }
    assert(entries(records@).take(records.len() as int) =~= entries(records@));
    if all.len() <= n {
        return all;
    }
    let start = all.len() - n;
    let mut r: Vec<String> = Vec::new();
    let mut k: usize = start;
    assert(texts(r@) =~= texts(all@).subrange(start as int, start as int));
    while k < all.len()
        invariant
            start <= k <= all.len(),
            texts(r@) == texts(all@).subrange(start as int, k as int),
        decreases all.len() - k,
    {
        let ghost before = r@;
        let item = all[k].clone();
        r.push(item);
        proof {
            assert(r@ == before.push(item));
            assert(texts(before).len() == before.len());
            let a = texts(r@);
            let b = texts(all@).subrange(start as int, k + 1);
            assert(a.len() == b.len());
            assert forall|x: int| 0 <= x < a.len() implies a[x] == b[x] by {
                if x < before.len() {
                    assert(a[x] == texts(before)[x]);
                    assert(texts(all@).subrange(start as int, k as int)[x] == b[x]);
                }
            }
            assert(a =~= b);
        }
        k += 1;
    }
    assert(texts(all@).subrange(start as int, all.len() as int) =~= texts(all@).skip(
        start as int,
    ));
    r
}

/// How many characters of `s` from `from` on are no white space, up to the first that is.
pub open spec fn word_end(s: Seq<char>, from: int) -> int
    decreases s.len() - from,
{
    if 0 <= from < s.len() && !is_space(s[from]) {
        word_end(s, from + 1)
    } else {
        from
    }
}

/// The name of the program that a command runs: the first word of the command, without
/// the directories that lead to it.
pub open spec fn program_of(command: Seq<char>) -> Seq<char> {
    let word = command.take(word_end(command, 0));
    match last_place(word, '/') {
        Some(i) => word.skip(i + 1),
        None => word,
    }
}

/// The name of the program that a command runs.
pub fn program_name(command: &str) -> (r: String)
    ensures
        r@ == program_of(command@),
{
    let c = chars_of(command);
    let mut e: usize = 0;
    while e < c.len() && !char_is_space(c[e])
        invariant
            e <= c.len(),
            word_end(c@, 0) == word_end(c@, e as int),
        decreases c.len() - e,
    {
        e += 1;
    }
    assert(word_end(c@, e as int) == e);
    let start: usize = match find_last(&c, e, '/') {
        Some(i) => i + 1,
        None => 0,
    };
    proof {
        let word = c@.take(e as int);
        assert(word.skip(start as int) =~= c@.subrange(start as int, e as int));
        assert(word =~= c@.subrange(0, e as int));
    }
    string_of_range(&c, start, e)
}

/// Whether a file that was changed at `a` counts as no older than one changed at `b`;
/// a file whose time is not known counts as older than any whose time is known.
pub open spec fn no_older(a: Option<u128>, b: Option<u128>) -> bool {
    match (a, b) {
        (Some(x), Some(y)) => x >= y,
        (Some(_), None) => true,
        (None, Some(_)) => false,
        (None, None) => true,
    }
}

/// The place of the latest of the files `times[..n]`: the last among those that were
/// changed last.
pub open spec fn latest_place(times: Seq<Option<u128>>, n: nat) -> int
    decreases n,
{
    if n <= 1 || n > times.len() {
        0
    } else if no_older(times[n - 1], times[latest_place(times, (n - 1) as nat)]) {
        n - 1
    } else {
        latest_place(times, (n - 1) as nat)
    }
}

/// The times of a list of files.
pub open spec fn times_of(v: Seq<(String, Option<u128>)>) -> Seq<Option<u128>> {
    v.map_values(|f: (String, Option<u128>)| f.1)
}

/// The latest of the transcripts `found`, each with its path and the time of its last
/// change; none where there is no transcript.
pub fn find_latest_transcript(found: &Vec<(String, Option<u128>)>) -> (r: Option<String>)
    ensures
        found.len() == 0 ==> r is None,
        found.len() > 0 ==> r is Some && r->Some_0@ == found@[latest_place(
            times_of(found@),
            found.len() as nat,
        )].0@ && 0 <= latest_place(times_of(found@), found.len() as nat) < found.len(),
{
    if found.len() == 0 {
        return None;
    }
    let ghost times = times_of(found@);
    let mut best: usize = 0;
    let mut i: usize = 1;
    while i < found.len()
        invariant
            1 <= i <= found.len(),
            best < i,
            times == times_of(found@),
            best == latest_place(times, i as nat),
        decreases found.len() - i,
    {
        assert(times[i as int] == found@[i as int].1);
        assert(times[best as int] == found@[best as int].1);
        let newer = match (found[i].1, found[best].1) {
            (Some(x), Some(y)) => x >= y,
            (Some(_), None) => true,
            (None, Some(_)) => false,
            (None, None) => true,
        };
        if newer {
            best = i;
        }
        i += 1;
    }
    Some(found[best].0.clone())
}

} // verus!
