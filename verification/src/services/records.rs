//! Reading the lines of a conversation transcript: each line is a JSON document of its
//! own, and a line that cannot be read as a record is passed over.

use vstd::prelude::*;
use crate::models::json::{JsonKind, json_count, json_count_at, json_keys, json_keys_at, json_kind, json_kind_at, json_len, json_len_at, json_text, json_text_at};
use crate::services::transcript::{ContentItem, ContentItemModel, Entry, EntryModel, ModelUsage, Record, RecordModel, TranscriptMetrics, Usage, entries, items, parse_transcript, scan_result};
use crate::text::{copy_texts, decimal, lines, lines_of, push_decimal, same_text, texts, texts_contain};

verus! {

/// The path that leads from `path` on to `name`.
pub fn under(path: &Vec<String>, name: &str) -> (r: Vec<String>)
    ensures
        texts(r@) == texts(path@).push(name@),
{
    let mut r = copy_texts(path);
    r.push(name.to_string());
    assert(texts(r@) =~= texts(path@).push(name@));
    r
}

/// The path to the whole document.
pub fn root() -> (r: Vec<String>)
    ensures
        texts(r@) == Seq::<Seq<char>>::empty(),
{
    let r: Vec<String> = Vec::new();
    assert(texts(r@) =~= Seq::<Seq<char>>::empty());
    r
}

/// Where an assistant's record keeps its message.
pub open spec fn message_path() -> Seq<Seq<char>> {
    Seq::<Seq<char>>::empty().push("message"@)
}

/// Where an assistant's record keeps its token counts.
pub open spec fn usage_path() -> Seq<Seq<char>> {
    message_path().push("usage"@)
}

/// Where an assistant's record keeps the blocks of its message.
pub open spec fn content_path() -> Seq<Seq<char>> {
    message_path().push("content"@)
}

/// Where a final result keeps what it reports of each model.
pub open spec fn models_path() -> Seq<Seq<char>> {
    Seq::<Seq<char>>::empty().push("modelUsage"@)
}

/// The token counts of the record on `line`: those of the object under `usage` in its
/// message, each count absent where the object holds none of that name.
pub open spec fn usage_of(line: Seq<char>) -> Option<Usage> {
    if json_kind_at(line, usage_path()) == Some(JsonKind::Object) {
        Some(
            Usage {
                input_tokens: json_count_at(line, usage_path().push("input_tokens"@)),
                output_tokens: json_count_at(line, usage_path().push("output_tokens"@)),
                cache_creation_input_tokens: json_count_at(
                    line,
                    usage_path().push("cache_creation_input_tokens"@),
                ),
                cache_read_input_tokens: json_count_at(
                    line,
                    usage_path().push("cache_read_input_tokens"@),
                ),
            },
        )
    } else {
        None
    }
}

/// The block at place `i` of the message on `line`. A block without a type has the empty
/// one.
pub open spec fn item_of(line: Seq<char>, i: nat) -> ContentItemModel {
    let at = content_path().push(decimal(i));
    ContentItemModel {
        kind: match json_text_at(line, at.push("type"@)) {
            Some(k) => k,
            None => Seq::<char>::empty(),
        },
        text: json_text_at(line, at.push("text"@)),
        thinking: json_text_at(line, at.push("thinking"@)),
        name: json_text_at(line, at.push("name"@)),
    }
}

/// The blocks of the message on `line`, in their order; none where the message holds no
/// array of them.
pub open spec fn content_of(line: Seq<char>) -> Seq<ContentItemModel> {
    match json_len_at(line, content_path()) {
        Some(n) => Seq::new(n as nat, |i: int| item_of(line, i as nat)),
        None => Seq::<ContentItemModel>::empty(),
    }
}

/// What the final result on `line` reports of the model `name`.
pub open spec fn model_of(line: Seq<char>, name: Seq<char>) -> ModelUsage {
    ModelUsage {
        output_tokens: json_count_at(line, models_path().push(name).push("outputTokens"@)),
        context_window: json_count_at(line, models_path().push(name).push("contextWindow"@)),
    }
}

/// What the final result on `line` reports of its models, in the order of their names in
/// the record; nothing where it names none.
pub open spec fn models_of(line: Seq<char>) -> Seq<ModelUsage> {
    match json_keys_at(line, models_path()) {
        Some(names) => Seq::new(names.len(), |i: int| model_of(line, names[i])),
        None => Seq::<ModelUsage>::empty(),
    }
}

/// The number of turns that the final result on `line` reports, where it fits 32 bits.
pub open spec fn turns_of(line: Seq<char>) -> Option<u32> {
    match json_count_at(line, Seq::<Seq<char>>::empty().push("num_turns"@)) {
        Some(n) => if n <= u32::MAX {
            Some(n as u32)
        } else {
            None
        },
        None => None,
    }
}

/// What the record on `line` holds, given its type. A record of the assistant counts only
/// with a message; `system` and `init` are records of the system.
pub open spec fn record_of(line: Seq<char>, kind: Seq<char>) -> RecordModel {
    if kind == "assistant"@ && json_kind_at(line, message_path()) == Some(JsonKind::Object) {
        RecordModel::Assistant { usage: usage_of(line), content: content_of(line) }
    } else if kind == "system"@ || kind == "init"@ {
        RecordModel::System
    } else if kind == "result"@ {
        RecordModel::Result { num_turns: turns_of(line), models: models_of(line) }
    } else {
        RecordModel::Other
    }
}

/// The record on `line`. An empty line holds none, and neither does a line on which no
/// string gives the record's type.
pub open spec fn entry_of(line: Seq<char>) -> Option<EntryModel> {
    if line.len() == 0 {
        None
    } else {
        match json_text_at(line, Seq::<Seq<char>>::empty().push("type"@)) {
            Some(kind) => Some(
                EntryModel {
                    timestamp: json_text_at(line, Seq::<Seq<char>>::empty().push("timestamp"@)),
                    record: record_of(line, kind),
                },
            ),
            None => None,
        }
    }
}

/// The records on `lines`, in their order, without the lines that hold none.
pub open spec fn entries_of(lines: Seq<Seq<char>>) -> Seq<EntryModel>
    decreases lines.len(),
{
    if lines.len() == 0 {
        Seq::<EntryModel>::empty()
    } else {
        let before = entries_of(lines.drop_last());
        match entry_of(lines.last()) {
            Some(e) => before.push(e),
            None => before,
        }
    }
}

/// Reads the token counts of the record on `line`.
pub fn read_usage(line: &str) -> (r: Option<Usage>)
    ensures
        r == usage_of(line@),
{
    let at = under(&under(&root(), "message"), "usage");
    match json_kind(line, &at) {
        Some(JsonKind::Object) => Some(
            Usage {
                input_tokens: json_count(line, &under(&at, "input_tokens")),
                output_tokens: json_count(line, &under(&at, "output_tokens")),
                cache_creation_input_tokens: json_count(
                    line,
                    &under(&at, "cache_creation_input_tokens"),
                ),
                cache_read_input_tokens: json_count(line, &under(&at, "cache_read_input_tokens")),
            },
        ),
        _ => None,
    }
}

/// Reads the block at place `i` of the message on `line`.
pub fn read_item(line: &str, i: usize) -> (r: ContentItem)
    ensures
        r@ == item_of(line@, i as nat),
{
    let mut place = String::new();
    push_decimal(&mut place, i as u64);
    assert(place@ =~= decimal(i as nat));
    let at = under(&under(&under(&root(), "message"), "content"), place.as_str());
    let kind = match json_text(line, &under(&at, "type")) {
        Some(k) => k,
        None => String::new(),
    };
    ContentItem {
        kind,
        text: json_text(line, &under(&at, "text")),
        thinking: json_text(line, &under(&at, "thinking")),
        name: json_text(line, &under(&at, "name")),
    }
}

/// Reads the blocks of the message on `line`.
pub fn read_content(line: &str) -> (r: Vec<ContentItem>)
    ensures
        items(r@) == content_of(line@),
{
    let mut r: Vec<ContentItem> = Vec::new();
    match json_len(line, &under(&under(&root(), "message"), "content")) {
        Some(n) => {
            let mut i: usize = 0;
            while i < n
                invariant
                    i <= n,
                    r@.len() == i,
                    forall|k: int| 0 <= k < i ==> (#[trigger] r@[k])@ == item_of(line@, k as nat),
                decreases n - i,
            {
                r.push(read_item(line, i));
                i += 1;
            }
            assert(items(r@) =~= content_of(line@));
        },
        None => {
            assert(items(r@) =~= content_of(line@));
        },
    }
    r
}

/// Reads what the final result on `line` reports of its models.
pub fn read_models(line: &str) -> (r: Vec<ModelUsage>)
    ensures
        r@ == models_of(line@),
{
    let mut r: Vec<ModelUsage> = Vec::new();
    let at = under(&root(), "modelUsage");
    match json_keys(line, &at) {
        Some(names) => {
            let mut i: usize = 0;
            while i < names.len()
                invariant
                    i <= names.len(),
                    r@.len() == i,
                    texts(at@) == models_path(),
                    forall|k: int| 0 <= k < i ==> #[trigger] r@[k] == model_of(line@, names@[k]@),
                decreases names.len() - i,
            {
                let model = under(&at, names[i].as_str());
                r.push(
                    ModelUsage {
                        output_tokens: json_count(line, &under(&model, "outputTokens")),
                        context_window: json_count(line, &under(&model, "contextWindow")),
                    },
                );
                i += 1;
            }
            assert(r@ =~= models_of(line@));
        },
        None => {
            assert(r@ =~= models_of(line@));
        },
    }
    r
}

/// Reads the number of turns that the final result on `line` reports.
pub fn read_turns(line: &str) -> (r: Option<u32>)
    ensures
        r == turns_of(line@),
{
    match json_count(line, &under(&root(), "num_turns")) {
        Some(n) => if n <= 0xffff_ffff {
            Some(n as u32)
        } else {
            None
        },
        None => None,
    }
}

/// Reads the record on `line`.
pub fn read_entry(line: &str) -> (r: Option<Entry>)
    ensures
        match r {
            Some(e) => entry_of(line@) == Some(e@),
            None => entry_of(line@) is None,
        },
{
    if line.unicode_len() == 0 {
        return None;
    }
    let kind = match json_text(line, &under(&root(), "type")) {
        Some(k) => k,
        None => {
            return None;
        },
    };
    let timestamp = json_text(line, &under(&root(), "timestamp"));
    let with_message = match json_kind(line, &under(&root(), "message")) {
        Some(JsonKind::Object) => true,
        _ => false,
    };
    let record = if same_text(kind.as_str(), "assistant") && with_message {
        Record::Assistant { usage: read_usage(line), content: read_content(line) }
    } else if same_text(kind.as_str(), "system") || same_text(kind.as_str(), "init") {
        Record::System
    } else if same_text(kind.as_str(), "result") {
        Record::Result { num_turns: read_turns(line), models: read_models(line) }
    } else {
        Record::Other
    };
    Some(Entry { timestamp, record })
}

/// Reads the records of a transcript, line by line. Empty lines and lines that cannot be
/// read as a record are passed over.
pub fn read_entries(content: &str) -> (r: Vec<Entry>)
    ensures
        entries(r@) == entries_of(lines_of(content@)),
{
    let all = lines(content);
    let mut r: Vec<Entry> = Vec::new();
    let mut i: usize = 0;
    assert(texts(all@).take(0) =~= Seq::<Seq<char>>::empty());
    assert(entries(r@) =~= Seq::<EntryModel>::empty());
    while i < all.len()
        invariant
            i <= all.len(),
            entries(r@) == entries_of(texts(all@).take(i as int)),
        decreases all.len() - i,
    {
        proof {
            assert(texts(all@).take(i + 1).drop_last() =~= texts(all@).take(i as int));
            assert(texts(all@).take(i + 1).last() == all@[i as int]@);
        }
        let ghost before = entries(r@);
        match read_entry(all[i].as_str()) {
            Some(e) => {
                r.push(e);
                assert(entries(r@) =~= before.push(e@));
            },
            None => {},
        }
        i += 1;
    }
    assert(texts(all@).take(all.len() as int) =~= texts(all@));
    r
}

/// The metrics of the session whose transcript holds `content`: what a scan of its
/// records gathers. A transcript without a readable record gives none.
pub fn read_transcript(content: &str) -> (r: Option<TranscriptMetrics>)
    ensures
        match scan_result(entries_of(lines_of(content@))) {
            Some(m) => r is Some && r->Some_0@ == m,
            None => r is None,
        },
{
    let records = read_entries(content);
    parse_transcript(&records)
}

/// Whether the record on `line` is of one of the types `exclude_types`. A line that
/// names no type is of none.
pub open spec fn excluded(line: Seq<char>, exclude_types: Seq<Seq<char>>) -> bool {
    match json_text_at(line, Seq::<Seq<char>>::empty().push("type"@)) {
        Some(kind) => exclude_types.contains(kind),
        None => false,
    }
}

/// Whether the record on `line` is left out of a log that leaves out the types
/// `exclude_types`.
pub fn is_excluded(line: &str, exclude_types: &Vec<String>) -> (r: bool)
    ensures
        r == excluded(line@, texts(exclude_types@)),
{
    match json_text(line, &under(&root(), "type")) {
        Some(kind) => texts_contain(exclude_types, kind.as_str()),
        None => false,
    }
}

} // verus!
