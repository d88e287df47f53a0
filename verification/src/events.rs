//! Progress events, and the lines of JSON that they are reported in.

use crate::scan::{backend_name, engine_name, Backend, Engine};
use vstd::prelude::*;
use vstd::utf8::{encode_utf8_valid_utf8, is_ascii_chars_encode_utf8, valid_utf8, valid_utf8_concat};

verus! {

/// Something that a scan reports.
#[derive(Debug, PartialEq, Eq)]
pub enum Event {
    /// The scan begins.
    Start { task_id: String, root: String, engine: Engine },
    /// Counts while the file system is read.
    Scan { files: u64, dirs: u64, bytes: u64 },
    /// The arena is about to be written.
    Write { nodes: u64 },
    /// The rows are written and being indexed.
    Index { files: u64, dirs: u64 },
    /// The scan was cancelled.
    Cancelled { task_id: String },
    /// The raw MFT was not available and a directory walk took its place.
    Fallback,
    /// The snapshot is published.
    Complete {
        task_id: String,
        backend: Backend,
        files: u64,
        dirs: u64,
        bytes: u64,
        elapsed_ms: u64,
    },
    /// The scan failed.
    Error { task_id: String, message: String },
}

/// What an event says.
pub enum EventView {
    Start { task_id: Seq<char>, root: Seq<char>, engine: Engine },
    Scan { files: u64, dirs: u64, bytes: u64 },
    Write { nodes: u64 },
    Index { files: u64, dirs: u64 },
    Cancelled { task_id: Seq<char> },
    Fallback,
    Complete {
        task_id: Seq<char>,
        backend: Backend,
        files: u64,
        dirs: u64,
        bytes: u64,
        elapsed_ms: u64,
    },
    Error { task_id: Seq<char>, message: Seq<char> },
}

impl View for Event {
    type V = EventView;

    open spec fn view(&self) -> EventView {
        match self {
            Event::Start { task_id, root, engine } => EventView::Start {
                task_id: task_id@,
                root: root@,
                engine: *engine,
            },
            Event::Scan { files, dirs, bytes } => EventView::Scan {
                files: *files,
                dirs: *dirs,
                bytes: *bytes,
            },
            Event::Write { nodes } => EventView::Write { nodes: *nodes },
            Event::Index { files, dirs } => EventView::Index { files: *files, dirs: *dirs },
            Event::Cancelled { task_id } => EventView::Cancelled { task_id: task_id@ },
            Event::Fallback => EventView::Fallback,
            Event::Complete { task_id, backend, files, dirs, bytes, elapsed_ms } =>
                EventView::Complete {
                task_id: task_id@,
                backend: *backend,
                files: *files,
                dirs: *dirs,
                bytes: *bytes,
                elapsed_ms: *elapsed_ms,
            },
            Event::Error { task_id, message } => EventView::Error {
                task_id: task_id@,
                message: message@,
            },
        }
    }
}

/// The value of a field of a JSON object.
pub enum FieldValue {
    Number(u64),
    Text(Seq<char>),
    /// Anything else.
    Other(Seq<u8>),
}

/// `serde_json::Value`, carried through unread.
#[verifier::external_type_specification]
#[verifier::external_body]
pub struct ExValue(serde_json::Value);

/// `serde_json::Map`, a JSON object.
#[verifier::external_type_specification]
#[verifier::external_body]
#[verifier::reject_recursive_types(K)]
#[verifier::reject_recursive_types(V)]
pub struct ExObject<K, V>(serde_json::Map<K, V>);

/// `serde_json::Error`, carried through unread.
#[verifier::external_type_specification]
#[verifier::external_body]
pub struct ExJsonError(serde_json::Error);

/// The fields of a JSON object.
pub uninterp spec fn object_fields(
    object: serde_json::Map<String, serde_json::Value>,
) -> Map<Seq<char>, FieldValue>;

/// The compact JSON text, in UTF-8, of an object with these fields.
pub uninterp spec fn json_bytes(fields: Map<Seq<char>, FieldValue>) -> Seq<u8>;

/// Whether an object holds numbers and texts only.
pub open spec fn flat(fields: Map<Seq<char>, FieldValue>) -> bool {
    forall|key: Seq<char>| #[trigger]
        fields.dom().contains(key) ==> !(fields[key] is Other)
}

/// No fields at all.
pub open spec fn no_fields() -> Map<Seq<char>, FieldValue> {
    Map::empty()
}

/// `serde_json::Map::new`: an object without fields.
#[verifier::external_body]
fn new_object() -> (object: serde_json::Map<String, serde_json::Value>)
    ensures
        object_fields(object) == no_fields(),
{
    serde_json::Map::new()
}

/// `serde_json::Map::insert` of a number: the field has that number, and the other
/// fields stay.
#[verifier::external_body]
fn put_number(object: &mut serde_json::Map<String, serde_json::Value>, key: &str, number: u64)
    ensures
        object_fields(*final(object)) == object_fields(*old(object)).insert(
            key@,
            FieldValue::Number(number),
        ),
{
    object.insert(key.to_owned(), serde_json::Value::from(number));
}

/// `serde_json::Map::insert` of a text: the field has that text, and the other
/// fields stay.
#[verifier::external_body]
fn put_text(object: &mut serde_json::Map<String, serde_json::Value>, key: &str, text: &str)
    ensures
        object_fields(*final(object)) == object_fields(*old(object)).insert(
            key@,
            FieldValue::Text(text@),
        ),
{
    object.insert(key.to_owned(), serde_json::Value::from(text));
}

/// `serde_json::to_writer` into a vector. It writes the compact form, in which a
/// line feed never stands: there is no white space between tokens, and control
/// characters in texts are escaped. What it writes is UTF-8, and can be read back: no
/// other object of numbers and texts is written the same. It fails only on keys that
/// are no strings, on values that refuse to be written and on writers that fail; an
/// object of numbers and texts and a vector have none of these.
#[verifier::external_body]
fn encode(object: &serde_json::Map<String, serde_json::Value>) -> (json: Result<
    Vec<u8>,
    serde_json::Error,
>)
    requires
        flat(object_fields(*object)),
    ensures
        json is Ok,
        json->Ok_0@ == json_bytes(object_fields(*object)),
        !json->Ok_0@.contains(10u8),
        valid_utf8(json->Ok_0@),
        forall|other: Map<Seq<char>, FieldValue>|
            other.dom().finite() && flat(other) && #[trigger] json_bytes(other) == json->Ok_0@
                ==> other == object_fields(*object),
{
    let mut json = Vec::new();
    serde_json::to_writer(&mut json, object)?;
    Ok(json)
}

/// Why an event could not be reported.
#[derive(Debug, Clone, Copy, PartialEq, Eq, Structural)]
pub enum EventError {
    /// The event has no JSON form.
    Encoding,
}

impl EventView {
    /// The type and the fields particular to an event.
    pub open spec fn fields(self) -> Map<Seq<char>, FieldValue> {
        let base = map!["version"@ => FieldValue::Number(1)];
        match self {
            EventView::Start { task_id, root, engine } => base.insert(
                "type"@,
                FieldValue::Text("start"@),
            ).insert("task_id"@, FieldValue::Text(task_id)).insert(
                "root"@,
                FieldValue::Text(root),
            ).insert("engine"@, FieldValue::Text(engine_name(engine))),
            EventView::Scan { files, dirs, bytes } => base.insert(
                "type"@,
                FieldValue::Text("progress"@),
            ).insert("phase"@, FieldValue::Text("scan"@)).insert(
                "files"@,
                FieldValue::Number(files),
            ).insert("dirs"@, FieldValue::Number(dirs)).insert(
                "bytes"@,
                FieldValue::Number(bytes),
            ),
            EventView::Write { nodes } => base.insert(
                "type"@,
                FieldValue::Text("progress"@),
            ).insert("phase"@, FieldValue::Text("write"@)).insert(
                "nodes"@,
                FieldValue::Number(nodes),
            ),
            EventView::Index { files, dirs } => base.insert(
                "type"@,
                FieldValue::Text("progress"@),
            ).insert("phase"@, FieldValue::Text("index"@)).insert(
                "files"@,
                FieldValue::Number(files),
            ).insert("dirs"@, FieldValue::Number(dirs)),
            EventView::Cancelled { task_id } => base.insert(
                "type"@,
                FieldValue::Text("cancelled"@),
            ).insert("task_id"@, FieldValue::Text(task_id)),
            EventView::Fallback => base.insert("type"@, FieldValue::Text("fallback"@)).insert(
                "from"@,
                FieldValue::Text("mft"@),
            ).insert("to"@, FieldValue::Text("walk"@)).insert(
                "reason"@,
                FieldValue::Text("Raw MFT scan unavailable; directory traversal used"@),
            ),
            EventView::Complete { task_id, backend, files, dirs, bytes, elapsed_ms } => base.insert(
                "type"@,
                FieldValue::Text("complete"@),
            ).insert("task_id"@, FieldValue::Text(task_id)).insert(
                "backend"@,
                FieldValue::Text(backend_name(backend)),
            ).insert("files"@, FieldValue::Number(files)).insert(
                "dirs"@,
                FieldValue::Number(dirs),
            ).insert("bytes"@, FieldValue::Number(bytes)).insert(
                "elapsed_ms"@,
                FieldValue::Number(elapsed_ms),
            ),
            EventView::Error { task_id, message } => base.insert(
                "type"@,
                FieldValue::Text("error"@),
            ).insert("task_id"@, FieldValue::Text(task_id)).insert(
                "message"@,
                FieldValue::Text(message),
            ),
        }
    }
}

/// Builds the JSON object of an event.
pub fn event_object(event: &Event) -> (object: serde_json::Map<String, serde_json::Value>)
    ensures
        object_fields(object) == event@.fields(),
{
    let mut object = new_object();
    put_number(&mut object, "version", 1);
    match event {
        Event::Start { task_id, root, engine } => {
            put_text(&mut object, "type", "start");
            put_text(&mut object, "task_id", task_id.as_str());
            put_text(&mut object, "root", root.as_str());
            put_text(&mut object, "engine", engine.name());
        },
        Event::Scan { files, dirs, bytes } => {
            put_text(&mut object, "type", "progress");
            put_text(&mut object, "phase", "scan");
            put_number(&mut object, "files", *files);
            put_number(&mut object, "dirs", *dirs);
            put_number(&mut object, "bytes", *bytes);
        },
        Event::Write { nodes } => {
            put_text(&mut object, "type", "progress");
            put_text(&mut object, "phase", "write");
            put_number(&mut object, "nodes", *nodes);
        },
        Event::Index { files, dirs } => {
            put_text(&mut object, "type", "progress");
            put_text(&mut object, "phase", "index");
            put_number(&mut object, "files", *files);
            put_number(&mut object, "dirs", *dirs);
        },
        Event::Cancelled { task_id } => {
            put_text(&mut object, "type", "cancelled");
            put_text(&mut object, "task_id", task_id.as_str());
        },
        Event::Fallback => {
            put_text(&mut object, "type", "fallback");
            put_text(&mut object, "from", "mft");
            put_text(&mut object, "to", "walk");
            put_text(
                &mut object,
                "reason",
                "Raw MFT scan unavailable; directory traversal used",
            );
        },
        Event::Complete { task_id, backend, files, dirs, bytes, elapsed_ms } => {
            put_text(&mut object, "type", "complete");
            put_text(&mut object, "task_id", task_id.as_str());
            put_text(&mut object, "backend", backend.name());
            put_number(&mut object, "files", *files);
            put_number(&mut object, "dirs", *dirs);
            put_number(&mut object, "bytes", *bytes);
            put_number(&mut object, "elapsed_ms", *elapsed_ms);
        },
        Event::Error { task_id, message } => {
            put_text(&mut object, "type", "error");
            put_text(&mut object, "task_id", task_id.as_str());
            put_text(&mut object, "message", message.as_str());
        },
    }
    object
}

/// Ends a JSON text as a line.
pub fn as_line(json: Vec<u8>) -> (line: Vec<u8>)
    ensures
        line@ == json@.push(10u8),
{
    let mut line = json;
    line.push(10);
    line
}

/// The line that reports an event: its JSON text and a line feed.
pub open spec fn line_of(event: EventView) -> Seq<u8> {
    json_bytes(event.fields()).push(10u8)
}

/// Whether bytes are one line: a line feed stands at the end and nowhere else.
pub open spec fn one_line(bytes: Seq<u8>) -> bool {
    &&& bytes.len() > 0
    &&& bytes.last() == 10
    &&& forall|i: int| 0 <= i < bytes.len() - 1 ==> #[trigger] bytes[i] != 10
}

/// Whether a line of UTF-8 reports this event and no other.
pub open spec fn tells(line: Seq<u8>, event: EventView) -> bool {
    &&& line == line_of(event)
    &&& one_line(line)
    &&& valid_utf8(line)
    &&& forall|other: EventView| #[trigger] line_of(other) == line ==> other == event
}

/// Writes the line that reports an event, from which the event can be read back.
pub fn event_line(event: &Event) -> (line: Result<Vec<u8>, EventError>)
    ensures
        line is Ok,
        tells(line->Ok_0@, event@),
{
    let object = event_object(event);
    proof {
        every_event_has_version_and_type(event@);
    }
    match encode(&object) {
        Ok(json) => {
            let ghost text = json@;
            let line = as_line(json);
            proof {
                lemma_line_feed_keeps_utf8(text);
                assert(line@.drop_last() =~= text);
                assert forall|i: int| 0 <= i < line@.len() - 1 implies #[trigger] line@[i] != 10 by {
                    assert(line@[i] == text[i]);
                    assert(text.contains(text[i]));
                }
                assert forall|other: EventView| #[trigger] line_of(other) == line@ implies other
                    == event@ by {
                    assert(line_of(other).drop_last() =~= json_bytes(other.fields()));
                    every_event_has_version_and_type(other);
                    lemma_event_fields_finite(other);
                    fields_tell_events_apart(other, event@);
                }
            }
            Ok(line)
        },
        Err(_) => Err(EventError::Encoding),
    }
}

proof fn lemma_line_feed_keeps_utf8(text: Seq<u8>)
    requires
        valid_utf8(text),
    ensures
        valid_utf8(text.push(10u8)),
{
    let feed = seq!['\n'];
    encode_utf8_valid_utf8(feed);
    is_ascii_chars_encode_utf8(feed);
    let bytes = vstd::utf8::encode_utf8(feed);
    assert(bytes =~= seq![10u8]);
    valid_utf8_concat(text, bytes);
    assert(text + bytes =~= text.push(10u8));
}

proof fn lemma_event_fields_finite(event: EventView)
    ensures
        event.fields().dom().finite(),
{
}

/// Every event says its format version and its type, and holds numbers and texts only.
pub proof fn every_event_has_version_and_type(event: EventView)
    ensures
        event.fields().dom().contains("version"@),
        event.fields()["version"@] == FieldValue::Number(1),
        event.fields().dom().contains("type"@),
        event.fields()["type"@] is Text,
        flat(event.fields()),
{
    lemma_words_differ();
}

/// Events with the same fields are the same event.
pub proof fn fields_tell_events_apart(a: EventView, b: EventView)
    requires
        a.fields() == b.fields(),
    ensures
        a == b,
{
    lemma_words_differ();
    let fields = a.fields();
    assert(fields["type"@] == b.fields()["type"@]);
    assert(fields["phase"@] == b.fields()["phase"@]);
    assert(fields["task_id"@] == b.fields()["task_id"@]);
    assert(fields["root"@] == b.fields()["root"@]);
    assert(fields["engine"@] == b.fields()["engine"@]);
    assert(fields["files"@] == b.fields()["files"@]);
    assert(fields["dirs"@] == b.fields()["dirs"@]);
    assert(fields["bytes"@] == b.fields()["bytes"@]);
    assert(fields["nodes"@] == b.fields()["nodes"@]);
    assert(fields["backend"@] == b.fields()["backend"@]);
    assert(fields["elapsed_ms"@] == b.fields()["elapsed_ms"@]);
    assert(fields["message"@] == b.fields()["message"@]);
}

/// The length and the first letter of a word.
spec fn mark(word: Seq<char>) -> (nat, char) {
    (word.len(), word[0])
}

/// The words of events differ in their length or their first letter.
proof fn lemma_words_differ()
    ensures
        mark("version"@) == (7nat, 'v'),
        mark("type"@) == (4nat, 't'),
        mark("task_id"@) == (7nat, 't'),
        mark("root"@) == (4nat, 'r'),
        mark("engine"@) == (6nat, 'e'),
        mark("phase"@) == (5nat, 'p'),
        mark("files"@) == (5nat, 'f'),
        mark("dirs"@) == (4nat, 'd'),
        mark("bytes"@) == (5nat, 'b'),
        mark("nodes"@) == (5nat, 'n'),
        mark("from"@) == (4nat, 'f'),
        mark("to"@) == (2nat, 't'),
        mark("reason"@) == (6nat, 'r'),
        mark("backend"@) == (7nat, 'b'),
        mark("elapsed_ms"@) == (10nat, 'e'),
        mark("message"@) == (7nat, 'm'),
        mark("start"@) == (5nat, 's'),
        mark("progress"@) == (8nat, 'p'),
        mark("cancelled"@) == (9nat, 'c'),
        mark("fallback"@) == (8nat, 'f'),
        mark("complete"@) == (8nat, 'c'),
        mark("error"@) == (5nat, 'e'),
        mark("scan"@) == (4nat, 's'),
        mark("write"@) == (5nat, 'w'),
        mark("index"@) == (5nat, 'i'),
        mark("auto"@) == (4nat, 'a'),
        mark("mft"@) == (3nat, 'm'),
        mark("walk"@) == (4nat, 'w'),
        mark("unknown"@) == (7nat, 'u'),
{
    reveal_strlit("version");
    reveal_strlit("type");
    reveal_strlit("task_id");
    reveal_strlit("root");
    reveal_strlit("engine");
    reveal_strlit("phase");
    reveal_strlit("files");
    reveal_strlit("dirs");
    reveal_strlit("bytes");
    reveal_strlit("nodes");
    reveal_strlit("from");
    reveal_strlit("to");
    reveal_strlit("reason");
    reveal_strlit("backend");
    reveal_strlit("elapsed_ms");
    reveal_strlit("message");
    reveal_strlit("start");
    reveal_strlit("progress");
    reveal_strlit("cancelled");
    reveal_strlit("fallback");
    reveal_strlit("complete");
    reveal_strlit("error");
    reveal_strlit("scan");
    reveal_strlit("write");
    reveal_strlit("index");
    reveal_strlit("auto");
    reveal_strlit("mft");
    reveal_strlit("walk");
    reveal_strlit("unknown");
}

/// The bytes of a log: its lines, one after the other.
pub open spec fn log_of(lines: Seq<Seq<u8>>) -> Seq<u8>
    decreases lines.len(),
{
    if lines.len() == 0 {
        Seq::empty()
    } else {
        log_of(lines.drop_last()) + lines.last()
    }
}

/// Where the last line of some bytes begins: behind their last line feed.
pub open spec fn line_start(bytes: Seq<u8>) -> nat
    decreases bytes.len(),
{
    if bytes.len() == 0 || bytes.last() == 10 {
        bytes.len()
    } else {
        line_start(bytes.drop_last())
    }
}

/// The last line of some bytes begins within them.
pub proof fn lemma_line_start_bounded(bytes: Seq<u8>)
    ensures
        line_start(bytes) <= bytes.len(),
    decreases bytes.len(),
{
    if bytes.len() > 0 {
        lemma_line_start_bounded(bytes.drop_last());
    }
}

/// The lines of a log, each with the line feed that ends it.
pub open spec fn lines_of(log: Seq<u8>) -> Seq<Seq<u8>>
    decreases log.len(),
{
    if log.len() == 0 {
        Seq::empty()
    } else {
        let start = line_start(log.drop_last()) as int;
        proof {
            lemma_line_start_bounded(log.drop_last());
        }
        lines_of(log.subrange(0, start)).push(log.subrange(start, log.len() as int))
    }
}

proof fn lemma_line_start_after_lines(before: Seq<u8>, rest: Seq<u8>)
    requires
        before.len() == 0 || before.last() == 10,
        forall|i: int| 0 <= i < rest.len() ==> #[trigger] rest[i] != 10,
    ensures
        line_start(before + rest) == before.len(),
    decreases rest.len(),
{
    if rest.len() == 0 {
        assert(before + rest =~= before);
    } else {
        assert((before + rest).last() == rest[rest.len() - 1]);
        assert((before + rest).drop_last() =~= before + rest.drop_last());
        lemma_line_start_after_lines(before, rest.drop_last());
    }
}

/// Reading a log line by line gives back the lines that were written to it, and
/// each line the event that it reports: a log of events is JSONL in UTF-8, with one
/// line to an event.
pub proof fn logs_read_back(lines: Seq<Seq<u8>>, events: Seq<EventView>)
    requires
        lines.len() == events.len(),
        forall|k: int| 0 <= k < lines.len() ==> tells(#[trigger] lines[k], events[k]),
    ensures
        lines_of(log_of(lines)) == lines,
        valid_utf8(log_of(lines)),
        log_of(lines).len() == 0 || log_of(lines).last() == 10,
        forall|k: int, other: EventView|
            0 <= k < lines.len() && #[trigger] lines_of(log_of(lines))[k] == #[trigger] line_of(
                other,
            ) ==> other == events[k],
    decreases lines.len(),
{
    if lines.len() > 0 {
        let last = lines.last();
        let before = log_of(lines.drop_last());
        let log = log_of(lines);
        logs_read_back(lines.drop_last(), events.drop_last());
        assert(tells(lines[lines.len() - 1], events[lines.len() - 1]));
        valid_utf8_concat(before, last);
        assert(log.drop_last() =~= before + last.drop_last());
        lemma_line_start_after_lines(before, last.drop_last());
        assert(log.subrange(0, before.len() as int) =~= before);
        assert(log.subrange(before.len() as int, log.len() as int) =~= last);
        assert(lines_of(log) =~= lines);
        assert forall|k: int, other: EventView|
            0 <= k < lines.len() && #[trigger] lines_of(log)[k] == #[trigger] line_of(
                other,
            ) implies other == events[k] by {
            assert(tells(lines[k], events[k]));
        }
    }
}

/// Whether an object has a field with this number.
pub open spec fn has_number(
    fields: Map<Seq<char>, FieldValue>,
    key: Seq<char>,
    number: u64,
) -> bool {
    fields.dom().contains(key) && fields[key] == FieldValue::Number(number)
}

/// Whether an object has a field with this text.
pub open spec fn has_text(
    fields: Map<Seq<char>, FieldValue>,
    key: Seq<char>,
    text: Seq<char>,
) -> bool {
    fields.dom().contains(key) && fields[key] == FieldValue::Text(text)
}

/// Every event bears its version, its type and each thing it reports, under its key and
/// with its value, and no other field.
pub proof fn events_bear_what_they_report(event: EventView)
    ensures
        has_number(event.fields(), "version"@, 1),
        match event {
            EventView::Start { task_id, root, engine } => {
                &&& event.fields().dom() == set![
                    "version"@,
                    "type"@,
                    "task_id"@,
                    "root"@,
                    "engine"@,
                ]
                &&& has_text(event.fields(), "type"@, "start"@)
                &&& has_text(event.fields(), "task_id"@, task_id)
                &&& has_text(event.fields(), "root"@, root)
                &&& has_text(event.fields(), "engine"@, match engine {
                    Engine::Auto => "auto"@,
                    Engine::Mft => "mft"@,
                    Engine::Walk => "walk"@,
                })
            },
            EventView::Scan { files, dirs, bytes } => {
                &&& event.fields().dom() == set![
                    "version"@,
                    "type"@,
                    "phase"@,
                    "files"@,
                    "dirs"@,
                    "bytes"@,
                ]
                &&& has_text(event.fields(), "type"@, "progress"@)
                &&& has_text(event.fields(), "phase"@, "scan"@)
                &&& has_number(event.fields(), "files"@, files)
                &&& has_number(event.fields(), "dirs"@, dirs)
                &&& has_number(event.fields(), "bytes"@, bytes)
            },
            EventView::Write { nodes } => {
                &&& event.fields().dom() == set!["version"@, "type"@, "phase"@, "nodes"@]
                &&& has_text(event.fields(), "type"@, "progress"@)
                &&& has_text(event.fields(), "phase"@, "write"@)
                &&& has_number(event.fields(), "nodes"@, nodes)
            },
            EventView::Index { files, dirs } => {
                &&& event.fields().dom() == set!["version"@, "type"@, "phase"@, "files"@, "dirs"@]
                &&& has_text(event.fields(), "type"@, "progress"@)
                &&& has_text(event.fields(), "phase"@, "index"@)
                &&& has_number(event.fields(), "files"@, files)
                &&& has_number(event.fields(), "dirs"@, dirs)
            },
            EventView::Cancelled { task_id } => {
                &&& event.fields().dom() == set!["version"@, "type"@, "task_id"@]
                &&& has_text(event.fields(), "type"@, "cancelled"@)
                &&& has_text(event.fields(), "task_id"@, task_id)
            },
            EventView::Fallback => {
                &&& event.fields().dom() == set!["version"@, "type"@, "from"@, "to"@, "reason"@]
                &&& has_text(event.fields(), "type"@, "fallback"@)
                &&& has_text(event.fields(), "from"@, "mft"@)
                &&& has_text(event.fields(), "to"@, "walk"@)
                &&& has_text(
                    event.fields(),
                    "reason"@,
                    "Raw MFT scan unavailable; directory traversal used"@,
                )
            },
            EventView::Complete { task_id, backend, files, dirs, bytes, elapsed_ms } => {
                &&& event.fields().dom() == set![
                    "version"@,
                    "type"@,
                    "task_id"@,
                    "backend"@,
                    "files"@,
                    "dirs"@,
                    "bytes"@,
                    "elapsed_ms"@,
                ]
                &&& has_text(event.fields(), "type"@, "complete"@)
                &&& has_text(event.fields(), "task_id"@, task_id)
                &&& has_text(event.fields(), "backend"@, match backend {
                    Backend::Mft => "mft"@,
                    Backend::Walk => "walk"@,
                    Backend::Unknown => "unknown"@,
                })
                &&& has_number(event.fields(), "files"@, files)
                &&& has_number(event.fields(), "dirs"@, dirs)
                &&& has_number(event.fields(), "bytes"@, bytes)
                &&& has_number(event.fields(), "elapsed_ms"@, elapsed_ms)
            },
            EventView::Error { task_id, message } => {
                &&& event.fields().dom() == set!["version"@, "type"@, "task_id"@, "message"@]
                &&& has_text(event.fields(), "type"@, "error"@)
                &&& has_text(event.fields(), "task_id"@, task_id)
                &&& has_text(event.fields(), "message"@, message)
            },
        },
{
    lemma_words_differ();
    let dom = event.fields().dom();
    match event {
        EventView::Start { .. } => {
            assert(dom =~= set!["version"@, "type"@, "task_id"@, "root"@, "engine"@]);
        },
        EventView::Scan { .. } => {
            assert(dom =~= set!["version"@, "type"@, "phase"@, "files"@, "dirs"@, "bytes"@]);
        },
        EventView::Write { .. } => {
            assert(dom =~= set!["version"@, "type"@, "phase"@, "nodes"@]);
        },
        EventView::Index { .. } => {
            assert(dom =~= set!["version"@, "type"@, "phase"@, "files"@, "dirs"@]);
        },
        EventView::Cancelled { .. } => {
            assert(dom =~= set!["version"@, "type"@, "task_id"@]);
        },
        EventView::Fallback => {
            assert(dom =~= set!["version"@, "type"@, "from"@, "to"@, "reason"@]);
        },
        EventView::Complete { .. } => {
            assert(dom =~= set![
                "version"@,
                "type"@,
                "task_id"@,
                "backend"@,
                "files"@,
                "dirs"@,
                "bytes"@,
                "elapsed_ms"@,
            ]);
        },
        EventView::Error { .. } => {
            assert(dom =~= set!["version"@, "type"@, "task_id"@, "message"@]);
        },
    }
}

/// An event says what it holds.
pub proof fn events_say_what_they_hold(event: Event)
    ensures
        match event {
            Event::Start { task_id, root, engine } => event@ == (EventView::Start {
                task_id: task_id@,
                root: root@,
                engine,
            }),
            Event::Scan { files, dirs, bytes } => event@ == (EventView::Scan {
                files,
                dirs,
                bytes,
            }),
            Event::Write { nodes } => event@ == (EventView::Write { nodes }),
            Event::Index { files, dirs } => event@ == (EventView::Index { files, dirs }),
            Event::Cancelled { task_id } => event@ == (EventView::Cancelled { task_id: task_id@ }),
            Event::Fallback => event@ is Fallback,
            Event::Complete { task_id, backend, files, dirs, bytes, elapsed_ms } => event@ == (
            EventView::Complete {
                task_id: task_id@,
                backend,
                files,
                dirs,
                bytes,
                elapsed_ms,
            }),
            Event::Error { task_id, message } => event@ == (EventView::Error {
                task_id: task_id@,
                message: message@,
            }),
        },
{
}

/// The line of an event is the JSON text of its fields, ended by a line feed.
pub proof fn lines_are_json_and_a_line_feed(event: EventView)
    ensures
        line_of(event).len() == json_bytes(event.fields()).len() + 1,
        line_of(event).drop_last() == json_bytes(event.fields()),
        line_of(event).last() == 10,
{
    assert(line_of(event).drop_last() =~= json_bytes(event.fields()));
}

/// A line that tells an event is the JSON text of the event's fields and one line feed,
/// which stands at the end and nowhere else, in UTF-8; it tells no other event.
pub proof fn told_events_are_in_their_lines(line: Seq<u8>, event: EventView, other: EventView)
    requires
        tells(line, event),
    ensures
        line.len() == json_bytes(event.fields()).len() + 1,
        line.drop_last() == json_bytes(event.fields()),
        line.last() == 10,
        !line.drop_last().contains(10u8),
        valid_utf8(line),
        tells(line, other) ==> other == event,
{
    lines_are_json_and_a_line_feed(event);
}

} // verus!
