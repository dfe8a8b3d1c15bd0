//! Spans of a trace: what a span holds, how spans are named, and the
//! attributes under which a log line is attached to one.

use vstd::prelude::*;
use vstd::string::*;
use crate::clock::Timestamp;
use crate::text::{join2, join4, text_eq};

verus! {

/// Header that carries the identifier of a trace.
pub const TRACE_ID_HEADER: &'static str = "x-trace-id";

/// Header that carries the identifier of a span.
pub const SPAN_ID_HEADER: &'static str = "x-span-id";

/// What stands before the name of every attribute of a log line.
pub const LOG_ATTRIBUTE_PREFIX: &'static str = "log.";

/// One line that was logged within a span.
#[derive(Debug)]
pub struct SpanLog {
    pub timestamp: Timestamp,
    pub level: String,
    pub message: String,
    pub fields: Vec<(String, String)>,
}

/// One span of a trace.
#[derive(Debug)]
pub struct SpanContext {
    pub trace_id: String,
    pub span_id: String,
    pub parent_span_id: Option<String>,
    pub operation_name: String,
    pub service_name: String,
    pub start_time: Timestamp,
    pub tags: Vec<(String, String)>,
    pub logs: Vec<SpanLog>,
}

/// The pairs of a list, as character sequences.
pub open spec fn pairs_view(pairs: Seq<(String, String)>) -> Seq<(Seq<char>, Seq<char>)> {
    Seq::new(pairs.len(), |i: int| (pairs[i].0@, pairs[i].1@))
}

/// Whether one of `pairs` is named `name`.
pub open spec fn names(pairs: Seq<(Seq<char>, Seq<char>)>, name: Seq<char>) -> bool {
    exists|i: int| 0 <= i < pairs.len() && (#[trigger] pairs[i]).0 == name
}

/// The attributes of a log line of the level `level` that says `message`:
/// level and message first, then each field under its name after `log.`.
pub open spec fn log_attributes_of(
    level: Seq<char>,
    message: Seq<char>,
    fields: Seq<(Seq<char>, Seq<char>)>,
) -> Seq<(Seq<char>, Seq<char>)> {
    seq![("log.level"@, level), ("log.message"@, message)] + Seq::new(
        fields.len(),
        |i: int| (LOG_ATTRIBUTE_PREFIX@ + fields[i].0, fields[i].1),
    )
}

/// The name of the span of an HTTP request.
pub fn http_span_name(method: &str, url: &str) -> (name: String)
    ensures
        name@ == method@ + " "@ + url@,
{
    let mut name = join2(method, " ");
    name.append(url);
    name
}

/// The name of the span of a database operation.
pub fn database_span_name(operation: &str, table: &str) -> (name: String)
    ensures
        name@ == "db."@ + operation@ + "."@ + table@,
{
    join4("db.", operation, ".", table)
}

/// The name of the span of a workflow.
pub fn workflow_span_name(workflow_type: &str) -> (name: String)
    ensures
        name@ == "workflow."@ + workflow_type@,
{
    join2("workflow.", workflow_type)
}

/// The attributes of the span of an HTTP request: method, address, and the
/// component that handles it.
pub fn http_span_attributes(method: &str, url: &str, component: &str) -> (attributes: Vec<
    (String, String),
>)
    ensures
        pairs_view(attributes@) == seq![
            ("http.method"@, method@),
            ("http.url"@, url@),
            ("component"@, component@),
        ],
{
    let mut attributes: Vec<(String, String)> = Vec::new();
    attributes.push((String::from_str("http.method"), String::from_str(method)));
    attributes.push((String::from_str("http.url"), String::from_str(url)));
    attributes.push((String::from_str("component"), String::from_str(component)));
    assert(pairs_view(attributes@) =~= seq![
        ("http.method"@, method@),
        ("http.url"@, url@),
        ("component"@, component@),
    ]);
    attributes
}

/// The attributes of the span of a database operation.
pub fn database_span_attributes(operation: &str, table: &str) -> (attributes: Vec<(String, String)>)
    ensures
        pairs_view(attributes@) == seq![
            ("db.type"@, "postgresql"@),
            ("db.operation"@, operation@),
            ("db.table"@, table@),
            ("component"@, "database"@),
        ],
{
    let mut attributes: Vec<(String, String)> = Vec::new();
    attributes.push((String::from_str("db.type"), String::from_str("postgresql")));
    attributes.push((String::from_str("db.operation"), String::from_str(operation)));
    attributes.push((String::from_str("db.table"), String::from_str(table)));
    attributes.push((String::from_str("component"), String::from_str("database")));
    assert(pairs_view(attributes@) =~= seq![
        ("db.type"@, "postgresql"@),
        ("db.operation"@, operation@),
        ("db.table"@, table@),
        ("component"@, "database"@),
    ]);
    attributes
}

/// The attributes of the span of a workflow.
pub fn workflow_span_attributes(workflow_id: &str, workflow_type: &str) -> (attributes: Vec<
    (String, String),
>)
    ensures
        pairs_view(attributes@) == seq![
            ("workflow.id"@, workflow_id@),
            ("workflow.type"@, workflow_type@),
            ("component"@, "workflow-engine"@),
        ],
{
    let mut attributes: Vec<(String, String)> = Vec::new();
    attributes.push((String::from_str("workflow.id"), String::from_str(workflow_id)));
    attributes.push((String::from_str("workflow.type"), String::from_str(workflow_type)));
    attributes.push((String::from_str("component"), String::from_str("workflow-engine")));
    assert(pairs_view(attributes@) =~= seq![
        ("workflow.id"@, workflow_id@),
        ("workflow.type"@, workflow_type@),
        ("component"@, "workflow-engine"@),
    ]);
    attributes
}

/// The attributes of the event that records the error `message` on a span.
pub fn error_event_attributes(message: &str) -> (attributes: Vec<(String, String)>)
    ensures
        pairs_view(attributes@) == seq![("error.type"@, message@), ("error.message"@, message@)],
{
    let mut attributes: Vec<(String, String)> = Vec::new();
    attributes.push((String::from_str("error.type"), String::from_str(message)));
    attributes.push((String::from_str("error.message"), String::from_str(message)));
    assert(pairs_view(attributes@) =~= seq![
        ("error.type"@, message@),
        ("error.message"@, message@),
    ]);
    attributes
}

/// Whether one of `pairs` is named `name`.
fn has_name(pairs: &Vec<(String, String)>, name: &str) -> (found: bool)
    ensures
        found == names(pairs_view(pairs@), name@),
{
    let mut i: usize = 0;
    while i < pairs.len()
        invariant
            i <= pairs@.len(),
            forall|k: int| 0 <= k < i ==> (#[trigger] pairs_view(pairs@)[k]).0 != name@,
        decreases pairs@.len() - i,
    {
        if text_eq(&pairs[i].0, name) {
            assert(pairs_view(pairs@)[i as int].0 == name@);
            return true;
        }
        i = i + 1;
    }
    false
}

/// Whether `headers` carry the context of a trace: the identifier of a trace
/// and that of a span.
pub fn carries_trace_context(headers: &Vec<(String, String)>) -> (carries: bool)
    ensures
        carries == (names(pairs_view(headers@), TRACE_ID_HEADER@) && names(
            pairs_view(headers@),
            SPAN_ID_HEADER@,
        )),
{
    has_name(headers, TRACE_ID_HEADER) && has_name(headers, SPAN_ID_HEADER)
}

/// The attributes under which a log line is attached to a span.
pub fn log_attributes(level: &str, message: &str, fields: &Vec<(String, String)>) -> (attributes:
    Vec<(String, String)>)
    ensures
        pairs_view(attributes@) == log_attributes_of(level@, message@, pairs_view(fields@)),
{
    let mut attributes: Vec<(String, String)> = Vec::new();
    attributes.push((String::from_str("log.level"), String::from_str(level)));
    attributes.push((String::from_str("log.message"), String::from_str(message)));
    let mut i: usize = 0;
    while i < fields.len()
        invariant
            i <= fields@.len(),
            attributes@.len() == i + 2,
            attributes@[0].0@ == "log.level"@,
            attributes@[0].1@ == level@,
            attributes@[1].0@ == "log.message"@,
            attributes@[1].1@ == message@,
            forall|k: int|
                0 <= k < i ==> (#[trigger] attributes@[k + 2]).0@ == LOG_ATTRIBUTE_PREFIX@
                    + fields@[k].0@ && attributes@[k + 2].1@ == fields@[k].1@,
        decreases fields@.len() - i,
    {
        attributes.push(
            (join2(LOG_ATTRIBUTE_PREFIX, fields[i].0.as_str()), fields[i].1.clone()),
        );
        i = i + 1;
    }
    proof {
        let got = pairs_view(attributes@);
        let want = log_attributes_of(level@, message@, pairs_view(fields@));
        assert forall|k: int| 0 <= k < got.len() implies got[k] == want[k] by {
            if k >= 2 {
                assert(attributes@[(k - 2) + 2].0@ == LOG_ATTRIBUTE_PREFIX@ + fields@[k - 2].0@);
            }
        }
    }
    attributes
}

impl SpanContext {
    /// Attaches a log line to the span.
    pub fn log(&mut self, entry: SpanLog)
        ensures
            final(self).logs@ == old(self).logs@.push(entry),
            *final(self) == (SpanContext { logs: final(self).logs, ..*old(self) }),
    {
        self.logs.push(entry);
    }
}

} // verus!
