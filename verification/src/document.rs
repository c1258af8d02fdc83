//! The file sink's rendering: one JSON document per entry, on one line.
//! Strings are escaped by `serde_json`; the document around them is laid out
//! here.

use vstd::prelude::*;
use vstd::string::StringExecFns;
use crate::entry::{LogEntry, LogEntryView};
use crate::property::{Properties, PropertiesView};
use crate::text::{decimal, decimal_text, opt_text};
use crate::timestamp::iso_time_text;

verus! {

/// The JSON string literal that `serde_json` writes for a text, quotes and
/// escapes included.
pub uninterp spec fn json_string_text(text: Seq<char>) -> Seq<char>;

/// The fields of an entry as they stand in its document: every text
/// already a JSON string literal, every property value already JSON.
#[derive(Debug)]
pub struct EncodedEntry {
    pub timestamp: String,
    pub level: String,
    pub message: String,
    pub target: String,
    pub module: Option<String>,
    pub file: Option<String>,
    pub line: Option<u32>,
    pub correlation_id: Option<String>,
    pub user_id: Option<String>,
    pub session_id: Option<String>,
    pub properties: Vec<(String, String)>,
    pub exception: Option<String>,
}

/// What an [`EncodedEntry`] holds, as plain text.
pub ghost struct EncodedEntryView {
    pub timestamp: Seq<char>,
    pub level: Seq<char>,
    pub message: Seq<char>,
    pub target: Seq<char>,
    pub module: Option<Seq<char>>,
    pub file: Option<Seq<char>>,
    pub line: Option<u32>,
    pub correlation_id: Option<Seq<char>>,
    pub user_id: Option<Seq<char>>,
    pub session_id: Option<Seq<char>>,
    pub properties: Seq<(Seq<char>, Seq<char>)>,
    pub exception: Option<Seq<char>>,
}

/// The two texts of an encoded member.
pub open spec fn member_view(member: (String, String)) -> (Seq<char>, Seq<char>) {
    (member.0@, member.1@)
}

impl View for EncodedEntry {
    type V = EncodedEntryView;

    open spec fn view(&self) -> EncodedEntryView {
        EncodedEntryView {
            timestamp: self.timestamp@,
            level: self.level@,
            message: self.message@,
            target: self.target@,
            module: opt_text(self.module),
            file: opt_text(self.file),
            line: self.line,
            correlation_id: opt_text(self.correlation_id),
            user_id: opt_text(self.user_id),
            session_id: opt_text(self.session_id),
            properties: self.properties@.map_values(|member: (String, String)| member_view(member)),
            exception: opt_text(self.exception),
        }
    }
}

/// An optional value in a document: the value, or `null`.
pub open spec fn json_or_null(value: Option<Seq<char>>) -> Seq<char> {
    match value {
        Some(text) => text,
        None => "null"@,
    }
}

/// An optional line number in a document: its decimal notation, or `null`.
pub open spec fn number_or_null(number: Option<u32>) -> Seq<char> {
    match number {
        Some(n) => decimal_text(n as nat),
        None => "null"@,
    }
}

/// The members of an object as `key:value`, joined by commas, in their order.
pub open spec fn joined_members(members: Seq<(Seq<char>, Seq<char>)>) -> Seq<char>
    decreases members.len(),
{
    if members.len() == 0 {
        Seq::empty()
    } else if members.len() == 1 {
        members[0].0 + ":"@ + members[0].1
    } else {
        joined_members(members.drop_last()) + ","@ + members.last().0 + ":"@ + members.last().1
    }
}

/// The document of an entry with the given encoded fields: one JSON object
/// that names every field of the entry, in the order in which the entry
/// declares them, the module under the key `module_path`, absent values as
/// `null`, the properties as an object of their own.
pub open spec fn document_of(fields: EncodedEntryView) -> Seq<char> {
    "{\"timestamp\":"@ + fields.timestamp + ",\"level\":"@ + fields.level + ",\"message\":"@
        + fields.message + ",\"target\":"@ + fields.target + ",\"module_path\":"@ + json_or_null(
        fields.module,
    ) + ",\"file\":"@ + json_or_null(fields.file) + ",\"line\":"@ + number_or_null(fields.line)
        + ",\"correlation_id\":"@ + json_or_null(fields.correlation_id) + ",\"user_id\":"@
        + json_or_null(fields.user_id) + ",\"session_id\":"@ + json_or_null(fields.session_id)
        + ",\"properties\":{"@ + joined_members(fields.properties) + "},\"exception\":"@
        + json_or_null(fields.exception) + "}"@
}

/// An optional text encoded: nothing stays nothing, a text becomes its
/// string literal.
pub open spec fn encoded_opt(value: Option<Seq<char>>) -> Option<Seq<char>> {
    match value {
        Some(text) => Some(json_string_text(text)),
        None => None,
    }
}

/// The properties encoded: every key as its string literal beside its value.
pub open spec fn encoded_members(properties: PropertiesView) -> Seq<(Seq<char>, Seq<char>)> {
    properties.map_values(|pair: (Seq<char>, Seq<char>)| (json_string_text(pair.0), pair.1))
}

/// The fields of an entry encoded for its document: the time in ISO 8601
/// form and every text as a string literal.
pub open spec fn encoded_entry(entry: LogEntryView) -> EncodedEntryView {
    EncodedEntryView {
        timestamp: json_string_text(iso_time_text(entry.timestamp.0, entry.timestamp.1)),
        level: json_string_text(entry.level),
        message: json_string_text(entry.message),
        target: json_string_text(entry.target),
        module: encoded_opt(entry.module),
        file: encoded_opt(entry.file),
        line: entry.line,
        correlation_id: encoded_opt(entry.correlation_id),
        user_id: encoded_opt(entry.user_id),
        session_id: encoded_opt(entry.session_id),
        properties: encoded_members(entry.properties),
        exception: encoded_opt(entry.exception),
    }
}

/// The line that the file sink appends for an entry: its document and a line
/// feed.
pub open spec fn file_line_text(entry: LogEntryView) -> Seq<char> {
    document_of(encoded_entry(entry)) + "\n"@
}

fn push_or_null(document: &mut String, value: &Option<String>)
    ensures
        final(document)@ == old(document)@ + json_or_null(opt_text(*value)),
{
    match value {
        Some(text) => document.append(text.as_str()),
        None => document.append("null"),
    }
}

fn push_members(document: &mut String, members: &Vec<(String, String)>)
    ensures
        final(document)@ == old(document)@ + joined_members(
            members@.map_values(|member: (String, String)| member_view(member)),
        ),
{
    let ghost all = members@.map_values(|member: (String, String)| member_view(member));
    let mut i: usize = 0;
    assert(joined_members(all.take(0)) =~= Seq::<char>::empty());
    assert(document@ =~= old(document)@ + joined_members(all.take(0)));
    while i < members.len()
        invariant
            i <= members.len(),
            all == members@.map_values(|member: (String, String)| member_view(member)),
            document@ == old(document)@ + joined_members(all.take(i as int)),
        decreases members.len() - i,
    {
        let ghost before = all.take(i as int);
        let ghost now = all.take(i + 1);
        assert(now.drop_last() =~= before);
        assert(now.last() == member_view(members@[i as int]));
        if i > 0 {
            document.append(",");
        }
        document.append(members[i].0.as_str());
        document.append(":");
        document.append(members[i].1.as_str());
        assert(document@ =~= old(document)@ + joined_members(now)) by {
            if i == 0 {
                assert(joined_members(before) =~= Seq::<char>::empty());
                assert(now[0] == member_view(members@[0]));
            }
        }
        i += 1;
    }
    assert(all.take(members.len() as int) =~= all);
}

/// Lays out the document of an entry from its encoded fields.
pub fn compose_document(fields: &EncodedEntry) -> (document: String)
    ensures
        document@ == document_of(fields@),
{
    let mut document = String::new();
    document.append("{\"timestamp\":");
    document.append(fields.timestamp.as_str());
    document.append(",\"level\":");
    document.append(fields.level.as_str());
    document.append(",\"message\":");
    document.append(fields.message.as_str());
    document.append(",\"target\":");
    document.append(fields.target.as_str());
    document.append(",\"module_path\":");
    push_or_null(&mut document, &fields.module);
    document.append(",\"file\":");
    push_or_null(&mut document, &fields.file);
    document.append(",\"line\":");
    match fields.line {
        Some(n) => {
            let digits = decimal(n);
            document.append(digits.as_str());
        },
        None => document.append("null"),
    }
    document.append(",\"correlation_id\":");
    push_or_null(&mut document, &fields.correlation_id);
    document.append(",\"user_id\":");
    push_or_null(&mut document, &fields.user_id);
    document.append(",\"session_id\":");
    push_or_null(&mut document, &fields.session_id);
    document.append(",\"properties\":{");
    push_members(&mut document, &fields.properties);
    document.append("},\"exception\":");
    push_or_null(&mut document, &fields.exception);
    document.append("}");
    assert(document@ =~= document_of(fields@));
    document
}

fn encode_text(text: &str) -> (literal: String)
    ensures
        literal@ == json_string_text(text@),
{
    json_string(text).unwrap()
}

fn encode_opt(value: &Option<String>) -> (encoded: Option<String>)
    ensures
        opt_text(encoded) == encoded_opt(opt_text(*value)),
{
    match value {
        Some(text) => Some(encode_text(text.as_str())),
        None => None,
    }
}

fn encode_members(properties: &Properties) -> (members: Vec<(String, String)>)
    ensures
        members@.map_values(|member: (String, String)| member_view(member)) == encoded_members(
            properties@,
        ),
{
    let count = properties.len();
    let mut members: Vec<(String, String)> = Vec::new();
    let mut i: usize = 0;
    while i < count
        invariant
            i <= count,
            count == properties@.len(),
            members@.len() == i,
            forall|j: int|
                0 <= j < i ==> member_view(#[trigger] members@[j]) == (
                    json_string_text(properties@[j].0),
                    properties@[j].1,
                ),
        decreases count - i,
    {
        let key = encode_text(properties.key_at(i));
        let value = String::from_str(properties.value_at(i).as_str());
        members.push((key, value));
        i += 1;
    }
    assert(members@.map_values(|member: (String, String)| member_view(member))
        =~= encoded_members(properties@));
    members
}

/// Encodes the fields of an entry for its document.
pub fn encode_entry(entry: &LogEntry) -> (fields: EncodedEntry)
    ensures
        fields@ == encoded_entry(entry@),
{
    let time = entry.timestamp.iso_text();
    EncodedEntry {
        timestamp: encode_text(time.as_str()),
        level: encode_text(entry.level.as_str()),
        message: encode_text(entry.message.as_str()),
        target: encode_text(entry.target.as_str()),
        module: encode_opt(&entry.module),
        file: encode_opt(&entry.file),
        line: entry.line,
        correlation_id: encode_opt(&entry.correlation_id),
        user_id: encode_opt(&entry.user_id),
        session_id: encode_opt(&entry.session_id),
        properties: encode_members(&entry.properties),
        exception: encode_opt(&entry.exception),
    }
}

/// Renders the line that the file sink appends for `entry`: its document
/// followed by a line feed.
pub fn file_line(entry: &LogEntry) -> (line: String)
    ensures
        line@ == file_line_text(entry@),
{
    let fields = encode_entry(entry);
    let mut line = compose_document(&fields);
    line.append("\n");
    line
}

/// Calls `serde_json::to_string` on a string slice. Claimed: the call
/// succeeds, since a string slice always serializes into memory, and the
/// literal that comes out is a function of the text alone.
#[verifier::external_body]
fn json_string(text: &str) -> (literal: Option<String>)
    ensures
        literal is Some,
        literal matches Some(written) ==> written@ == json_string_text(text@),
{
    serde_json::to_string(text).ok()
}

} // verus!
