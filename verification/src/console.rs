//! The console sink's rendering: one line per entry, the level in colour.

use vstd::prelude::*;
use vstd::string::StringExecFns;
use crate::entry::{LogEntry, LogEntryView};
use crate::property::{Properties, PropertiesView};
use crate::text::{decimal, decimal_text, same_text};
use crate::timestamp::console_time_text;

verus! {

/// The escape sequence that ends a colour.
pub open spec fn reset_code() -> Seq<char> {
    "\x1b[0m"@
}

/// The escape sequence that colours a level name: red for `ERROR`, yellow for
/// `WARN`, green for `INFO`, cyan for `DEBUG`, magenta for `TRACE`, and no
/// colour for any other text.
pub open spec fn color_code(level: Seq<char>) -> Seq<char> {
    if level == "ERROR"@ {
        "\x1b[31m"@
    } else if level == "WARN"@ {
        "\x1b[33m"@
    } else if level == "INFO"@ {
        "\x1b[32m"@
    } else if level == "DEBUG"@ {
        "\x1b[36m"@
    } else if level == "TRACE"@ {
        "\x1b[35m"@
    } else {
        reset_code()
    }
}

/// The properties as `key=value`, joined by a comma and a space, in their order.
pub open spec fn joined_properties(properties: PropertiesView) -> Seq<char>
    decreases properties.len(),
{
    if properties.len() == 0 {
        Seq::empty()
    } else if properties.len() == 1 {
        properties[0].0 + "="@ + properties[0].1
    } else {
        joined_properties(properties.drop_last()) + ", "@ + properties.last().0 + "="@
            + properties.last().1
    }
}

/// The bracketed correlation id, where there is one.
pub open spec fn correlation_segment(id: Option<Seq<char>>) -> Seq<char> {
    match id {
        Some(id) => " [CorrelationId: "@ + id + "]"@,
        None => Seq::empty(),
    }
}

/// The bracketed user id, where there is one.
pub open spec fn user_segment(id: Option<Seq<char>>) -> Seq<char> {
    match id {
        Some(id) => " [UserId: "@ + id + "]"@,
        None => Seq::empty(),
    }
}

/// The bracketed properties, where there are any.
pub open spec fn properties_segment(properties: PropertiesView) -> Seq<char> {
    if properties.len() == 0 {
        Seq::empty()
    } else {
        " ["@ + joined_properties(properties) + "]"@
    }
}

/// The bracketed source place, where both file and line are known.
pub open spec fn location_segment(file: Option<Seq<char>>, line: Option<u32>) -> Seq<char> {
    match (file, line) {
        (Some(file), Some(line)) => " ["@ + file + ":"@ + decimal_text(line as nat) + "]"@,
        _ => Seq::empty(),
    }
}

/// The console line of an entry whose time is rendered as `time`:
/// `[time] LEVEL message`, the level name between its colour and the reset,
/// then the segments for correlation id, user id, properties and source place
/// that the entry has.
pub open spec fn console_line_text(time: Seq<char>, entry: LogEntryView) -> Seq<char> {
    "["@ + time + "] "@ + color_code(entry.level) + entry.level + reset_code() + " "@
        + entry.message + correlation_segment(entry.correlation_id) + user_segment(entry.user_id)
        + properties_segment(entry.properties) + location_segment(entry.file, entry.line)
}

/// The colour of a level name.
pub fn level_color(level: &str) -> (code: &'static str)
    ensures
        code@ == color_code(level@),
{
    if same_text(level, "ERROR") {
        "\x1b[31m"
    } else if same_text(level, "WARN") {
        "\x1b[33m"
    } else if same_text(level, "INFO") {
        "\x1b[32m"
    } else if same_text(level, "DEBUG") {
        "\x1b[36m"
    } else if same_text(level, "TRACE") {
        "\x1b[35m"
    } else {
        "\x1b[0m"
    }
}

fn push_correlation(line: &mut String, id: &Option<String>)
    ensures
        final(line)@ == old(line)@ + correlation_segment(crate::text::opt_text(*id)),
{
    match id {
        Some(id) => {
            line.append(" [CorrelationId: ");
            line.append(id.as_str());
            line.append("]");
            assert(line@ =~= old(line)@ + (" [CorrelationId: "@ + id@ + "]"@));
        },
        None => {
            assert(line@ =~= old(line)@ + Seq::<char>::empty());
        },
    }
}

fn push_user(line: &mut String, id: &Option<String>)
    ensures
        final(line)@ == old(line)@ + user_segment(crate::text::opt_text(*id)),
{
    match id {
        Some(id) => {
            line.append(" [UserId: ");
            line.append(id.as_str());
            line.append("]");
            assert(line@ =~= old(line)@ + (" [UserId: "@ + id@ + "]"@));
        },
        None => {
            assert(line@ =~= old(line)@ + Seq::<char>::empty());
        },
    }
}

fn push_properties(line: &mut String, properties: &Properties)
    ensures
        final(line)@ == old(line)@ + properties_segment(properties@),
{
    let count = properties.len();
    if count == 0 {
        assert(line@ =~= old(line)@ + Seq::<char>::empty());
        return ;
    }
    line.append(" [");
    let mut i: usize = 0;
    while i < count
        invariant
            i <= count,
            count == properties@.len(),
            line@ == old(line)@ + " ["@ + joined_properties(properties@.take(i as int)),
        decreases count - i,
    {
        let ghost before = properties@.take(i as int);
        let ghost now = properties@.take(i + 1);
        assert(now.drop_last() =~= before);
        assert(now.last() == properties@[i as int]);
        if i > 0 {
            line.append(", ");
        }
        line.append(properties.key_at(i));
        line.append("=");
        line.append(properties.value_at(i).as_str());
        assert(line@ =~= old(line)@ + " ["@ + joined_properties(now)) by {
            if i == 0 {
                assert(joined_properties(before) =~= Seq::<char>::empty());
                assert(now[0] == properties@[0]);
            }
        }
        i += 1;
    }
    assert(properties@.take(count as int) =~= properties@);
    line.append("]");
    assert(line@ =~= old(line)@ + (" ["@ + joined_properties(properties@) + "]"@));
}

fn push_location(line: &mut String, file: &Option<String>, number: Option<u32>)
    ensures
        final(line)@ == old(line)@ + location_segment(crate::text::opt_text(*file), number),
{
    match (file, number) {
        (Some(file), Some(number)) => {
            let digits = decimal(number);
            line.append(" [");
            line.append(file.as_str());
            line.append(":");
            line.append(digits.as_str());
            line.append("]");
            assert(line@ =~= old(line)@ + (" ["@ + file@ + ":"@ + decimal_text(number as nat)
                + "]"@));
        },
        _ => {
            assert(line@ =~= old(line)@ + Seq::<char>::empty());
        },
    }
}

/// Renders the console line of `entry`, given the rendering of its time.
pub fn compose_console_line(time: &str, entry: &LogEntry) -> (line: String)
    ensures
        line@ == console_line_text(time@, entry@),
{
    let mut line = String::new();
    line.append("[");
    line.append(time);
    line.append("] ");
    line.append(level_color(entry.level.as_str()));
    line.append(entry.level.as_str());
    line.append("\x1b[0m");
    line.append(" ");
    line.append(entry.message.as_str());
    assert(line@ =~= "["@ + time@ + "] "@ + color_code(entry@.level) + entry@.level + reset_code()
        + " "@ + entry@.message);
    push_correlation(&mut line, &entry.correlation_id);
    push_user(&mut line, &entry.user_id);
    push_properties(&mut line, &entry.properties);
    push_location(&mut line, &entry.file, entry.line);
    line
}

/// Renders the console line of `entry`, its time with millisecond precision.
pub fn console_line(entry: &LogEntry) -> (line: String)
    ensures
        line@ == console_line_text(
            console_time_text(entry@.timestamp.0, entry@.timestamp.1),
            entry@,
        ),
{
    let time = entry.timestamp.console_text();
    compose_console_line(time.as_str(), entry)
}

} // verus!
