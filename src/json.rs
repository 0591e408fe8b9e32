use vstd::prelude::*;
use crate::format::{opt_view, LogInfo, LogRecord};
use crate::text::{append_str, decimal, is_single_line, lemma_concat_single_line, lemma_decimal_single_line, push_char, push_decimal};
use crate::writer::payload_text;

verus! {

broadcast use vstd::string::group_string_axioms;

/// Encodes records as single-line JSON objects.
#[derive(Debug)]
pub struct JsonWriter;

/// How one character stands inside a JSON string.
pub open spec fn escape_char(c: char) -> Seq<char> {
    if c == '\\' {
        seq!['\\', '\\']
    } else if c == '"' {
        seq!['\\', '"']
    } else if c == '\n' {
        seq!['\\', 'n']
    } else if c == '\r' {
        seq!['\\', 'r']
    } else if c == '\t' {
        seq!['\\', 't']
    } else {
        seq![c]
    }
}

/// A text with backslash, double quote, newline, carriage return and tab escaped.
pub open spec fn escape_json(s: Seq<char>) -> Seq<char>
    decreases s.len(),
{
    if s.len() == 0 {
        Seq::empty()
    } else {
        escape_json(s.drop_last()) + escape_char(s.last())
    }
}

/// A quoted, escaped JSON string.
pub open spec fn json_string(s: Seq<char>) -> Seq<char> {
    seq!['"'] + escape_json(s) + seq!['"']
}

/// A JSON string, or `null` when absent.
pub open spec fn json_opt_string(s: Option<Seq<char>>) -> Seq<char> {
    match s {
        Some(t) => json_string(t),
        None => "null"@,
    }
}

/// A JSON number, or `null` when absent.
pub open spec fn json_opt_number(n: Option<u32>) -> Seq<char> {
    match n {
        Some(v) => decimal(v as nat),
        None => "null"@,
    }
}

/// The JSON object of a record: always the same six keys, in this order.
pub open spec fn json_text(info: LogRecord) -> Seq<char> {
    "{\"timestamp\":"@ + json_string(info.timestamp)
        + ",\"level\":"@ + json_string(info.level.name())
        + ",\"message\":"@ + json_string(info.message)
        + ",\"file\":"@ + json_opt_string(info.file)
        + ",\"line\":"@ + json_opt_number(info.line)
        + ",\"thread\":"@ + json_opt_string(info.thread)
        + "}"@
}

fn escape_into(out: &mut String, input: &str)
    ensures
        final(out)@ == old(out)@ + escape_json(input@),
{
    for c in it: input.chars()
        invariant
            it.seq() == input@,
            out@ == old(out)@ + escape_json(it.seq().take(it.index() as int)),
    {
        let ghost done = it.seq().take(it.index() as int);
        if c == '\\' {
            push_char(out, '\\');
            push_char(out, '\\');
        } else if c == '"' {
            push_char(out, '\\');
            push_char(out, '"');
        } else if c == '\n' {
            push_char(out, '\\');
            push_char(out, 'n');
        } else if c == '\r' {
            push_char(out, '\\');
            push_char(out, 'r');
        } else if c == '\t' {
            push_char(out, '\\');
            push_char(out, 't');
        } else {
            push_char(out, c);
        }
        proof {
            let next = it.seq().take(it.index() + 1);
            assert(next.drop_last() =~= done);
            assert(next.last() == c);
            assert(out@ =~= old(out)@ + escape_json(next));
        }
    }
    assert(input@.take(input@.len() as int) =~= input@);
}

fn push_json_string(out: &mut String, s: &str)
    ensures
        final(out)@ == old(out)@ + json_string(s@),
{
    push_char(out, '"');
    escape_into(out, s);
    push_char(out, '"');
    assert(final(out)@ =~= old(out)@ + json_string(s@));
}

fn push_json_opt_string(out: &mut String, s: Option<&str>)
    ensures
        final(out)@ == old(out)@ + json_opt_string(opt_view(s)),
{
    match s {
        Some(t) => push_json_string(out, t),
        None => append_str(out, "null"),
    }
}

impl JsonWriter {
    pub fn new() -> (r: Self) {
        JsonWriter
    }

    /// Escapes backslash, double quote, newline, carriage return and tab.
    pub fn escape_json_string(&self, input: &str) -> (r: String)
        ensures
            r@ == escape_json(input@),
    {
        let mut out = String::new();
        escape_into(&mut out, input);
        out
    }

    /// One JSON object for the record, with absent fields written as `null`.
    pub fn format_as_json(&self, log_info: &LogInfo) -> (r: String)
        ensures
            r@ == json_text(log_info@),
    {
        let mut out = String::new();
        append_str(&mut out, "{\"timestamp\":");
        push_json_string(&mut out, log_info.timestamp);
        append_str(&mut out, ",\"level\":");
        push_json_string(&mut out, log_info.level.as_str());
        append_str(&mut out, ",\"message\":");
        push_json_string(&mut out, log_info.message);
        append_str(&mut out, ",\"file\":");
        push_json_opt_string(&mut out, log_info.file);
        append_str(&mut out, ",\"line\":");
        match log_info.line {
            Some(l) => push_decimal(&mut out, l as u64),
            None => append_str(&mut out, "null"),
        }
        append_str(&mut out, ",\"thread\":");
        push_json_opt_string(&mut out, log_info.thread);
        append_str(&mut out, "}");
        assert(out@ =~= json_text(log_info@));
        out
    }
}


proof fn lemma_escape_single_line(s: Seq<char>)
    ensures
        is_single_line(escape_json(s)),
    decreases s.len(),
{
    if s.len() > 0 {
        lemma_escape_single_line(s.drop_last());
        lemma_concat_single_line(escape_json(s.drop_last()), escape_char(s.last()));
    }
}

proof fn lemma_json_string_single_line(s: Seq<char>)
    ensures
        is_single_line(json_string(s)),
{
    lemma_escape_single_line(s);
    lemma_concat_single_line(seq!['"'], escape_json(s));
    lemma_concat_single_line(seq!['"'] + escape_json(s), seq!['"']);
}

proof fn lemma_opt_string_single_line(s: Option<Seq<char>>)
    ensures
        is_single_line(json_opt_string(s)),
{
    reveal_strlit("null");
    if let Some(t) = s {
        lemma_json_string_single_line(t);
    }
}

/// A JSON record is one line: no field, however it is filled, puts a
/// newline in it, so its payload's only newline is the final one.
pub proof fn lemma_json_entry_is_one_line(record: LogRecord)
    ensures
        is_single_line(json_text(record)),
        payload_text(json_text(record)).last() == '\n',
        is_single_line(payload_text(json_text(record)).drop_last()),
{
    reveal_strlit("{\"timestamp\":");
    reveal_strlit(",\"level\":");
    reveal_strlit(",\"message\":");
    reveal_strlit(",\"file\":");
    reveal_strlit(",\"line\":");
    reveal_strlit(",\"thread\":");
    reveal_strlit("}");
    reveal_strlit("null");
    lemma_json_string_single_line(record.timestamp);
    lemma_json_string_single_line(record.level.name());
    lemma_json_string_single_line(record.message);
    lemma_opt_string_single_line(record.file);
    lemma_opt_string_single_line(record.thread);
    if let Some(v) = record.line {
        lemma_decimal_single_line(v as nat);
    }
    let part1 = "{\"timestamp\":"@ + json_string(record.timestamp);
    lemma_concat_single_line("{\"timestamp\":"@, json_string(record.timestamp));
    let part2 = part1 + ",\"level\":"@;
    lemma_concat_single_line(part1, ",\"level\":"@);
    let part3 = part2 + json_string(record.level.name());
    lemma_concat_single_line(part2, json_string(record.level.name()));
    let part4 = part3 + ",\"message\":"@;
    lemma_concat_single_line(part3, ",\"message\":"@);
    let part5 = part4 + json_string(record.message);
    lemma_concat_single_line(part4, json_string(record.message));
    let part6 = part5 + ",\"file\":"@;
    lemma_concat_single_line(part5, ",\"file\":"@);
    let part7 = part6 + json_opt_string(record.file);
    lemma_concat_single_line(part6, json_opt_string(record.file));
    let part8 = part7 + ",\"line\":"@;
    lemma_concat_single_line(part7, ",\"line\":"@);
    let part9 = part8 + json_opt_number(record.line);
    lemma_concat_single_line(part8, json_opt_number(record.line));
    let part10 = part9 + ",\"thread\":"@;
    lemma_concat_single_line(part9, ",\"thread\":"@);
    let part11 = part10 + json_opt_string(record.thread);
    lemma_concat_single_line(part10, json_opt_string(record.thread));
    lemma_concat_single_line(part11, "}"@);
    assert(payload_text(json_text(record)).drop_last() =~= json_text(record));
}

} // verus!
