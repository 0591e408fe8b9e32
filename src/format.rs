use vstd::prelude::*;
use crate::config::{LogLevel, Pattern};
use crate::text::{
    append_str, chars_of, decimal, is_single_line, lemma_concat_single_line, lemma_decimal_single_line, matches_at,
    occurs_at, push_char, push_decimal,
};

verus! {

/// One log record, borrowed from the caller for the time it is rendered.
#[derive(Debug)]
pub struct LogInfo<'a> {
    pub message: &'a str,
    pub level: LogLevel,
    pub timestamp: &'a str,
    pub file: Option<&'a str>,
    pub line: Option<u32>,
    pub thread: Option<&'a str>,
}

impl<'a> LogInfo<'a> {
    /// A record with no location and no thread.
    pub fn new(message: &'a str, level: LogLevel, timestamp: &'a str) -> (r: Self)
        ensures
            r.message == message,
            r.level == level,
            r.timestamp == timestamp,
            r.file.is_none(),
            r.line.is_none(),
            r.thread.is_none(),
    {
        LogInfo { message, level, timestamp, file: None, line: None, thread: None }
    }

    /// The same record with a source file and line.
    pub fn with_location(self, file: &'a str, line: u32) -> (r: Self)
        ensures
            r.message == self.message,
            r.level == self.level,
            r.timestamp == self.timestamp,
            r.file == Some(file),
            r.line == Some(line),
            r.thread == self.thread,
    {
        LogInfo { file: Some(file), line: Some(line), ..self }
    }

    /// The same record with a thread name.
    pub fn with_thread(self, thread: &'a str) -> (r: Self)
        ensures
            r.message == self.message,
            r.level == self.level,
            r.timestamp == self.timestamp,
            r.file == self.file,
            r.line == self.line,
            r.thread == Some(thread),
    {
        LogInfo { thread: Some(thread), ..self }
    }
}

/// A log record as plain values.
pub struct LogRecord {
    pub message: Seq<char>,
    pub level: LogLevel,
    pub timestamp: Seq<char>,
    pub file: Option<Seq<char>>,
    pub line: Option<u32>,
    pub thread: Option<Seq<char>>,
}

/// The text of an optional borrowed string.
pub open spec fn opt_view(s: Option<&str>) -> Option<Seq<char>> {
    match s {
        Some(t) => Some(t@),
        None => None,
    }
}

impl<'a> View for LogInfo<'a> {
    type V = LogRecord;

    open spec fn view(&self) -> LogRecord {
        LogRecord {
            message: self.message@,
            level: self.level,
            timestamp: self.timestamp@,
            file: opt_view(self.file),
            line: self.line,
            thread: opt_view(self.thread),
        }
    }
}

/// `[timestamp]`, the tags, then ` LEVEL: message`.
pub open spec fn tagged_line(timestamp: Seq<char>, tags: Seq<char>, level: LogLevel, message: Seq<char>) -> Seq<char> {
    "["@ + timestamp + "]"@ + tags + " "@ + level.name() + ": "@ + message
}

/// ` [file:line]` with both parts, ` [file]` with the file alone, nothing without a file.
pub open spec fn location_tag(file: Option<Seq<char>>, line: Option<u32>) -> Seq<char> {
    match file {
        Some(f) => match line {
            Some(l) => " ["@ + f + ":"@ + decimal(l as nat) + "]"@,
            None => " ["@ + f + "]"@,
        },
        None => Seq::empty(),
    }
}

/// ` [thread]` when a thread is known, nothing otherwise.
pub open spec fn thread_tag(thread: Option<Seq<char>>) -> Seq<char> {
    match thread {
        Some(t) => " ["@ + t + "]"@,
        None => Seq::empty(),
    }
}

/// `[timestamp] LEVEL: message`
pub open spec fn basic_text(info: LogRecord) -> Seq<char> {
    tagged_line(info.timestamp, Seq::empty(), info.level, info.message)
}

/// `[timestamp] [file:line] LEVEL: message`, degrading to the basic text without a file.
pub open spec fn detailed_text(info: LogRecord) -> Seq<char> {
    tagged_line(info.timestamp, location_tag(info.file, info.line), info.level, info.message)
}

/// The detailed text with the thread name after the location.
pub open spec fn extended_text(info: LogRecord) -> Seq<char> {
    tagged_line(
        info.timestamp,
        location_tag(info.file, info.line) + thread_tag(info.thread),
        info.level,
        info.message,
    )
}

/// A custom template with `{message}`, `{timestamp}` and `{level}` replaced,
/// scanning left to right; any other text is kept as it is.
pub open spec fn custom_text(template: Seq<char>, info: LogRecord) -> Seq<char>
    decreases template.len(),
{
    if template.len() == 0 {
        Seq::empty()
    } else if template.len() >= 9 && occurs_at(template, "{message}"@, 0) {
        info.message + custom_text(template.skip(9), info)
    } else if template.len() >= 11 && occurs_at(template, "{timestamp}"@, 0) {
        info.timestamp + custom_text(template.skip(11), info)
    } else if template.len() >= 7 && occurs_at(template, "{level}"@, 0) {
        info.level.name() + custom_text(template.skip(7), info)
    } else {
        seq![template[0]] + custom_text(template.skip(1), info)
    }
}

/// The text line of a record under a non-JSON pattern.
pub open spec fn pattern_text(pattern: Pattern, info: LogRecord) -> Seq<char> {
    match pattern {
        Pattern::Basic => basic_text(info),
        Pattern::Detailed => detailed_text(info),
        Pattern::Extended => extended_text(info),
        Pattern::Custom(t) => custom_text(t@, info),
        Pattern::Json => basic_text(info),
    }
}

fn push_tagged_start(out: &mut String, timestamp: &str)
    ensures
        final(out)@ == old(out)@ + "["@ + timestamp@ + "]"@,
{
    push_char(out, '[');
    append_str(out, timestamp);
    push_char(out, ']');
    proof {
        reveal_strlit("[");
        reveal_strlit("]");
    }
    assert(final(out)@ =~= old(out)@ + "["@ + timestamp@ + "]"@);
}

fn push_tagged_end(out: &mut String, level: LogLevel, message: &str)
    ensures
        final(out)@ == old(out)@ + " "@ + level.name() + ": "@ + message@,
{
    push_char(out, ' ');
    append_str(out, level.as_str());
    append_str(out, ": ");
    append_str(out, message);
    proof {
        reveal_strlit(" ");
    }
    assert(final(out)@ =~= old(out)@ + " "@ + level.name() + ": "@ + message@);
}

fn push_location(out: &mut String, file: Option<&str>, line: Option<u32>)
    ensures
        final(out)@ == old(out)@ + location_tag(opt_view(file), line),
{
    proof {
        reveal_strlit(" [");
        reveal_strlit(":");
        reveal_strlit("]");
    }
    match file {
        Some(f) => {
            append_str(out, " [");
            append_str(out, f);
            match line {
                Some(l) => {
                    push_char(out, ':');
                    push_decimal(out, l as u64);
                },
                None => {},
            }
            push_char(out, ']');
        },
        None => {},
    }
    assert(final(out)@ =~= old(out)@ + location_tag(opt_view(file), line));
}

fn push_thread(out: &mut String, thread: Option<&str>)
    ensures
        final(out)@ == old(out)@ + thread_tag(opt_view(thread)),
{
    proof {
        reveal_strlit(" [");
        reveal_strlit("]");
    }
    match thread {
        Some(t) => {
            append_str(out, " [");
            append_str(out, t);
            push_char(out, ']');
        },
        None => {},
    }
    assert(final(out)@ =~= old(out)@ + thread_tag(opt_view(thread)));
}

/// Renders `[timestamp] LEVEL: message`; location and thread are ignored.
pub fn format_basic(info: &LogInfo) -> (r: String)
    ensures
        r@ == basic_text(info@),
{
    let mut out = String::new();
    push_tagged_start(&mut out, info.timestamp);
    push_tagged_end(&mut out, info.level, info.message);
    assert(out@ =~= basic_text(info@));
    out
}

/// Renders `[timestamp] [file:line] LEVEL: message`, `[timestamp] [file] LEVEL: message`
/// without a line, and the basic text without a file.
pub fn format_detailed(info: &LogInfo) -> (r: String)
    ensures
        r@ == detailed_text(info@),
{
    let mut out = String::new();
    push_tagged_start(&mut out, info.timestamp);
    push_location(&mut out, info.file, info.line);
    push_tagged_end(&mut out, info.level, info.message);
    assert(out@ =~= detailed_text(info@));
    out
}

/// Renders the detailed text with ` [thread]` after the location.
pub fn format_extended(info: &LogInfo) -> (r: String)
    ensures
        r@ == extended_text(info@),
{
    let mut out = String::new();
    push_tagged_start(&mut out, info.timestamp);
    push_location(&mut out, info.file, info.line);
    push_thread(&mut out, info.thread);
    push_tagged_end(&mut out, info.level, info.message);
    assert(out@ =~= extended_text(info@));
    out
}

/// Renders a custom template, replacing `{message}`, `{timestamp}` and `{level}`.
pub fn format_custom(template: &str, info: &LogInfo) -> (r: String)
    ensures
        r@ == custom_text(template@, info@),
{
    let t = chars_of(template);
    let message_key = chars_of("{message}");
    let timestamp_key = chars_of("{timestamp}");
    let level_key = chars_of("{level}");
    proof {
        reveal_strlit("{message}");
        reveal_strlit("{timestamp}");
        reveal_strlit("{level}");
    }
    let mut out = String::new();
    let mut i: usize = 0;
    assert(t@.skip(0) =~= t@);
    while i < t.len()
        invariant
            t@ == template@,
            message_key@ == "{message}"@,
            timestamp_key@ == "{timestamp}"@,
            level_key@ == "{level}"@,
            "{message}"@.len() == 9,
            "{timestamp}"@.len() == 11,
            "{level}"@.len() == 7,
            i <= t.len(),
            out@ + custom_text(t@.skip(i as int), info@) == custom_text(template@, info@),
        decreases t.len() - i,
    {
        let ghost rest = t@.skip(i as int);
        assert(occurs_at(rest, "{message}"@, 0) == occurs_at(t@, "{message}"@, i as int)) by {
            if i + 9 <= t.len() {
                assert(rest.subrange(0, 9) =~= t@.subrange(i as int, i + 9));
            }
        }
        assert(occurs_at(rest, "{timestamp}"@, 0) == occurs_at(t@, "{timestamp}"@, i as int)) by {
            if i + 11 <= t.len() {
                assert(rest.subrange(0, 11) =~= t@.subrange(i as int, i + 11));
            }
        }
        assert(occurs_at(rest, "{level}"@, 0) == occurs_at(t@, "{level}"@, i as int)) by {
            if i + 7 <= t.len() {
                assert(rest.subrange(0, 7) =~= t@.subrange(i as int, i + 7));
            }
        }
        if matches_at(&t, i, &message_key) {
            append_str(&mut out, info.message);
            assert(rest.skip(9) =~= t@.skip(i + 9));
            i = i + 9;
        } else if matches_at(&t, i, &timestamp_key) {
            append_str(&mut out, info.timestamp);
            assert(rest.skip(11) =~= t@.skip(i + 11));
            i = i + 11;
        } else if matches_at(&t, i, &level_key) {
            append_str(&mut out, info.level.as_str());
            assert(rest.skip(7) =~= t@.skip(i + 7));
            i = i + 7;
        } else {
            push_char(&mut out, t[i]);
            assert(rest.skip(1) =~= t@.skip(i + 1));
            i = i + 1;
        }
    }
    assert(t@.skip(i as int) =~= Seq::<char>::empty());
    assert(out@ =~= custom_text(template@, info@));
    out
}

impl Pattern {
    /// Renders a record under this pattern; the JSON pattern has its own encoder.
    pub fn format(&self, info: &LogInfo) -> (r: String)
        requires
            !(self is Json),
        ensures
            r@ == pattern_text(*self, info@),
    {
        match self {
            Pattern::Basic => format_basic(info),
            Pattern::Detailed => format_detailed(info),
            Pattern::Extended => format_extended(info),
            Pattern::Custom(t) => format_custom(t.as_str(), info),
            Pattern::Json => format_basic(info),
        }
    }
}

/// Without a source file, the detailed text is exactly the basic text.
pub proof fn lemma_detailed_without_location(info: LogRecord)
    requires
        info.file.is_none(),
    ensures
        detailed_text(info) == basic_text(info),
{
}


/// Whether every text of a record is free of newlines.
pub open spec fn record_is_single_line(r: LogRecord) -> bool {
    &&& is_single_line(r.message)
    &&& is_single_line(r.timestamp)
    &&& (r.file matches Some(f) ==> is_single_line(f))
    &&& (r.thread matches Some(t) ==> is_single_line(t))
}

/// Level names are single lines.
pub proof fn lemma_level_name_single_line(level: LogLevel)
    ensures
        is_single_line(level.name()),
{
    reveal_strlit("ERROR");
    reveal_strlit("WARNING");
    reveal_strlit("INFO");
    reveal_strlit("DEBUG");
    reveal_strlit("TRACE");
}

proof fn lemma_tags_single_line(r: LogRecord)
    requires
        record_is_single_line(r),
    ensures
        is_single_line(location_tag(r.file, r.line)),
        is_single_line(thread_tag(r.thread)),
{
    reveal_strlit(" [");
    reveal_strlit(":");
    reveal_strlit("]");
    if let Some(f) = r.file {
        lemma_concat_single_line(" ["@, f);
        if let Some(l) = r.line {
            lemma_concat_single_line(" ["@ + f, ":"@);
            lemma_decimal_single_line(l as nat);
            lemma_concat_single_line(" ["@ + f + ":"@, decimal(l as nat));
            lemma_concat_single_line(" ["@ + f + ":"@ + decimal(l as nat), "]"@);
        } else {
            lemma_concat_single_line(" ["@ + f, "]"@);
        }
    }
    if let Some(t) = r.thread {
        lemma_concat_single_line(" ["@, t);
        lemma_concat_single_line(" ["@ + t, "]"@);
    }
}

proof fn lemma_tagged_single_line(r: LogRecord, tags: Seq<char>)
    requires
        record_is_single_line(r),
        is_single_line(tags),
    ensures
        is_single_line(tagged_line(r.timestamp, tags, r.level, r.message)),
{
    reveal_strlit("[");
    reveal_strlit("]");
    reveal_strlit(" ");
    reveal_strlit(": ");
    lemma_level_name_single_line(r.level);
    let a = "["@ + r.timestamp;
    lemma_concat_single_line("["@, r.timestamp);
    lemma_concat_single_line(a, "]"@);
    lemma_concat_single_line(a + "]"@, tags);
    lemma_concat_single_line(a + "]"@ + tags, " "@);
    lemma_concat_single_line(a + "]"@ + tags + " "@, r.level.name());
    lemma_concat_single_line(a + "]"@ + tags + " "@ + r.level.name(), ": "@);
    lemma_concat_single_line(a + "]"@ + tags + " "@ + r.level.name() + ": "@, r.message);
}

proof fn lemma_custom_single_line(template: Seq<char>, r: LogRecord)
    requires
        is_single_line(template),
        record_is_single_line(r),
    ensures
        is_single_line(custom_text(template, r)),
    decreases template.len(),
{
    if template.len() > 0 {
        let n: int = if template.len() >= 9 && occurs_at(template, "{message}"@, 0) {
            9
        } else if template.len() >= 11 && occurs_at(template, "{timestamp}"@, 0) {
            11
        } else if template.len() >= 7 && occurs_at(template, "{level}"@, 0) {
            7
        } else {
            1
        };
        lemma_custom_single_line(template.skip(n), r);
        lemma_level_name_single_line(r.level);
        lemma_concat_single_line(r.message, custom_text(template.skip(n), r));
        lemma_concat_single_line(r.timestamp, custom_text(template.skip(n), r));
        lemma_concat_single_line(r.level.name(), custom_text(template.skip(n), r));
        lemma_concat_single_line(seq![template[0]], custom_text(template.skip(n), r));
    }
}

/// A text line is a single line when the record's texts, and a custom
/// template, hold no newline.
pub proof fn lemma_pattern_text_single_line(pattern: Pattern, r: LogRecord)
    requires
        record_is_single_line(r),
        pattern matches Pattern::Custom(t) ==> is_single_line(t@),
    ensures
        is_single_line(pattern_text(pattern, r)),
{
    lemma_tags_single_line(r);
    lemma_concat_single_line(location_tag(r.file, r.line), thread_tag(r.thread));
    lemma_tagged_single_line(r, Seq::empty());
    lemma_tagged_single_line(r, location_tag(r.file, r.line));
    lemma_tagged_single_line(r, location_tag(r.file, r.line) + thread_tag(r.thread));
    if let Pattern::Custom(t) = pattern {
        lemma_custom_single_line(t@, r);
    }
}

} // verus!
