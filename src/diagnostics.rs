use vstd::prelude::*;

use crate::platform::now_rfc3339;
use crate::script::{entry_views, LogEntryView, ScriptLogEntry};
use crate::text::{joined, signed_decimal, signed_decimal_string};

verus! {

/// The level of a diagnostic record.
#[derive(Debug, Clone, Copy, PartialEq, Eq, Structural)]
pub enum LogLevel {
    Info,
    Warn,
    Error,
}

/// The text that a record of this level carries.
pub open spec fn level_text(l: LogLevel) -> Seq<char> {
    match l {
        LogLevel::Info => "info"@,
        LogLevel::Warn => "warn"@,
        LogLevel::Error => "error"@,
    }
}

impl LogLevel {
    pub fn as_string(&self) -> (r: String)
        ensures
            r@ == level_text(*self),
    {
        match self {
            LogLevel::Info => String::from_str("info"),
            LogLevel::Warn => String::from_str("warn"),
            LogLevel::Error => String::from_str("error"),
        }
    }
}

/// A value that guest code hands to the print sink, as far as printing reads it.
#[derive(Debug, Clone)]
pub enum GuestValue {
    Nil,
    Boolean(bool),
    Integer(i64),
    /// A number that is not an integer, already rendered as text.
    Number(String),
    /// A string; `None` when its bytes are not valid UTF-8.
    Text(Option<String>),
    Table,
    Function,
    /// Any other kind of value, with its debug rendering.
    Other(String),
}

/// How the print sink renders a guest value.
pub open spec fn rendered(v: GuestValue) -> Seq<char> {
    match v {
        GuestValue::Nil => "nil"@,
        GuestValue::Boolean(b) => if b { "true"@ } else { "false"@ },
        GuestValue::Integer(n) => signed_decimal(n as int),
        GuestValue::Number(s) => s@,
        GuestValue::Text(Some(s)) => s@,
        GuestValue::Text(None) => "<invalid utf8>"@,
        GuestValue::Table => "[table]"@,
        GuestValue::Function => "[function]"@,
        GuestValue::Other(s) => "["@ + s@ + "]"@,
    }
}

impl GuestValue {
    /// The text of this value as the print sink shows it.
    pub fn render(&self) -> (r: String)
        ensures
            r@ == rendered(*self),
    {
        match self {
            GuestValue::Nil => String::from_str("nil"),
            GuestValue::Boolean(b) => if *b {
                String::from_str("true")
            } else {
                String::from_str("false")
            },
            GuestValue::Integer(n) => signed_decimal_string(*n),
            GuestValue::Number(s) => s.clone(),
            GuestValue::Text(Some(s)) => s.clone(),
            GuestValue::Text(None) => String::from_str("<invalid utf8>"),
            GuestValue::Table => String::from_str("[table]"),
            GuestValue::Function => String::from_str("[function]"),
            GuestValue::Other(s) => String::from_str("[").concat(s.as_str()).concat("]"),
        }
    }
}

/// The line that the print sink records for its arguments: each rendered,
/// joined by tabs.
pub open spec fn print_line(args: Seq<GuestValue>) -> Seq<char> {
    joined(args.map_values(|v: GuestValue| rendered(v)), "\t"@)
}

/// The append-only buffer of diagnostic records of one run.
pub struct LogBuffer {
    entries: Vec<ScriptLogEntry>,
}

impl View for LogBuffer {
    type V = Seq<LogEntryView>;

    closed spec fn view(&self) -> Seq<LogEntryView> {
        entry_views(self.entries@)
    }
}

impl LogBuffer {
    pub fn new() -> (r: LogBuffer)
        ensures
            r@ == Seq::<LogEntryView>::empty(),
    {
        let r = LogBuffer { entries: Vec::new() };
        assert(r@ =~= Seq::<LogEntryView>::empty());
        r
    }

    /// The number of records so far.
    pub fn len(&self) -> (r: usize)
        ensures
            r == self@.len(),
    {
        self.entries.len()
    }

    /// Appends a record with the given capture time.
    pub fn record_at(&mut self, timestamp: String, level: LogLevel, message: String)
        ensures
            final(self)@ == old(self)@.push(
                LogEntryView { timestamp: timestamp@, level: level_text(level), message: message@ },
            ),
    {
        let entry = ScriptLogEntry { timestamp, level: level.as_string(), message };
        self.entries.push(entry);
        assert(entry_views(self.entries@) =~= entry_views(old(self).entries@).push(
            LogEntryView { timestamp: timestamp@, level: level_text(level), message: message@ },
        ));
    }

    /// Appends a record stamped with the current time.
    pub fn record(&mut self, level: LogLevel, message: String)
        ensures
            final(self)@.len() == old(self)@.len() + 1,
            final(self)@.drop_last() == old(self)@,
            final(self)@.last().level == level_text(level),
            final(self)@.last().message == message@,
            final(self)@.last().timestamp.len() > 0,
    {
        let now = now_rfc3339();
        self.record_at(now, level, message);
        assert(self@.drop_last() =~= old(self)@);
    }

    /// The print sink: records the rendered arguments, tab-separated, at
    /// level info.
    pub fn print(&mut self, args: &Vec<GuestValue>)
        ensures
            final(self)@.len() == old(self)@.len() + 1,
            final(self)@.drop_last() == old(self)@,
            final(self)@.last().level == level_text(LogLevel::Info),
            final(self)@.last().message == print_line(args@),
    {
        let mut parts: Vec<String> = Vec::new();
        let mut i: usize = 0;
        while i < args.len()
            invariant
                i <= args@.len(),
                parts@.len() == i,
                forall|j: int| 0 <= j < i ==> parts@[j]@ == rendered(args@[j]),
            decreases args@.len() - i,
        {
            parts.push(args[i].render());
            i = i + 1;
        }
        let line = crate::text::join_with(&parts, "\t");
        assert(parts@.map_values(|p: String| p@) =~= args@.map_values(|v: GuestValue| rendered(v)));
        self.record(LogLevel::Info, line);
    }

    /// A copy of the records, in emission order.
    pub fn entries(&self) -> (r: Vec<ScriptLogEntry>)
        ensures
            entry_views(r@) == self@,
    {
        let mut out: Vec<ScriptLogEntry> = Vec::new();
        let mut i: usize = 0;
        while i < self.entries.len()
            invariant
                i <= self.entries@.len(),
                out@.len() == i,
                forall|j: int| 0 <= j < i ==> out@[j]@ == self.entries@[j]@,
            decreases self.entries@.len() - i,
        {
            let e = &self.entries[i];
            out.push(
                ScriptLogEntry {
                    timestamp: e.timestamp.clone(),
                    level: e.level.clone(),
                    message: e.message.clone(),
                },
            );
            i = i + 1;
        }
        assert(entry_views(out@) =~= self@);
        out
    }

    /// Hands over the records, in emission order.
    pub fn into_entries(self) -> (r: Vec<ScriptLogEntry>)
        ensures
            entry_views(r@) == self@,
    {
        self.entries
    }
}

/// Records of a prefix of the calls, as `lemma_records_in_call_order` states them.
proof fn lemma_records_prefix(
    states: Seq<Seq<LogEntryView>>,
    calls: Seq<(LogLevel, Seq<char>)>,
    m: int,
)
    requires
        states.len() == calls.len() + 1,
        states[0].len() == 0,
        0 <= m <= calls.len(),
        forall|k: int|
            0 <= k < calls.len() ==> {
                &&& #[trigger] states[k + 1].len() == states[k].len() + 1
                &&& states[k + 1].drop_last() == states[k]
                &&& states[k + 1].last().level == level_text(calls[k].0)
                &&& states[k + 1].last().message == calls[k].1
            },
    ensures
        states[m].len() == m,
        forall|k: int|
            0 <= k < m ==> #[trigger] states[m][k].level == level_text(calls[k].0)
                && states[m][k].message == calls[k].1,
    decreases m,
{
    if m > 0 {
        lemma_records_prefix(states, calls, m - 1);
        let prev = states[m - 1];
        let cur = states[m];
        assert(states[(m - 1) + 1].len() == states[m - 1].len() + 1);
        assert forall|k: int| 0 <= k < m implies #[trigger] cur[k].level == level_text(calls[k].0)
            && cur[k].message == calls[k].1 by {
            if k < m - 1 {
                assert(cur.drop_last()[k] == cur[k]);
                assert(prev[k] == cur[k]);
            }
        }
    }
}

/// Diagnostics keep call order: when a run makes leveled log calls one
/// after another on an empty buffer, each appending one record as `record`
/// does, the buffer ends up holding exactly one record per call, with the
/// call's level and message, in call order.
pub proof fn lemma_records_in_call_order(
    states: Seq<Seq<LogEntryView>>,
    calls: Seq<(LogLevel, Seq<char>)>,
)
    requires
        states.len() == calls.len() + 1,
        states[0].len() == 0,
        forall|k: int|
            0 <= k < calls.len() ==> {
                &&& #[trigger] states[k + 1].len() == states[k].len() + 1
                &&& states[k + 1].drop_last() == states[k]
                &&& states[k + 1].last().level == level_text(calls[k].0)
                &&& states[k + 1].last().message == calls[k].1
            },
    ensures
        states.last().len() == calls.len(),
        forall|k: int|
            0 <= k < calls.len() ==> #[trigger] states.last()[k].level == level_text(calls[k].0)
                && states.last()[k].message == calls[k].1,
{
    lemma_records_prefix(states, calls, calls.len() as int);
}

} // verus!
