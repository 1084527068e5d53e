//! The log lines kept for display: a bounded list where a message repeated
//! right after itself is counted instead of stored again.
use std::collections::VecDeque;
use std::time::SystemTime;
use vstd::prelude::*;

verus! {

/// `std::time::SystemTime`, carried through opaque.
#[verifier::external_type_specification]
#[verifier::external_body]
pub struct ExSystemTime(std::time::SystemTime);

/// Relies on `SystemTime::now`: a reading of the wall clock; nothing is known of its value.
pub assume_specification[ SystemTime::now ]() -> SystemTime;

/// How severe a log message is.
#[derive(Clone, Copy, PartialEq, Eq, Structural, Debug)]
pub enum LogLevel {
    Error,
    Warn,
    Info,
    Debug,
    Trace,
}

/// One line of the log: when it was first seen, its text and level, and how
/// many times in a row it came.
pub struct LogEntry {
    time: SystemTime,
    text: String,
    level: LogLevel,
    count: u32,
}

pub ghost struct LogEntryView {
    pub time: SystemTime,
    pub text: Seq<char>,
    pub level: LogLevel,
    pub count: nat,
}

impl View for LogEntry {
    type V = LogEntryView;

    closed spec fn view(&self) -> LogEntryView {
        LogEntryView { time: self.time, text: self.text@, level: self.level, count: self.count as nat }
    }
}

impl LogEntry {
    pub fn time(&self) -> (r: SystemTime)
        ensures
            r == self@.time,
    {
        self.time
    }

    pub fn text(&self) -> (r: &String)
        ensures
            r@ == self@.text,
    {
        &self.text
    }

    pub fn level(&self) -> (r: LogLevel)
        ensures
            r == self@.level,
    {
        self.level
    }

    pub fn count(&self) -> (r: u32)
        ensures
            r == self@.count,
    {
        self.count
    }
}

/// The number of lines kept when nothing else was asked for.
pub const DEFAULT_MAX_ENTRIES: usize = 20;

/// The lines after a message `text` of `level` arrived at `time`: a repeat of
/// the last line adds one to its count (up to `u32::MAX`), anything else is
/// a new line with count 1; then, where the lines outnumber `max`, the oldest
/// one goes.
pub open spec fn pushed(
    lines: Seq<LogEntryView>,
    max: nat,
    time: SystemTime,
    text: Seq<char>,
    level: LogLevel,
) -> Seq<LogEntryView> {
    let grown = if lines.len() > 0 && lines.last().text == text {
        let last = lines.last();
        lines.drop_last().push(
            LogEntryView { count: if last.count < u32::MAX { last.count + 1 } else { last.count }, ..last },
        )
    } else {
        lines.push(LogEntryView { time, text, level, count: 1 })
    };
    if grown.len() > max {
        grown.drop_first()
    } else {
        grown
    }
}

/// The log lines kept for display, oldest first.
pub struct GuiLogData {
    items: VecDeque<LogEntry>,
    max_logs_shown: usize,
}

impl GuiLogData {
    pub closed spec fn lines(&self) -> Seq<LogEntryView> {
        self.items@.map_values(|e: LogEntry| e@)
    }

    pub closed spec fn max_entries(&self) -> nat {
        self.max_logs_shown as nat
    }

    /// No lines yet, and room for `DEFAULT_MAX_ENTRIES`.
    pub fn new() -> (r: Self)
        ensures
            r.lines() == Seq::<LogEntryView>::empty(),
            r.max_entries() == DEFAULT_MAX_ENTRIES,
    {
        let r = GuiLogData { items: VecDeque::new(), max_logs_shown: DEFAULT_MAX_ENTRIES };
        assert(r.lines() =~= Seq::<LogEntryView>::empty());
        r
    }

    pub fn items(&self) -> (r: &VecDeque<LogEntry>)
        ensures
            r@.map_values(|e: LogEntry| e@) == self.lines(),
    {
        &self.items
    }

    pub fn max_logs_shown(&self) -> (r: usize)
        ensures
            r == self.max_entries(),
    {
        self.max_logs_shown
    }

    /// How many lines are kept from now on; the lines already there stay
    /// until the next message.
    pub fn set_max_entries(&mut self, max_logs_shown: usize)
        ensures
            final(self).lines() == old(self).lines(),
            final(self).max_entries() == max_logs_shown,
    {
        self.max_logs_shown = max_logs_shown;
    }

    /// Records the message `text` of `level`, seen at `time`.
    pub fn push_at(&mut self, time: SystemTime, text: String, level: LogLevel)
        ensures
            final(self).max_entries() == old(self).max_entries(),
            final(self).lines() == pushed(old(self).lines(), old(self).max_entries(), time, text@, level),
    {
        let ghost before = self.lines();
        let n = self.items.len();
        let repeat = n > 0 && self.items[n - 1].text == text;
        if repeat {
            let ghost items0 = self.items@;
            match self.items.pop_back() {
                Some(last) => {
                    assert(self.items@ == items0.drop_last());
                    let count = if last.count < u32::MAX { last.count + 1 } else { last.count };
                    let bumped = LogEntry { time: last.time, text: last.text, level: last.level, count };
                    self.items.push_back(bumped);
                    assert(self.lines() =~= before.drop_last().push(
                        LogEntryView { count: count as nat, ..before.last() },
                    ));
                },
                None => {},
            }
        } else {
            let entry = LogEntry { time, text, level, count: 1 };
            self.items.push_back(entry);
            assert(self.lines() =~= before.push(entry@));
        }
        let ghost grown = self.lines();
        if self.items.len() > self.max_logs_shown {
            self.items.pop_front();
            assert(self.lines() =~= grown.drop_first());
        }
    }

    /// Records the message `text` of `level`, with the time now.
    pub fn push(&mut self, text: String, level: LogLevel)
        ensures
            final(self).max_entries() == old(self).max_entries(),
            exists|time: SystemTime|
                final(self).lines() == pushed(old(self).lines(), old(self).max_entries(), time, text@, level),
    {
        let time = SystemTime::now();
        self.push_at(time, text, level);
    }
}

impl Default for GuiLogData {
    fn default() -> (r: Self)
        ensures
            r.lines() == Seq::<LogEntryView>::empty(),
            r.max_entries() == DEFAULT_MAX_ENTRIES,
    {
        GuiLogData::new()
    }
}

} // verus!
