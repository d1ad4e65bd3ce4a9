use vstd::prelude::*;

use crate::log_entries::{extends_with, LogEntries, LogLevel, LogType};
use crate::process::make_log;

verus! {

/// The log shown to the user: every line received, in order.
#[derive(Debug)]
pub struct LogWidget {
    log: LogEntries,
}

impl View for LogWidget {
    type V = Seq<LogType>;

    closed spec fn view(&self) -> Seq<LogType> {
        self.log@
    }
}

impl LogWidget {
    pub fn new() -> (r: LogWidget)
        ensures
            r@ == Seq::<LogType>::empty(),
    {
        LogWidget { log: LogEntries::new() }
    }

    pub fn push(&mut self, entry: LogType)
        ensures
            final(self)@ == old(self)@.push(entry),
    {
        self.log.push(entry);
    }

    /// Moves every line of `log` to the end of this log, oldest first,
    /// leaving `log` empty.
    pub fn from_log_entries(&mut self, log: &mut LogEntries)
        ensures
            final(self)@ == old(self)@ + old(log)@,
            final(log)@ == Seq::<LogType>::empty(),
    {
        while log.len() > 0
            invariant
                self@ + log@ == old(self)@ + old(log)@,
            decreases log@.len(),
        {
            let ghost before = log@;
            let ghost mine = self@;
            match log.pop() {
                Some(entry) => {
                    self.log.push(entry);
                },
                None => {},
            }
            assert(mine.push(before[0]) + before.drop_first() =~= mine + before);
        }
        assert(log@ =~= Seq::<LogType>::empty());
        assert(self@ + log@ =~= self@);
    }

    /// Appends a line of the given severity and text.
    pub fn push_line(&mut self, level: LogLevel, text: String)
        ensures
            final(self)@.len() == old(self)@.len() + 1,
            final(self)@.drop_last() == old(self)@,
            final(self)@.last().is(level, text@),
    {
        let e = make_log(level, text);
        self.log.push(e);
        assert(self@.drop_last() =~= old(self)@);
    }

    pub fn entries(&self) -> (r: &LogEntries)
        ensures
            r@ == self@,
    {
        &self.log
    }
}

/// Appending one more line to a log that extends `old` extends it by one more line.
pub proof fn lemma_extends_line(
    old: Seq<LogType>,
    mid: Seq<LogType>,
    new: Seq<LogType>,
    lines: Seq<(LogLevel, Seq<char>)>,
    level: LogLevel,
    text: Seq<char>,
)
    requires
        extends_with(old, mid, lines),
        new.len() == mid.len() + 1,
        new.drop_last() == mid,
        new.last().is(level, text),
    ensures
        extends_with(old, new, lines.push((level, text))),
{
    assert(new =~= mid.push(new.last()));
    crate::log_entries::lemma_extends_push(old, mid, lines, new.last(), level, text);
}

} // verus!
