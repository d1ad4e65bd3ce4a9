use std::collections::VecDeque;
use vstd::prelude::*;

verus! {

/// Severity of a log line, without its text.
#[derive(Clone, Copy, Debug, PartialEq, Eq, Structural)]
pub enum LogLevel {
    InfoNoPrefix,
    Info,
    Warning,
    Error,
}

/// One tagged log line.
#[derive(Debug, Clone)]
pub enum LogType {
    InfoNoPrefix(String),
    Info(String),
    Warning(String),
    Error(String),
}

impl LogType {
    pub open spec fn level(&self) -> LogLevel {
        match self {
            LogType::InfoNoPrefix(_) => LogLevel::InfoNoPrefix,
            LogType::Info(_) => LogLevel::Info,
            LogType::Warning(_) => LogLevel::Warning,
            LogType::Error(_) => LogLevel::Error,
        }
    }

    pub open spec fn text(&self) -> Seq<char> {
        match self {
            LogType::InfoNoPrefix(s) => s@,
            LogType::Info(s) => s@,
            LogType::Warning(s) => s@,
            LogType::Error(s) => s@,
        }
    }

    /// True when this line has the given severity and text.
    pub open spec fn is(&self, level: LogLevel, text: Seq<char>) -> bool {
        self.level() == level && self.text() == text
    }

    /// The prefix shown before the text of a line of the given severity.
    pub open spec fn prefix_of(level: LogLevel) -> Seq<char> {
        match level {
            LogLevel::InfoNoPrefix => Seq::empty(),
            LogLevel::Info => "[INFO] "@,
            LogLevel::Warning => "[WARN] "@,
            LogLevel::Error => "[ERR] "@,
        }
    }

    /// The line as it is shown to the user: a severity prefix, then the text.
    pub fn display_text(&self) -> (r: String)
        ensures
            r@ == LogType::prefix_of(self.level()) + self.text(),
    {
        match self {
            LogType::InfoNoPrefix(s) => s.clone(),
            LogType::Info(s) => String::from_str("[INFO] ").concat(s.as_str()),
            LogType::Warning(s) => String::from_str("[WARN] ").concat(s.as_str()),
            LogType::Error(s) => String::from_str("[ERR] ").concat(s.as_str()),
        }
    }
}


/// `new` is `old` followed by lines with the given severities and texts.
pub open spec fn extends_with(old: Seq<LogType>, new: Seq<LogType>, lines: Seq<(LogLevel, Seq<char>)>) -> bool {
    &&& new.len() == old.len() + lines.len()
    &&& new.subrange(0, old.len() as int) == old
    &&& forall|i: int| 0 <= i < lines.len() ==> (#[trigger] new[old.len() + i]).is(lines[i].0, lines[i].1)
}

/// A log extends itself by no lines, and appending no lines leaves it as is.
pub proof fn lemma_extends_empty(old: Seq<LogType>)
    ensures
        extends_with(old, old, seq![]),
        old + seq![] == old,
{
    assert(old.subrange(0, old.len() as int) =~= old);
    assert(old + seq![] =~= old);
}

pub proof fn lemma_extends_push(
    old: Seq<LogType>,
    new: Seq<LogType>,
    lines: Seq<(LogLevel, Seq<char>)>,
    e: LogType,
    level: LogLevel,
    text: Seq<char>,
)
    requires
        extends_with(old, new, lines),
        e.is(level, text),
    ensures
        extends_with(old, new.push(e), lines.push((level, text))),
{
    let n2 = new.push(e);
    let l2 = lines.push((level, text));
    assert(n2.subrange(0, old.len() as int) =~= new.subrange(0, old.len() as int));
    assert forall|i: int| 0 <= i < l2.len() implies (#[trigger] n2[old.len() + i]).is(l2[i].0, l2[i].1) by {
        if i < lines.len() {
            assert(n2[old.len() + i] == new[old.len() + i]);
        }
    }
}

pub proof fn lemma_extends_trans(
    a: Seq<LogType>,
    m: Seq<LogType>,
    b: Seq<LogType>,
    l1: Seq<(LogLevel, Seq<char>)>,
    l2: Seq<(LogLevel, Seq<char>)>,
)
    requires
        extends_with(a, m, l1),
        extends_with(m, b, l2),
    ensures
        extends_with(a, b, l1 + l2),
{
    assert(b.subrange(0, a.len() as int) =~= m.subrange(0, a.len() as int));
    assert forall|i: int| 0 <= i < (l1 + l2).len() implies (#[trigger] b[a.len() + i]).is(
        (l1 + l2)[i].0,
        (l1 + l2)[i].1,
    ) by {
        if i < l1.len() {
            assert(b[a.len() + i] == m[a.len() + i]);
        } else {
            assert(b[m.len() + (i - l1.len())] == b[a.len() + i]);
        }
    }
}

/// The last line of an extended log is the last line appended.
pub proof fn lemma_extends_last(old: Seq<LogType>, new: Seq<LogType>, lines: Seq<(LogLevel, Seq<char>)>)
    requires
        extends_with(old, new, lines),
        lines.len() > 0,
    ensures
        new.last().is(lines.last().0, lines.last().1),
{
    assert(new[old.len() + (lines.len() - 1)] == new.last());
}

/// `new` is `old`, then the lines of `mid`, then lines with the given
/// severities and texts.
pub open spec fn extends_after(
    old: Seq<LogType>,
    mid: Seq<LogType>,
    new: Seq<LogType>,
    lines: Seq<(LogLevel, Seq<char>)>,
) -> bool {
    extends_with(old + mid, new, lines)
}

/// A single line of the given severity and text.
pub open spec fn line(level: LogLevel, text: Seq<char>) -> Seq<(LogLevel, Seq<char>)> {
    seq![(level, text)]
}

/// A first-in first-out queue of log lines.
#[derive(Debug, Clone)]
pub struct LogEntries {
    entries: VecDeque<LogType>,
}

impl View for LogEntries {
    type V = Seq<LogType>;

    closed spec fn view(&self) -> Seq<LogType> {
        self.entries@
    }
}

impl LogEntries {
    pub fn new() -> (r: LogEntries)
        ensures
            r@ == Seq::<LogType>::empty(),
    {
        LogEntries { entries: VecDeque::new() }
    }

    /// Appends a line at the back.
    pub fn push(&mut self, log: LogType)
        ensures
            final(self)@ == old(self)@.push(log),
    {
        self.entries.push_back(log);
    }

    /// Removes and returns the oldest line, or `None` when the queue is empty.
    pub fn pop(&mut self) -> (r: Option<LogType>)
        ensures
            old(self)@.len() == 0 ==> r.is_none() && final(self)@ == old(self)@,
            old(self)@.len() > 0 ==> r == Some(old(self)@[0]) && final(self)@ == old(self)@.drop_first(),
    {
        self.entries.pop_front()
    }

    /// The lines in the order they were pushed.
    pub fn as_deque(&self) -> (r: &VecDeque<LogType>)
        ensures
            r@ == self@,
    {
        &self.entries
    }

    pub fn len(&self) -> (r: usize)
        ensures
            r == self@.len(),
    {
        self.entries.len()
    }

    /// Removes every line and returns them, oldest first.
    pub fn drain_all(&mut self) -> (r: Vec<LogType>)
        ensures
            r@ == old(self)@,
            final(self)@ == Seq::<LogType>::empty(),
    {
        let mut out: Vec<LogType> = Vec::new();
        while self.entries.len() > 0
            invariant
                out@ + self@ == old(self)@,
            decreases self@.len(),
        {
            let e = self.entries.pop_front();
            match e {
                Some(x) => {
                    out.push(x);
                },
                None => {},
            }
            assert(out@ + self@ =~= old(self)@);
        }
        assert(out@ =~= old(self)@);
        out
    }
}

} // verus!
