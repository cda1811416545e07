//! The two bounded buffers of the consumer: the history of inbound messages,
//! newest first, and the log, oldest first.

use vstd::prelude::*;

verus! {

/// How many inbound messages the history keeps.
pub const HISTORY_CAPACITY: usize = 50;

/// How many log lines the log buffer keeps.
pub const LOG_CAPACITY: usize = 1000;

/// The history after one more message: the message in front, and the oldest
/// entry gone where the history was full.
pub open spec fn history_push(h: Seq<Seq<char>>, msg: Seq<char>) -> Seq<Seq<char>> {
    let grown = seq![msg] + h;
    if grown.len() > HISTORY_CAPACITY {
        grown.drop_last()
    } else {
        grown
    }
}

/// The history after the messages `msgs`, given in the order of their arrival.
pub open spec fn history_after(h: Seq<Seq<char>>, msgs: Seq<Seq<char>>) -> Seq<Seq<char>>
    decreases msgs.len(),
{
    if msgs.len() == 0 {
        h
    } else {
        history_push(history_after(h, msgs.drop_last()), msgs.last())
    }
}

/// The last `cap` elements of `msgs` at most, the last one first.
pub open spec fn newest_first(msgs: Seq<Seq<char>>, cap: nat) -> Seq<Seq<char>> {
    Seq::new(
        if msgs.len() <= cap { msgs.len() } else { cap },
        |i: int| msgs[msgs.len() - 1 - i],
    )
}

/// The log after one more line: the line at the end, and the oldest line gone
/// where the log was full.
pub open spec fn log_push(l: Seq<Seq<char>>, line: Seq<char>) -> Seq<Seq<char>> {
    let grown = l.push(line);
    if grown.len() > LOG_CAPACITY {
        grown.drop_first()
    } else {
        grown
    }
}

/// The log after the lines `lines`, given in the order of their emission.
pub open spec fn log_after(l: Seq<Seq<char>>, lines: Seq<Seq<char>>) -> Seq<Seq<char>>
    decreases lines.len(),
{
    if lines.len() == 0 {
        l
    } else {
        log_push(log_after(l, lines.drop_last()), lines.last())
    }
}

/// The last `cap` elements of `lines` at most, in their order.
pub open spec fn newest_last(lines: Seq<Seq<char>>, cap: nat) -> Seq<Seq<char>> {
    if lines.len() <= cap {
        lines
    } else {
        lines.skip(lines.len() - cap)
    }
}

/// The texts that a vector of strings holds.
pub open spec fn texts(v: Seq<String>) -> Seq<Seq<char>> {
    Seq::new(v.len(), |i: int| v[i]@)
}

/// The inbound messages that the consumer keeps, newest first.
pub struct History {
    entries: Vec<String>,
}

impl View for History {
    type V = Seq<Seq<char>>;

    closed spec fn view(&self) -> Seq<Seq<char>> {
        texts(self.entries@)
    }
}

impl History {
    #[verifier::type_invariant]
    spec fn bounded(self) -> bool {
        self.entries@.len() <= HISTORY_CAPACITY
    }

    /// An empty history.
    pub fn new() -> (h: History)
        ensures
            h@ == Seq::<Seq<char>>::empty(),
    {
        let h = History { entries: Vec::new() };
        assert(h@ =~= Seq::<Seq<char>>::empty());
        h
    }

    /// Puts `msg` in front and drops the oldest entry where the history was
    /// full.
    pub fn push(&mut self, msg: String)
        ensures
            final(self)@ == history_push(old(self)@, msg@),
            final(self)@.len() <= HISTORY_CAPACITY,
    {
        // The vector is worked on outside the struct, whose bound holds at
        // every moment.
        let mut taken = History { entries: Vec::new() };
        core::mem::swap(self, &mut taken);
        proof {
            use_type_invariant(&taken);
        }
        let mut entries = taken.entries;
        let ghost before = entries@;
        if entries.len() >= HISTORY_CAPACITY {
            entries.pop();
        }
        entries.insert(0, msg);
        assert(texts(entries@) =~= history_push(texts(before), msg@));
        *self = History { entries };
    }

    /// The number of entries.
    pub fn len(&self) -> (n: usize)
        ensures
            n == self@.len(),
            n <= HISTORY_CAPACITY,
    {
        proof {
            use_type_invariant(self);
        }
        self.entries.len()
    }

    /// The entry at `i`, counted from the newest.
    pub fn get(&self, i: usize) -> (r: Option<&String>)
        ensures
            i < self@.len() ==> r is Some && r->0@ == self@[i as int],
            i >= self@.len() ==> r is None,
    {
        if i < self.entries.len() {
            Some(&self.entries[i])
        } else {
            None
        }
    }

    /// All entries, newest first.
    pub fn entries(&self) -> (v: &Vec<String>)
        ensures
            texts(v@) == self@,
    {
        &self.entries
    }
}

/// The log lines that the consumer keeps, in the order of their emission.
pub struct LogBuffer {
    lines: Vec<String>,
}

impl View for LogBuffer {
    type V = Seq<Seq<char>>;

    closed spec fn view(&self) -> Seq<Seq<char>> {
        texts(self.lines@)
    }
}

impl LogBuffer {
    #[verifier::type_invariant]
    spec fn bounded(self) -> bool {
        self.lines@.len() <= LOG_CAPACITY
    }

    /// An empty log.
    pub fn new() -> (l: LogBuffer)
        ensures
            l@ == Seq::<Seq<char>>::empty(),
    {
        let l = LogBuffer { lines: Vec::new() };
        assert(l@ =~= Seq::<Seq<char>>::empty());
        l
    }

    /// Puts `line` at the end and drops the oldest line where the log was
    /// full.
    pub fn push(&mut self, line: String)
        ensures
            final(self)@ == log_push(old(self)@, line@),
            final(self)@.len() <= LOG_CAPACITY,
    {
        let mut taken = LogBuffer { lines: Vec::new() };
        core::mem::swap(self, &mut taken);
        proof {
            use_type_invariant(&taken);
        }
        let mut lines = taken.lines;
        let ghost before = lines@;
        if lines.len() >= LOG_CAPACITY {
            lines.remove(0);
        }
        lines.push(line);
        assert(texts(lines@) =~= log_push(texts(before), line@));
        *self = LogBuffer { lines };
    }

    /// The number of lines.
    pub fn len(&self) -> (n: usize)
        ensures
            n == self@.len(),
            n <= LOG_CAPACITY,
    {
        proof {
            use_type_invariant(self);
        }
        self.lines.len()
    }

    /// The line at `i`, counted from the oldest.
    pub fn get(&self, i: usize) -> (r: Option<&String>)
        ensures
            i < self@.len() ==> r is Some && r->0@ == self@[i as int],
            i >= self@.len() ==> r is None,
    {
        if i < self.lines.len() {
            Some(&self.lines[i])
        } else {
            None
        }
    }

    /// All lines, oldest first.
    pub fn lines(&self) -> (v: &Vec<String>)
        ensures
            texts(v@) == self@,
    {
        &self.lines
    }
}

/// A history that holds at most 50 entries holds at most 50 after any further
/// message.
pub proof fn lemma_history_never_exceeds_capacity(h: Seq<Seq<char>>, msgs: Seq<Seq<char>>)
    requires
        h.len() <= HISTORY_CAPACITY,
    ensures
        history_after(h, msgs).len() <= HISTORY_CAPACITY,
    decreases msgs.len(),
{
    if msgs.len() > 0 {
        lemma_history_never_exceeds_capacity(h, msgs.drop_last());
    }
}

/// Starting empty, the history holds the newest 50 of the messages that came,
/// or all of them where fewer came, the newest first.
pub proof fn lemma_history_keeps_newest(msgs: Seq<Seq<char>>)
    ensures
        history_after(Seq::empty(), msgs) == newest_first(msgs, HISTORY_CAPACITY as nat),
    decreases msgs.len(),
{
    if msgs.len() == 0 {
        assert(history_after(Seq::empty(), msgs) =~= newest_first(msgs, HISTORY_CAPACITY as nat));
    } else {
        let init = msgs.drop_last();
        lemma_history_keeps_newest(init);
        assert(history_push(newest_first(init, HISTORY_CAPACITY as nat), msgs.last())
            =~= newest_first(msgs, HISTORY_CAPACITY as nat));
    }
}

/// A full history that takes one more message loses its oldest entry and
/// keeps the others, each one place further back.
pub proof fn lemma_history_evicts_oldest(h: Seq<Seq<char>>, msg: Seq<char>)
    requires
        h.len() == HISTORY_CAPACITY,
    ensures
        history_push(h, msg).len() == HISTORY_CAPACITY,
        history_push(h, msg)[0] == msg,
        forall|i: int| 0 <= i < HISTORY_CAPACITY - 1 ==> history_push(h, msg)[i + 1] == h[i],
{
}

/// A log that holds at most 1000 lines holds at most 1000 after any further
/// line.
pub proof fn lemma_log_never_exceeds_capacity(l: Seq<Seq<char>>, lines: Seq<Seq<char>>)
    requires
        l.len() <= LOG_CAPACITY,
    ensures
        log_after(l, lines).len() <= LOG_CAPACITY,
    decreases lines.len(),
{
    if lines.len() > 0 {
        lemma_log_never_exceeds_capacity(l, lines.drop_last());
    }
}

/// Starting empty, the log holds the newest 1000 of the lines that came, or
/// all of them where fewer came, in the order of their emission.
pub proof fn lemma_log_keeps_newest(lines: Seq<Seq<char>>)
    ensures
        log_after(Seq::empty(), lines) == newest_last(lines, LOG_CAPACITY as nat),
    decreases lines.len(),
{
    if lines.len() == 0 {
        assert(log_after(Seq::empty(), lines) =~= newest_last(lines, LOG_CAPACITY as nat));
    } else {
        let init = lines.drop_last();
        lemma_log_keeps_newest(init);
        assert(log_push(newest_last(init, LOG_CAPACITY as nat), lines.last()) =~= newest_last(
            lines,
            LOG_CAPACITY as nat,
        ));
    }
}

/// A full log that takes one more line loses its oldest line and keeps the
/// others, each one place further to the front.
pub proof fn lemma_log_evicts_oldest(l: Seq<Seq<char>>, line: Seq<char>)
    requires
        l.len() == LOG_CAPACITY,
    ensures
        log_push(l, line).len() == LOG_CAPACITY,
        log_push(l, line)[LOG_CAPACITY - 1] == line,
        forall|i: int| 0 <= i < LOG_CAPACITY - 1 ==> log_push(l, line)[i] == l[i + 1],
{
}

} // verus!
