use std::collections::VecDeque;
use vstd::prelude::*;

verus! {

/// Most messages the log keeps; past it the oldest is evicted.
pub const CAPACITY: usize = 100;

/// What a log holds: its messages, newest first, and the status line.
pub struct LogView {
    pub messages: Seq<Seq<char>>,
    pub status: Seq<char>,
}

impl LogView {
    /// The log after `msg` is appended as the newest message.
    pub open spec fn push(self, msg: Seq<char>) -> LogView {
        LogView { messages: bounded_push(self.messages, msg), status: self.status }
    }

    /// The log after its status line is replaced by `text`.
    pub open spec fn with_status(self, text: Seq<char>) -> LogView {
        LogView { messages: self.messages, status: text }
    }
}

/// `msg` put in front of `messages`, dropping the oldest entry past `CAPACITY`.
pub open spec fn bounded_push(messages: Seq<Seq<char>>, msg: Seq<char>) -> Seq<Seq<char>> {
    let grown = seq![msg] + messages;
    if grown.len() > CAPACITY {
        grown.drop_last()
    } else {
        grown
    }
}

/// The log after each of `msgs` is appended in turn, first to last.
pub open spec fn push_all(v: LogView, msgs: Seq<Seq<char>>) -> LogView
    decreases msgs.len(),
{
    if msgs.len() == 0 {
        v
    } else {
        push_all(v, msgs.drop_last()).push(msgs.last())
    }
}

/// The last `CAPACITY` entries of `msgs` (all of them if fewer), last first.
pub open spec fn newest_first(msgs: Seq<Seq<char>>) -> Seq<Seq<char>> {
    let n = if msgs.len() > CAPACITY { CAPACITY as nat } else { msgs.len() };
    Seq::new(n, |i: int| msgs[msgs.len() - 1 - i])
}

/// Appending messages to an empty log, in any number, leaves exactly the
/// `CAPACITY` most recent of them, newest first; the log never grows past
/// `CAPACITY`.
pub proof fn lemma_push_all_keeps_newest(status: Seq<char>, msgs: Seq<Seq<char>>)
    ensures
        push_all(LogView { messages: seq![], status }, msgs).messages == newest_first(msgs),
        push_all(LogView { messages: seq![], status }, msgs).messages.len() <= CAPACITY,
        push_all(LogView { messages: seq![], status }, msgs).status == status,
    decreases msgs.len(),
{
    if msgs.len() > 0 {
        let init = msgs.drop_last();
        lemma_push_all_keeps_newest(status, init);
        assert(bounded_push(newest_first(init), msgs.last()) =~= newest_first(msgs));
    } else {
        assert(newest_first(msgs) =~= seq![]);
    }
}

/// Appending to a log that holds at most `CAPACITY` messages, any number of
/// times, leaves it holding at most `CAPACITY`.
pub proof fn lemma_push_all_bounded(v: LogView, msgs: Seq<Seq<char>>)
    requires
        v.messages.len() <= CAPACITY,
    ensures
        push_all(v, msgs).messages.len() <= CAPACITY,
    decreases msgs.len(),
{
    if msgs.len() > 0 {
        lemma_push_all_bounded(v, msgs.drop_last());
    }
}

/// Right after a message is appended, the newest entry is that message,
/// unchanged.
pub proof fn lemma_push_then_newest(v: LogView, msg: Seq<char>)
    ensures
        v.push(msg).messages.len() > 0,
        v.push(msg).messages[0] == msg,
{
}

/// Setting the status line twice to the same text is the same as setting it
/// once.
pub proof fn lemma_set_status_idempotent(v: LogView, text: Seq<char>)
    ensures
        v.with_status(text).with_status(text) == v.with_status(text),
{
}

/// A bounded log of messages, newest first, with a status line.
#[derive(Clone)]
pub struct UI {
    message: VecDeque<String>,
    info: String,
}

impl View for UI {
    type V = LogView;

    closed spec fn view(&self) -> LogView {
        LogView { messages: self.message@.map_values(|s: String| s@), status: self.info@ }
    }
}

impl UI {
    /// The log holds at most `CAPACITY` messages.
    pub open spec fn wf(&self) -> bool {
        self@.messages.len() <= CAPACITY
    }

    /// An empty log with an empty status line.
    pub fn new() -> (r: UI)
        ensures
            r@.messages.len() == 0,
            r@.status.len() == 0,
            r.wf(),
    {
        UI { info: String::new(), message: VecDeque::new() }
    }

    /// Replaces the status line.
    pub fn set_info(&mut self, msg: String)
        ensures
            final(self)@ == old(self)@.with_status(msg@),
            old(self).wf() ==> final(self).wf(),
    {
        self.info = msg;
    }

    /// Appends `msg` as the newest message, evicting the oldest past `CAPACITY`.
    pub fn push(&mut self, msg: String)
        ensures
            final(self)@ == old(self)@.push(msg@),
            old(self).wf() ==> final(self).wf(),
    {
        let ghost before = self@;
        let ghost m = msg@;
        self.message.push_front(msg);
        if self.message.len() > CAPACITY {
            self.message.pop_back();
        }
        assert(self@.messages =~= bounded_push(before.messages, m));
    }

    /// How many messages the log holds.
    pub fn len(&self) -> (r: usize)
        ensures
            r == self@.messages.len(),
    {
        self.message.len()
    }

    /// The message at position `i`, counting from the newest.
    pub fn get(&self, i: usize) -> (r: Option<&String>)
        ensures
            i < self@.messages.len() ==> r is Some && r->Some_0@ == self@.messages[i as int],
            i >= self@.messages.len() ==> r is None,
    {
        if i < self.message.len() {
            Some(&self.message[i])
        } else {
            None
        }
    }

    /// The newest message, if any.
    pub fn newest(&self) -> (r: Option<&String>)
        ensures
            self@.messages.len() > 0 ==> r is Some && r->Some_0@ == self@.messages[0],
            self@.messages.len() == 0 ==> r is None,
    {
        self.get(0)
    }

    /// The messages, newest first.
    pub fn messages(&self) -> (r: Vec<String>)
        ensures
            r@.map_values(|s: String| s@) == self@.messages,
    {
        let mut out: Vec<String> = Vec::new();
        let mut i: usize = 0;
        while i < self.message.len()
            invariant
                i <= self.message@.len(),
                out@.map_values(|s: String| s@) =~= self@.messages.take(i as int),
            decreases self.message@.len() - i,
        {
            let ghost prev = out@;
            out.push(self.message[i].clone());
            assert(out@.map_values(|s: String| s@) =~= prev.map_values(|s: String| s@).push(
                self.message@[i as int]@,
            ));
            i = i + 1;
        }
        assert(self@.messages.take(i as int) =~= self@.messages);
        out
    }

    /// The status line.
    pub fn info(&self) -> (r: &String)
        ensures
            r@ == self@.status,
    {
        &self.info
    }
}

} // verus!
