//! The shared key-event queue: a strict FIFO between the shell's message
//! loop (the single producer) and the engine's input poll (the consumer).

use std::collections::VecDeque;
use vstd::prelude::*;

use crate::input::KeyEvent;

verus! {

/// An ordered queue of pending key events. The view is the sequence of
/// events still waiting, oldest first; pushes append and pops take the
/// front, so events are consumed in exactly the order they were produced.
pub struct KeyQueue {
    events: VecDeque<KeyEvent>,
}

impl KeyQueue {
    pub closed spec fn view(&self) -> Seq<KeyEvent> {
        self.events@
    }

    /// A new queue holds no events.
    pub fn new() -> (q: Self)
        ensures
            q@ == Seq::<KeyEvent>::empty(),
    {
        KeyQueue { events: VecDeque::new() }
    }

    pub fn len(&self) -> (n: usize)
        ensures
            n == self@.len(),
    {
        self.events.len()
    }

    /// Append one event behind all the events already waiting.
    pub fn push(&mut self, event: KeyEvent)
        ensures
            final(self)@ == old(self)@.push(event),
    {
        self.events.push_back(event);
    }

    /// Poll for the oldest waiting event. The contract is total — it has
    /// no precondition and pins the result for every queue state — so a
    /// poll always returns at once: the oldest event when one waits, and
    /// no event when the queue is empty, which never blocks and never
    /// fails.
    pub fn pop(&mut self) -> (r: Option<KeyEvent>)
        ensures
            r == (if old(self)@.len() == 0 {
                None::<KeyEvent>
            } else {
                Some(old(self)@[0])
            }),
            final(self)@ == (if old(self)@.len() == 0 {
                old(self)@
            } else {
                old(self)@.drop_first()
            }),
    {
        self.events.pop_front()
    }
}

/// FIFO order. With the queue's contents being the sequence `s` of pending
/// events in push order, `pop` hands out `s[0]`, then `s[1]`, and so on:
/// after `k` pops the contents are `s.skip(k)`, and the next pop returns
/// `s[k]`, the `k`-th event pushed.
pub proof fn lemma_fifo_order(s: Seq<KeyEvent>, k: int)
    requires
        0 <= k < s.len(),
    ensures
        s.skip(k).len() == s.len() - k,
        s.skip(k)[0] == s[k],
        s.skip(k).drop_first() == s.skip(k + 1),
{
    assert(s.skip(k).drop_first() =~= s.skip(k + 1));
}

/// FIFO order across a push: an event pushed onto contents `s` is handed
/// out only after every event of `s`, and unchanged.
pub proof fn lemma_push_pop_order(s: Seq<KeyEvent>, event: KeyEvent, k: int)
    requires
        0 <= k <= s.len(),
    ensures
        s.push(event).skip(k)[0] == (if k < s.len() {
            s[k]
        } else {
            event
        }),
{
}

} // verus!
