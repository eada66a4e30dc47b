//! The command mailbox: a first-in-first-out queue of [`Message`]s with
//! non-blocking consumption.
//!
//! Discipline: one producer (the event thread) appends, one consumer (the
//! driver loop) polls, delivery order is submission order, and the consumer
//! never blocks — an empty poll simply returns nothing.

use vstd::prelude::*;

use crate::command::Message;

verus! {

/// A FIFO of pending commands. Its view is the sequence of queued messages,
/// oldest first.
pub struct Mailbox {
    queue: Vec<Message>,
}

impl View for Mailbox {
    type V = Seq<Message>;

    closed spec fn view(&self) -> Seq<Message> {
        self.queue@
    }
}

impl Mailbox {
    /// An empty mailbox.
    pub fn new() -> (m: Mailbox)
        ensures
            m@ == Seq::<Message>::empty(),
    {
        Mailbox { queue: Vec::new() }
    }

    /// How many commands are waiting.
    pub fn len(&self) -> (n: usize)
        ensures
            n == self@.len(),
    {
        self.queue.len()
    }

    /// Appends a command behind every command already queued.
    pub fn send(&mut self, message: Message)
        ensures
            final(self)@ == old(self)@.push(message),
    {
        self.queue.push(message);
    }

    /// Removes and returns the oldest queued command, or nothing when the
    /// mailbox is empty. Never blocks.
    pub fn poll(&mut self) -> (polled: Option<Message>)
        ensures
            old(self)@.len() == 0 ==> polled is None && final(self)@ == old(self)@,
            old(self)@.len() > 0 ==> polled == Some(old(self)@[0]) && final(self)@ == old(self)@.skip(
                1,
            ),
    {
        if self.queue.len() == 0 {
            None
        } else {
            let front = self.queue.remove(0);
            proof {
                assert(self.queue@ =~= old(self)@.skip(1));
            }
            Some(front)
        }
    }
}

} // verus!
