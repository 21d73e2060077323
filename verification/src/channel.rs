//! A first-in, first-out channel, bounded or not, that never blocks its sender.

use vstd::prelude::*;

verus! {

/// What a [`Channel`] stands for.
pub struct ChannelView<M> {
    /// The messages waiting, oldest first.
    pub queue: Seq<M>,
    /// How many messages may wait at once; `None` where any number may.
    pub capacity: Option<nat>,
    /// Whether the receiving end still takes messages.
    pub open: bool,
}

impl<M> ChannelView<M> {
    /// Whether one more message would be taken.
    pub open spec fn accepts(self) -> bool {
        self.open && (self.capacity is Some ==> self.queue.len() < self.capacity->Some_0)
    }

    /// The channel after `msg` joined the queue.
    pub open spec fn with(self, msg: M) -> ChannelView<M> {
        ChannelView { queue: self.queue.push(msg), ..self }
    }

    /// The channel after an attempt to enqueue `msg`: a channel that does not
    /// accept it is left as it was.
    pub open spec fn offered(self, msg: M) -> ChannelView<M> {
        if self.accepts() {
            self.with(msg)
        } else {
            self
        }
    }

    /// The channel after its oldest message, if any, was taken out.
    pub open spec fn advanced(self) -> ChannelView<M> {
        if self.queue.len() > 0 {
            ChannelView { queue: self.queue.drop_first(), ..self }
        } else {
            self
        }
    }

    /// The oldest message waiting, if any.
    pub open spec fn front(self) -> Option<M> {
        if self.queue.len() > 0 {
            Some(self.queue.first())
        } else {
            None
        }
    }
}

/// A queue between one or more senders and one receiver. Sending fails at
/// once, handing the message back, when the channel is closed or full.
#[derive(Debug)]
pub struct Channel<M> {
    queue: Vec<M>,
    capacity: Option<usize>,
    open: bool,
}

impl<M> View for Channel<M> {
    type V = ChannelView<M>;

    closed spec fn view(&self) -> ChannelView<M> {
        ChannelView {
            queue: self.queue@,
            capacity: match self.capacity {
                Some(n) => Some(n as nat),
                None => None,
            },
            open: self.open,
        }
    }
}

impl<M> Channel<M> {
    /// An open, empty channel in which at most `capacity` messages wait.
    pub fn new(capacity: usize) -> (channel: Channel<M>)
        ensures
            channel@ == (ChannelView { queue: Seq::<M>::empty(), capacity: Some(capacity as nat), open: true }),
    {
        Channel { queue: Vec::new(), capacity: Some(capacity), open: true }
    }

    /// An open, empty channel in which any number of messages may wait: it
    /// takes whatever is sent for as long as it is open.
    pub fn unbounded() -> (channel: Channel<M>)
        ensures
            channel@ == (ChannelView { queue: Seq::<M>::empty(), capacity: None, open: true }),
    {
        Channel { queue: Vec::new(), capacity: None, open: true }
    }

    /// Whether one more message has room.
    fn has_room(&self) -> (room: bool)
        ensures
            room == (self@.capacity is Some ==> self@.queue.len() < self@.capacity->Some_0),
    {
        match self.capacity {
            Some(n) => self.queue.len() < n,
            None => true,
        }
    }

    /// Enqueues `msg`, or hands it back if the channel is closed or full.
    pub fn send(&mut self, msg: M) -> (r: Result<(), M>)
        ensures
            final(self)@ == old(self)@.offered(msg),
            r == (if old(self)@.accepts() { Ok::<(), M>(()) } else { Err::<(), M>(msg) }),
    {
        if self.open && self.has_room() {
            self.queue.push(msg);
            Ok(())
        } else {
            Err(msg)
        }
    }

    /// Takes out the oldest message waiting. Messages that were enqueued
    /// before the channel was closed can still be taken out.
    pub fn recv(&mut self) -> (r: Option<M>)
        ensures
            r == old(self)@.front(),
            final(self)@ == old(self)@.advanced(),
    {
        if self.queue.len() > 0 {
            let oldest = self.queue.remove(0);
            assert(self.queue@ =~= old(self).queue@.drop_first());
            Some(oldest)
        } else {
            None
        }
    }

    /// Closes the channel: from now on every `send` fails.
    pub fn close(&mut self)
        ensures
            final(self)@ == (ChannelView { open: false, ..old(self)@ }),
    {
        self.open = false;
    }

    /// Whether the channel is open.
    pub fn is_open(&self) -> (open: bool)
        ensures
            open == self@.open,
    {
        self.open
    }

    /// Whether a `send` would succeed now.
    pub fn accepts(&self) -> (free: bool)
        ensures
            free == self@.accepts(),
    {
        self.open && self.has_room()
    }

    /// The number of messages waiting.
    pub fn len(&self) -> (n: usize)
        ensures
            n == self@.queue.len(),
    {
        self.queue.len()
    }
}

} // verus!
