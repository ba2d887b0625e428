use vstd::prelude::*;
use crate::stream::{chunk_len, delivered, read_chunk_len, read_delivery, MAX_READ_CHUNK};

verus! {

/// The outcome of polling a future once: still running, or finished with a value.
#[derive(Debug, PartialEq, Eq)]
pub enum Polled<T> {
    Pending,
    Ready(T),
}

/// How a finished socket operation came out, as far as the bookkeeping cares.
#[derive(Debug, Clone, Copy, PartialEq, Eq, Structural)]
pub enum Completion {
    Succeeded,
    Failed,
}

/// The slot in which a stream keeps one kind of operation between two polls.
#[derive(Debug, Clone, Copy, PartialEq, Eq, Structural)]
pub enum OpSlot {
    /// No operation is stored: the next poll starts a new one.
    Idle,
    /// An operation is stored and has not finished yet.
    InFlight,
    /// A finished operation is still stored: polling it again panics.
    Spent,
}

/// The four operations that a stream drives through its slots.
#[derive(Debug, Clone, Copy, PartialEq, Eq, Structural)]
pub enum StreamOp {
    Read,
    Write,
    Flush,
    Shutdown,
}

/// The socket call that an operation of the stream makes.
#[derive(Debug, Clone, Copy, PartialEq, Eq, Structural)]
pub enum SocketCall {
    RecvFrom,
    SendTo,
    Flush,
}

/// The socket call behind each operation: a shutdown flushes, it does not close.
pub open spec fn call_of(op: StreamOp) -> SocketCall {
    match op {
        StreamOp::Read => SocketCall::RecvFrom,
        StreamOp::Write => SocketCall::SendTo,
        StreamOp::Flush => SocketCall::Flush,
        StreamOp::Shutdown => SocketCall::Flush,
    }
}

/// Whether a failure of the operation is returned early with `?`, before its slot is
/// cleared (reads and writes), rather than handed on after clearing it (flush, shutdown).
pub open spec fn returns_failure_early(op: StreamOp) -> bool {
    op == StreamOp::Read || op == StreamOp::Write
}

/// The state of an operation's slot after its stored future has been polled.
pub open spec fn slot_after(op: StreamOp, polled: Polled<Completion>) -> OpSlot {
    match polled {
        Polled::Pending => OpSlot::InFlight,
        Polled::Ready(Completion::Succeeded) => OpSlot::Idle,
        Polled::Ready(Completion::Failed) => if returns_failure_early(op) {
            OpSlot::Spent
        } else {
            OpSlot::Idle
        },
    }
}

/// The socket call made by a stream operation.
pub fn socket_call(op: StreamOp) -> (c: SocketCall)
    ensures
        c == call_of(op),
{
    match op {
        StreamOp::Read => SocketCall::RecvFrom,
        StreamOp::Write => SocketCall::SendTo,
        StreamOp::Flush => SocketCall::Flush,
        StreamOp::Shutdown => SocketCall::Flush,
    }
}

/// How a polled operation came out, as far as the bookkeeping cares.
pub open spec fn completion_of<T, E>(polled: Polled<Result<T, E>>) -> Polled<Completion> {
    match polled {
        Polled::Pending => Polled::Pending,
        Polled::Ready(Ok(_)) => Polled::Ready(Completion::Succeeded),
        Polled::Ready(Err(_)) => Polled::Ready(Completion::Failed),
    }
}

/// The operation slots that all clones of one stream share.
#[derive(Debug)]
pub struct StreamSlots {
    read: OpSlot,
    write: OpSlot,
    flush: OpSlot,
    close: OpSlot,
    /// The length of the chunk handed to the read that was last started.
    read_chunk: usize,
}

impl StreamSlots {
    /// A read is never given a chunk larger than the largest one.
    #[verifier::type_invariant]
    spec fn chunk_bounded(self) -> bool {
        self.read_chunk <= MAX_READ_CHUNK
    }

    /// The length of the chunk handed to the read that was last started.
    pub closed spec fn recorded_chunk(self) -> nat {
        self.read_chunk as nat
    }

    /// The slot that holds operations of kind `op`.
    pub closed spec fn slot(self, op: StreamOp) -> OpSlot {
        match op {
            StreamOp::Read => self.read,
            StreamOp::Write => self.write,
            StreamOp::Flush => self.flush,
            StreamOp::Shutdown => self.close,
        }
    }

    /// The slots of `self` and `other` agree, but for that of `op` (and, where `op` is a
    /// read, the length of the chunk recorded for it).
    pub open spec fn same_except(self, other: StreamSlots, op: StreamOp) -> bool {
        &&& forall|o: StreamOp| o != op ==> #[trigger] self.slot(o) == other.slot(o)
        &&& op != StreamOp::Read ==> self.recorded_chunk() == other.recorded_chunk()
    }

    /// The slots of a new stream: all empty.
    pub fn new() -> (s: StreamSlots)
        ensures
            forall|op: StreamOp| #[trigger] s.slot(op) == OpSlot::Idle,
            s.recorded_chunk() == 0,
    {
        StreamSlots {
            read: OpSlot::Idle,
            write: OpSlot::Idle,
            flush: OpSlot::Idle,
            close: OpSlot::Idle,
            read_chunk: 0,
        }
    }

    /// The state of the slot of `op`.
    pub fn get(&self, op: StreamOp) -> (s: OpSlot)
        ensures
            s == self.slot(op),
    {
        match op {
            StreamOp::Read => self.read,
            StreamOp::Write => self.write,
            StreamOp::Flush => self.flush,
            StreamOp::Shutdown => self.close,
        }
    }

    /// The length of the chunk handed to the read that was last started: never more
    /// than the largest chunk.
    pub fn read_chunk(&self) -> (n: usize)
        ensures
            n == self.recorded_chunk(),
            n <= MAX_READ_CHUNK,
    {
        proof {
            use_type_invariant(self);
        }
        self.read_chunk
    }

    fn set(&mut self, op: StreamOp, s: OpSlot)
        ensures
            final(self).slot(op) == s,
            final(self).same_except(*old(self), op),
            final(self).recorded_chunk() == old(self).recorded_chunk(),
    {
        proof {
            use_type_invariant(&*self);
        }
        match op {
            StreamOp::Read => self.read = s,
            StreamOp::Write => self.write = s,
            StreamOp::Flush => self.flush = s,
            StreamOp::Shutdown => self.close = s,
        }
    }

    /// First half of a poll of `op`: whether a new operation must be started, which is so
    /// exactly when the slot is empty; the slot then holds an unfinished operation.
    /// A slot that still holds a finished operation cannot be polled again.
    pub fn begin_poll(&mut self, op: StreamOp) -> (start: bool)
        requires
            old(self).slot(op) != OpSlot::Spent,
        ensures
            start == (old(self).slot(op) == OpSlot::Idle),
            final(self).slot(op) == OpSlot::InFlight,
            final(self).same_except(*old(self), op),
            final(self).recorded_chunk() == old(self).recorded_chunk(),
    {
        let start = match self.get(op) {
            OpSlot::Idle => true,
            _ => false,
        };
        self.set(op, OpSlot::InFlight);
        start
    }

    /// Second half of a poll of `op`: records what polling its stored operation gave.
    pub fn finish_poll(&mut self, op: StreamOp, polled: Polled<Completion>)
        requires
            old(self).slot(op) == OpSlot::InFlight,
        ensures
            final(self).slot(op) == slot_after(op, polled),
            final(self).same_except(*old(self), op),
            final(self).recorded_chunk() == old(self).recorded_chunk(),
    {
        let next = match polled {
            Polled::Pending => OpSlot::InFlight,
            Polled::Ready(Completion::Succeeded) => OpSlot::Idle,
            Polled::Ready(Completion::Failed) => match op {
                StreamOp::Read => OpSlot::Spent,
                StreamOp::Write => OpSlot::Spent,
                StreamOp::Flush => OpSlot::Idle,
                StreamOp::Shutdown => OpSlot::Idle,
            },
        };
        self.set(op, next);
    }

    /// Finishes a poll of a write, flush or shutdown, given what polling its stored
    /// operation gave: records it in the slot, and answers the caller with it unchanged.
    pub fn finish_transfer<T, E>(&mut self, op: StreamOp, polled: Polled<Result<T, E>>) -> (answer:
        Polled<Result<T, E>>)
        requires
            old(self).slot(op) == OpSlot::InFlight,
        ensures
            answer == polled,
            final(self).slot(op) == slot_after(op, completion_of(polled)),
            final(self).same_except(*old(self), op),
            final(self).recorded_chunk() == old(self).recorded_chunk(),
    {
        let completion = match &polled {
            Polled::Pending => Polled::Pending,
            Polled::Ready(Ok(_)) => Polled::Ready(Completion::Succeeded),
            Polled::Ready(Err(_)) => Polled::Ready(Completion::Failed),
        };
        self.finish_poll(op, completion);
        polled
    }

    /// First half of a poll of a read, `remaining` being the room left in the caller's
    /// buffer: where the read slot is empty, the length of the chunk that the new read is
    /// given to fill, which is recorded; where a read is in flight, `None`: it is resumed.
    /// A read slot that still holds a finished read cannot be polled again.
    pub fn begin_read(&mut self, remaining: usize) -> (chunk: Option<usize>)
        requires
            old(self).slot(StreamOp::Read) != OpSlot::Spent,
        ensures
            old(self).slot(StreamOp::Read) == OpSlot::Idle ==> chunk == Some(chunk_len(remaining as nat) as usize)
                && final(self).recorded_chunk() == chunk_len(remaining as nat),
            old(self).slot(StreamOp::Read) == OpSlot::InFlight ==> chunk is None && final(self).recorded_chunk()
                == old(self).recorded_chunk(),
            final(self).slot(StreamOp::Read) == OpSlot::InFlight,
            final(self).same_except(*old(self), StreamOp::Read),
            final(self).recorded_chunk() <= MAX_READ_CHUNK,
    {
        let start = self.begin_poll(StreamOp::Read);
        proof {
            use_type_invariant(&*self);
        }
        if start {
            let n = read_chunk_len(remaining);
            let ghost before = *self;
            self.read_chunk = n;
            assert(forall|o: StreamOp| #[trigger] self.slot(o) == before.slot(o));
            Some(n)
        } else {
            None
        }
    }

    /// Second half of a poll of a read, given what polling the stored read gave (the
    /// chunk it filled, which is the one `begin_read` recorded, and the number of bytes the
    /// socket wrote into it): records it in the slot, and answers the caller with the bytes
    /// to append to its buffer, at most the recorded chunk and so at most the largest one.
    /// Nothing is appended while the read is pending or where it failed. Appending more
    /// than the `remaining` room of the caller's buffer is refused (it panics), so that
    /// must not be.
    pub fn finish_read<E>(&mut self, polled: Polled<Result<(Vec<u8>, usize), E>>, remaining: usize) -> (answer:
        Polled<Result<Vec<u8>, E>>)
        requires
            old(self).slot(StreamOp::Read) == OpSlot::InFlight,
            polled matches Polled::Ready(Ok((c, n))) ==> c.len() == old(self).recorded_chunk() && n
                <= c.len() && n <= remaining,
        ensures
            final(self).slot(StreamOp::Read) == slot_after(StreamOp::Read, completion_of(polled)),
            final(self).same_except(*old(self), StreamOp::Read),
            final(self).recorded_chunk() == old(self).recorded_chunk(),
            polled is Pending ==> answer is Pending,
            polled matches Polled::Ready(Err(e)) ==> answer == Polled::<Result<Vec<u8>, E>>::Ready(
                Err(e),
            ),
            polled matches Polled::Ready(Ok((c, n))) ==> (answer matches Polled::Ready(Ok(d))
                && d@ == delivered(c@, n as nat)),
            answer matches Polled::Ready(Ok(d)) ==> d@.len() <= remaining && d@.len()
                <= old(self).recorded_chunk() <= MAX_READ_CHUNK,
    {
        proof {
            use_type_invariant(&*self);
        }
        match polled {
            Polled::Pending => {
                self.finish_poll(StreamOp::Read, Polled::Pending);
                Polled::Pending
            },
            Polled::Ready(Err(e)) => {
                self.finish_poll(StreamOp::Read, Polled::Ready(Completion::Failed));
                Polled::Ready(Err(e))
            },
            Polled::Ready(Ok((chunk, n))) => {
                self.finish_poll(StreamOp::Read, Polled::Ready(Completion::Succeeded));
                Polled::Ready(Ok(read_delivery(chunk, n)))
            },
        }
    }
}

impl Default for StreamSlots {
    /// All slots empty, as in a new stream.
    fn default() -> (s: StreamSlots)
        ensures
            forall|op: StreamOp| #[trigger] s.slot(op) == OpSlot::Idle,
            s.recorded_chunk() == 0,
    {
        StreamSlots::new()
    }
}

/// Law: an operation that has not finished is resumed by the next poll, never started
/// again; one that succeeded is never polled again: the next poll starts a new one.
pub proof fn lemma_resume_or_restart(op: StreamOp)
    ensures
        slot_after(op, Polled::Pending) == OpSlot::InFlight,
        slot_after(op, Polled::Ready(Completion::Succeeded)) == OpSlot::Idle,
{
}

/// Law: a slot is left holding a finished operation exactly when a read or a write
/// failed; a failed flush or shutdown frees its slot.
pub proof fn lemma_spent_only_after_failed_transfer(op: StreamOp, polled: Polled<Completion>)
    ensures
        (slot_after(op, polled) == OpSlot::Spent) <==> (polled == Polled::Ready(
            Completion::Failed,
        ) && (op == StreamOp::Read || op == StreamOp::Write)),
{
}

/// Law: a read started by `begin_read` can always be finished while the caller's buffer
/// still has the room recorded for it: whatever the socket wrote into the chunk of that
/// length fits, and is exactly what the socket read.
pub proof fn lemma_recorded_chunk_fits(slots: StreamSlots, chunk: Seq<u8>, nread: nat, remaining: nat)
    requires
        chunk.len() == slots.recorded_chunk(),
        nread <= chunk.len(),
        slots.recorded_chunk() <= remaining,
    ensures
        nread <= remaining,
        delivered(chunk, nread) == chunk.take(nread as int),
{
}

} // verus!
