use vstd::prelude::*;
use crate::error::SocketError;
use crate::pending::{OpSlot, Polled};

verus! {

/// The address family of a listener's public socket.
#[derive(Debug, Clone, Copy, PartialEq, Eq, Structural)]
pub enum AddressFamily {
    V4,
    V6,
}

/// The address to which the socket of an accepted connection is bound: the unspecified
/// address of the listener's family, with a port that the operating system chooses.
pub open spec fn ephemeral_address(family: AddressFamily) -> Seq<char> {
    match family {
        AddressFamily::V4 => "0.0.0.0:0"@,
        AddressFamily::V6 => "[::]:0"@,
    }
}

/// The text of the error returned when the handshake produced no reply to send.
pub open spec fn no_reply_text() -> Seq<char> {
    "Reached unreachable statement"@
}

/// The address to which the socket of an accepted connection is bound.
pub fn ephemeral_bind_address(family: AddressFamily) -> (s: String)
    ensures
        s@ == ephemeral_address(family),
{
    match family {
        AddressFamily::V4 => String::from_str("0.0.0.0:0"),
        AddressFamily::V6 => String::from_str("[::]:0"),
    }
}

/// What a datagram that reached the listening socket turned out to be.
#[derive(Debug, Clone, Copy, PartialEq, Eq, Structural)]
pub enum Datagram {
    /// It does not decode as a uTP packet.
    Malformed,
    /// A uTP packet of another type than SYN.
    NotSyn,
    /// A SYN packet: a peer asks for a connection.
    Syn,
}

/// What accepting does with a datagram that reached the listening socket.
#[derive(Debug, Clone, Copy, PartialEq, Eq, Structural)]
pub enum AcceptAction {
    /// Ignore it and wait for the next one.
    Skip,
    /// Open a connection to its sender.
    Open,
}

/// Only a SYN packet opens a connection; any other datagram is ignored.
pub open spec fn action_for(d: Datagram) -> AcceptAction {
    if d == Datagram::Syn {
        AcceptAction::Open
    } else {
        AcceptAction::Skip
    }
}

/// The position, in the datagrams that reach the listening socket in turn, of the one
/// that opens the connection: the first SYN packet, if there is one.
pub open spec fn opening_datagram(ds: Seq<Datagram>) -> Option<int>
    decreases ds.len(),
{
    if ds.len() == 0 {
        None
    } else if action_for(ds[0]) == AcceptAction::Open {
        Some(0)
    } else {
        match opening_datagram(ds.drop_first()) {
            Some(i) => Some(i + 1),
            None => None,
        }
    }
}

/// What accepting does with a datagram that reached the listening socket.
pub fn accept_action(d: Datagram) -> (a: AcceptAction)
    ensures
        a == action_for(d),
{
    match d {
        Datagram::Syn => AcceptAction::Open,
        Datagram::Malformed => AcceptAction::Skip,
        Datagram::NotSyn => AcceptAction::Skip,
    }
}

/// Law: accepting waits for a connection: datagrams that are not SYN packets leave no
/// trace, and the connection is opened by the first SYN packet, as if the datagrams
/// before it had never arrived.
pub proof fn lemma_skipped_datagrams_leave_no_trace(skipped: Seq<Datagram>, rest: Seq<Datagram>)
    requires
        forall|i: int| 0 <= i < skipped.len() ==> #[trigger] skipped[i] != Datagram::Syn,
    ensures
        opening_datagram(skipped + rest) == (match opening_datagram(rest) {
            Some(i) => Some(i + skipped.len()),
            None => None::<int>,
        }),
    decreases skipped.len(),
{
    if skipped.len() > 0 {
        let tail = skipped.drop_first();
        assert((skipped + rest).drop_first() =~= tail + rest);
        assert forall|i: int| 0 <= i < tail.len() implies #[trigger] tail[i] != Datagram::Syn by {
            assert(tail[i] == skipped[i + 1]);
        }
        lemma_skipped_datagrams_leave_no_trace(tail, rest);
        assert((skipped + rest)[0] == skipped[0]);
    } else {
        assert(skipped + rest =~= rest);
    }
}

/// The outcome of the handshake of an accepted connection: the reply to send back to the
/// peer, or, where handling the SYN packet gave none (or failed), an error.
pub fn accept_reply<T>(reply: Option<T>) -> (r: Result<T, SocketError>)
    ensures
        reply matches Some(p) ==> r == Ok::<T, SocketError>(p),
        reply is None ==> (r matches Err(SocketError::Other(m)) && m@ == no_reply_text()),
{
    match reply {
        Some(p) => Ok(p),
        None => Err(SocketError::Other(String::from_str("Reached unreachable statement"))),
    }
}

/// What the iterator over incoming connections yields after polling its pending accept.
pub open spec fn incoming_yield<T>(polled: Polled<T>) -> Polled<Option<T>> {
    match polled {
        Polled::Pending => Polled::Pending,
        Polled::Ready(x) => Polled::Ready(Some(x)),
    }
}

/// The state of the iterator's accept slot after polling the pending accept.
pub open spec fn incoming_slot_after<T>(polled: Polled<T>) -> OpSlot {
    match polled {
        Polled::Pending => OpSlot::InFlight,
        Polled::Ready(_) => OpSlot::Idle,
    }
}

/// First half of a poll of the iterator over incoming connections: whether a new
/// accept must be started, which is so exactly when its slot is empty, and the slot's
/// state afterwards (an unfinished accept). The iterator never leaves a finished accept
/// in its slot, and one cannot be polled again.
pub fn incoming_begin(slot: OpSlot) -> (r: (bool, OpSlot))
    requires
        slot != OpSlot::Spent,
    ensures
        r.0 == (slot == OpSlot::Idle),
        r.1 == OpSlot::InFlight,
{
    match slot {
        OpSlot::Idle => (true, OpSlot::InFlight),
        _ => (false, OpSlot::InFlight),
    }
}

/// One poll of the iterator over incoming connections, once its pending accept (started
/// when the slot was empty) has been polled: the slot afterwards, and what it yields.
pub fn incoming_step<T>(polled: Polled<T>) -> (r: (OpSlot, Polled<Option<T>>))
    ensures
        r.0 == incoming_slot_after(polled),
        r.1 == incoming_yield(polled),
{
    match polled {
        Polled::Pending => (OpSlot::InFlight, Polled::Pending),
        Polled::Ready(x) => (OpSlot::Idle, Polled::Ready(Some(x))),
    }
}

/// Law: the iterator over incoming connections never ends: it never yields `None`.
pub proof fn lemma_incoming_never_ends<T>(polled: Polled<T>)
    ensures
        incoming_yield(polled) != Polled::<Option<T>>::Ready(None),
{
}

/// Law: an accept that has not finished is resumed by the next poll of the iterator,
/// never started again; every accept that finishes, well or not, frees the slot, so that
/// the next poll starts a new accept and never polls the finished one again.
pub proof fn lemma_incoming_resumes_or_restarts<T>(polled: Polled<T>)
    ensures
        incoming_slot_after(polled) != OpSlot::Spent,
        (incoming_slot_after(polled) == OpSlot::Idle) <==> (polled !is Pending),
{
}

} // verus!
