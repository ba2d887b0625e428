use utp::error::SocketError;
use utp::listener::{
    accept_action, accept_reply, ephemeral_bind_address, incoming_begin, incoming_step, AcceptAction,
    AddressFamily, Datagram,
};
use utp::pending::{OpSlot, Polled};

#[test]
fn ephemeral_addresses() {
    assert_eq!(ephemeral_bind_address(AddressFamily::V4), "0.0.0.0:0");
    assert_eq!(ephemeral_bind_address(AddressFamily::V6), "[::]:0");
}

#[test]
fn only_syn_opens_a_connection() {
    assert_eq!(accept_action(Datagram::Syn), AcceptAction::Open);
    assert_eq!(accept_action(Datagram::NotSyn), AcceptAction::Skip);
    assert_eq!(accept_action(Datagram::Malformed), AcceptAction::Skip);
}

#[test]
fn stray_datagrams_are_skipped_until_syn() {
    let arrivals = [Datagram::Malformed, Datagram::NotSyn, Datagram::Syn, Datagram::NotSyn];
    let opened = arrivals.iter().position(|d| accept_action(*d) == AcceptAction::Open);
    assert_eq!(opened, Some(2));
}

#[test]
fn handshake_reply() {
    match accept_reply(Some(vec![1u8, 2])) {
        Ok(r) => assert_eq!(r, vec![1u8, 2]),
        Err(e) => panic!("unexpected {:?}", e),
    }
    match accept_reply::<u8>(None) {
        Err(SocketError::Other(m)) => assert_eq!(m, "Reached unreachable statement"),
        other => panic!("unexpected {:?}", other),
    }
}

#[test]
fn incoming_starts_accept_only_when_idle() {
    assert_eq!(incoming_begin(OpSlot::Idle), (true, OpSlot::InFlight));
    assert_eq!(incoming_begin(OpSlot::InFlight), (false, OpSlot::InFlight));
    // After a pending accept the slot stays in flight, so the next poll resumes it.
    let (slot, _) = incoming_step::<u8>(Polled::Pending);
    assert_eq!(incoming_begin(slot), (false, OpSlot::InFlight));
    // After a finished accept the slot is free, so the next poll starts a new one.
    let (slot, _) = incoming_step(Polled::Ready(1u8));
    assert_eq!(incoming_begin(slot), (true, OpSlot::InFlight));
}

#[test]
fn incoming_never_ends() {
    assert_eq!(incoming_step::<u32>(Polled::Pending), (OpSlot::InFlight, Polled::Pending));
    assert_eq!(incoming_step(Polled::Ready(7u32)), (OpSlot::Idle, Polled::Ready(Some(7u32))));
    let failed: Polled<Result<u8, String>> = Polled::Ready(Err("x".to_string()));
    assert_eq!(incoming_step(failed), (OpSlot::Idle, Polled::Ready(Some(Err("x".to_string())))));
}
