use valence_core::limiter::{AdmissionLimiter, Permit};
use valence_core::queue::HandoffQueue;
use valence_core::types::{
    IpAddress, NewClientInfo, NewClientMessage, PlayPacketReceiver, PlayPacketSender,
};

fn message(name: &str, connection: u64, permit: Permit) -> NewClientMessage {
    NewClientMessage {
        info: NewClientInfo {
            username: name.to_owned(),
            uuid: uuid::Uuid::from_u128(connection as u128),
            ip: IpAddress::V4(127, 0, 0, 1),
            textures: None,
        },
        send: PlayPacketSender { connection },
        recv: PlayPacketReceiver { connection },
        permit,
    }
}

#[test]
fn handoff_fifo_order() {
    let mut limiter = AdmissionLimiter::new(8);
    let mut q = HandoffQueue::new(8);
    for (i, name) in ["alice", "bob", "carol"].iter().enumerate() {
        let p = limiter.try_acquire().unwrap();
        assert!(q.try_send(message(name, i as u64, p)).is_none());
    }
    assert_eq!(q.len(), 3);
    let out = q.drain();
    let names: Vec<&str> = out.iter().map(|m| m.info.username.as_str()).collect();
    assert_eq!(names, ["alice", "bob", "carol"], "received in send order");
    assert_eq!(q.len(), 0);
}

#[test]
fn handoff_full_queue_hands_message_back() {
    let mut limiter = AdmissionLimiter::new(8);
    let mut q = HandoffQueue::new(1);
    let p1 = limiter.try_acquire().unwrap();
    let p2 = limiter.try_acquire().unwrap();
    assert!(q.try_send(message("first", 1, p1)).is_none());
    let rejected = q.try_send(message("second", 2, p2));
    let back = rejected.expect("a full mailbox rejects the message");
    assert_eq!(back.info.username, "second", "the rejected message comes back unchanged");
    assert_eq!(q.len(), 1);
}

#[test]
fn handoff_try_recv_front_then_empty() {
    let mut limiter = AdmissionLimiter::new(8);
    let mut q = HandoffQueue::new(4);
    let p = limiter.try_acquire().unwrap();
    assert!(q.try_recv().is_none(), "an empty mailbox never blocks");
    assert!(q.try_send(message("solo", 9, p)).is_none());
    let got = q.try_recv().expect("one message is queued");
    assert_eq!(got.info.username, "solo");
    assert_eq!(got.send.connection, 9);
    assert_eq!(got.recv.connection, 9);
    assert!(q.try_recv().is_none());
}

#[test]
fn handoff_drain_bounded_by_snapshot() {
    let mut limiter = AdmissionLimiter::new(8);
    let mut q = HandoffQueue::new(8);
    for i in 0..2u64 {
        let p = limiter.try_acquire().unwrap();
        assert!(q.try_send(message("early", i, p)).is_none());
    }
    let first = q.drain();
    assert_eq!(first.len(), 2, "intake takes exactly the backlog present at its start");

    // What arrives after the drain began is deferred to the next intake.
    let p = limiter.try_acquire().unwrap();
    assert!(q.try_send(message("late", 7, p)).is_none());
    let second = q.drain();
    assert_eq!(second.len(), 1);
    assert_eq!(second[0].info.username, "late");
}

#[test]
fn handoff_capacity_getter() {
    let q = HandoffQueue::new(16);
    assert_eq!(q.capacity(), 16);
    assert_eq!(q.len(), 0);
}
