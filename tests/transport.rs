use transport_core::error::Error;
use transport_core::message::{MessageType, Peer, RaftMessage, SignificantMsg, SnapshotStatus};
use transport_core::server::Server;
use transport_core::transport::{inject_resolve_failure, Action, ServerTransport, SnapshotReporter};

fn message(region_id: u64, to_peer_id: u64, to_store_id: u64) -> RaftMessage {
    RaftMessage {
        region_id,
        from_peer: Peer { id: 0, store_id: 0 },
        to_peer: Peer { id: to_peer_id, store_id: to_store_id },
        msg_type: MessageType::MsgAppend,
        has_snapshot: false,
        payload: vec![1, 2, 3],
    }
}

fn snapshot_message(region_id: u64, to_peer_id: u64, to_store_id: u64) -> RaftMessage {
    let mut m = message(region_id, to_peer_id, to_store_id);
    m.msg_type = MessageType::MsgSnapshot;
    m.has_snapshot = true;
    m
}

fn unreachable(region_id: u64, to_peer_id: u64) -> Action {
    Action::Significant { region_id, signal: SignificantMsg::Unreachable { to_peer_id } }
}

fn snapshot_status(region_id: u64, to_peer_id: u64, status: SnapshotStatus) -> Action {
    Action::Significant { region_id, signal: SignificantMsg::SnapshotStatus { to_peer_id, status } }
}

fn is_unreachable_to(a: &Action, to_peer_id: u64) -> bool {
    match a {
        Action::Significant { signal, .. } => *signal == SignificantMsg::Unreachable { to_peer_id },
        _ => false,
    }
}

// Plays the resolver: refuses outright when `quick_fail`, else answers at once
// with `addr`, or with an error when no address is set.
fn resolve_now(
    trans: &mut ServerTransport,
    actions: Vec<Action>,
    quick_fail: bool,
    addr: &Option<String>,
) -> Vec<Action> {
    let mut out = Vec::new();
    for a in actions {
        match a {
            Action::Resolve { store_id, msg } => {
                let answer = if quick_fail {
                    Err(Error::ResolveFailure)
                } else {
                    addr.clone().ok_or(Error::ResolveFailure)
                };
                out.extend(trans.on_resolved(store_id, msg, answer));
            }
            other => out.push(other),
        }
    }
    out
}

#[test]
fn test_peer_resolve() {
    let mut server = Server::new("127.0.0.1:20160".to_owned());
    server.start();
    let mut trans = ServerTransport::new();

    let mut msg = message(1, 2, 1);
    let resp = trans.report_unreachable(msg.clone());
    assert!(is_unreachable_to(&resp[0], 2), "{:?}", resp);

    msg = message(1, 0, 0);
    let mut addr: Option<String> = None;
    let sent = trans.send(msg.clone());
    let resp = resolve_now(&mut trans, sent, false, &addr);
    trans.flush();
    assert!(is_unreachable_to(&resp[0], 0), "{:?}", resp);

    addr = Some(server.listening_addr());
    let sent = trans.send(msg.clone());
    let resp = resolve_now(&mut trans, sent, false, &addr);
    trans.flush();
    match &resp[0] {
        Action::ClientSend { msg: m, .. } => assert_eq!(*m, msg),
        _ => panic!("raft message expected, but got {:?}", resp),
    }

    msg.to_peer.store_id = 2;
    msg.to_peer.id = 5;
    msg.region_id = 2;
    let sent = trans.send(msg.clone());
    let resp = resolve_now(&mut trans, sent, true, &addr);
    trans.flush();
    assert!(is_unreachable_to(&resp[0], 5), "{:?}", resp);
    assert_eq!(resp, vec![unreachable(2, 5)]);
    server.stop();
}

#[test]
fn cold_send_resolves_then_sends_and_flushes() {
    let mut trans = ServerTransport::new();
    let msg = message(1, 2, 7);
    let acts = trans.send(msg.clone());
    assert_eq!(acts, vec![Action::Resolve { store_id: 7, msg: msg.clone() }]);
    let acts = trans.on_resolved(7, msg.clone(), Ok("h:p".to_owned()));
    assert_eq!(
        acts,
        vec![
            Action::ClientSend { store_id: 7, addr: "h:p".to_owned(), msg: msg.clone() },
            Action::ClientFlush,
        ]
    );
    // The address is cached now: the next send goes straight to the pool.
    let acts = trans.send(msg.clone());
    assert_eq!(acts, vec![Action::ClientSend { store_id: 7, addr: "h:p".to_owned(), msg }]);
}

#[test]
fn send_during_resolution_is_dropped_and_reported() {
    let mut trans = ServerTransport::new();
    let msg1 = message(1, 2, 7);
    let msg2 = message(4, 9, 7);
    let first = trans.send(msg1.clone());
    assert_eq!(first, vec![Action::Resolve { store_id: 7, msg: msg1.clone() }]);
    let second = trans.send(msg2);
    assert_eq!(second, vec![unreachable(4, 9)]);
    let third = trans.send(message(5, 3, 7));
    assert!(third.iter().all(|a| !matches!(a, Action::Resolve { .. })));
}

#[test]
fn resolve_failure_on_snapshot_reports_both() {
    let mut trans = ServerTransport::new();
    let msg = snapshot_message(1, 2, 7);
    let acts = trans.send(msg.clone());
    assert_eq!(acts, vec![Action::Resolve { store_id: 7, msg: msg.clone() }]);
    let answer = inject_resolve_failure(Some(7), 7, &msg, Ok("h:p".to_owned()));
    assert_eq!(answer, Err(Error::ResolveFailure));
    let acts = trans.on_resolved(7, msg.clone(), answer);
    assert_eq!(acts, vec![snapshot_status(1, 2, SnapshotStatus::Failure), unreachable(1, 2)]);
    // The store left the resolving set: a new send resolves again.
    let acts = trans.send(msg.clone());
    assert_eq!(acts, vec![Action::Resolve { store_id: 7, msg }]);
}

#[test]
fn fault_hook_leaves_other_answers_alone() {
    let snap = snapshot_message(1, 2, 7);
    let plain = message(1, 2, 7);
    let ok: Result<String, Error> = Ok("h:p".to_owned());
    assert_eq!(inject_resolve_failure(Some(8), 7, &snap, ok.clone()), ok);
    assert_eq!(inject_resolve_failure(Some(7), 7, &plain, ok.clone()), ok);
    assert_eq!(inject_resolve_failure(None, 7, &snap, ok.clone()), ok);
}

#[test]
fn cached_hit_sends_without_resolve_or_flush() {
    let mut trans = ServerTransport::new();
    let warm = message(1, 2, 7);
    let acts = trans.send(warm.clone());
    assert_eq!(acts.len(), 1);
    trans.on_resolved(7, warm, Ok("h:p".to_owned()));
    let msg = message(3, 4, 7);
    let acts = trans.send(msg.clone());
    assert_eq!(acts, vec![Action::ClientSend { store_id: 7, addr: "h:p".to_owned(), msg }]);
}

#[test]
fn resolver_refusal_clears_resolving() {
    let mut trans = ServerTransport::new();
    let msg = message(1, 2, 7);
    trans.send(msg.clone());
    let acts = trans.on_resolved(7, msg.clone(), Err(Error::ResolveFailure));
    assert_eq!(acts, vec![unreachable(1, 2)]);
    assert_eq!(trans.send(msg.clone()), vec![Action::Resolve { store_id: 7, msg }]);
}

#[test]
fn evicted_address_is_resolved_again() {
    let mut trans = ServerTransport::new();
    let msg = message(1, 2, 7);
    trans.send(msg.clone());
    trans.on_resolved(7, msg.clone(), Ok("h:p".to_owned()));
    trans.evict_addr(7);
    assert_eq!(trans.send(msg.clone()), vec![Action::Resolve { store_id: 7, msg }]);
}

#[test]
fn snapshot_with_known_address_goes_to_snapshot_worker() {
    let mut trans = ServerTransport::new();
    let warm = message(1, 2, 7);
    trans.send(warm.clone());
    trans.on_resolved(7, warm, Ok("h:p".to_owned()));
    let snap = snapshot_message(1, 2, 7);
    let acts = trans.send(snap.clone());
    let reporter = SnapshotReporter { region_id: 1, to_peer_id: 2, to_store_id: 7 };
    assert_eq!(
        acts,
        vec![Action::ScheduleSnapshot { addr: "h:p".to_owned(), msg: snap, reporter }]
    );
}

#[test]
fn snapshot_reporter_reports_outcome() {
    let reporter = SnapshotReporter { region_id: 3, to_peer_id: 4, to_store_id: 5 };
    assert_eq!(reporter.on_sent(Ok(())), snapshot_status(3, 4, SnapshotStatus::Finish));
    assert_eq!(
        reporter.on_sent(Err(Error::ScheduleFailure)),
        snapshot_status(3, 4, SnapshotStatus::Failure)
    );
    assert_eq!(
        reporter.report(SnapshotStatus::Failure),
        snapshot_status(3, 4, SnapshotStatus::Failure)
    );
}

#[test]
fn report_unreachable_for_plain_and_snapshot() {
    let trans = ServerTransport::new();
    assert_eq!(trans.report_unreachable(message(1, 2, 3)), vec![unreachable(1, 2)]);
    assert_eq!(
        trans.report_unreachable(snapshot_message(1, 2, 3)),
        vec![snapshot_status(1, 2, SnapshotStatus::Failure), unreachable(1, 2)]
    );
}

#[test]
fn every_send_settles_exactly_once() {
    let settles = |acts: &[Action], msg: &RaftMessage| {
        acts.iter()
            .filter(|a| match a {
                Action::ClientSend { msg: m, .. } => m == msg,
                Action::ScheduleSnapshot { msg: m, .. } => m == msg,
                other => **other == unreachable(msg.region_id, msg.to_peer.id),
            })
            .count()
    };
    for answer in [None, Some("h:p".to_owned())] {
        let mut trans = ServerTransport::new();
        let msg = snapshot_message(1, 2, 7);
        let first = trans.send(msg.clone());
        assert_eq!(settles(&first, &msg), 0);
        let done = trans.on_resolved(7, msg.clone(), answer.clone().ok_or(Error::ResolveFailure));
        assert_eq!(settles(&done, &msg), 1);
    }
}

#[test]
fn flush_asks_pool_to_flush() {
    let mut trans = ServerTransport::new();
    assert_eq!(trans.flush(), Action::ClientFlush);
    assert_eq!(trans.flush_raft_client(), Action::ClientFlush);
}
