use transport_core::error::{Error, Reason};
use transport_core::message::{
    acceptable, AdminCmdType, CmdType, Peer, RaftCmdRequest, RaftMessage, RaftRequestHeader,
    MessageType, RegionEpoch, Request, SignificantMsg, SnapshotStatus,
};
use transport_core::router::{Dispatch, PeerMsg, QueueState, ReadTask, ServerRaftStoreRouter};

fn command(region_id: u64, types: &[CmdType]) -> RaftCmdRequest {
    RaftCmdRequest {
        header: RaftRequestHeader {
            region_id,
            peer: Peer { id: 1, store_id: 1 },
            region_epoch: RegionEpoch { version: 1, conf_ver: 1 },
            term: 5,
            read_quorum: false,
        },
        requests: types
            .iter()
            .map(|t| Request { cmd_type: *t, key: b"k".to_vec(), value: Vec::new() })
            .collect(),
        admin_request: None,
    }
}

#[test]
fn classification_of_commands() {
    assert!(acceptable(&command(1, &[CmdType::Get, CmdType::Snap])));
    assert!(acceptable(&command(1, &[])));
    assert!(!acceptable(&command(1, &[CmdType::Get, CmdType::Put])));
    assert!(!acceptable(&command(1, &[CmdType::Invalid])));
    let mut quorum = command(1, &[CmdType::Get]);
    quorum.header.read_quorum = true;
    assert!(!acceptable(&quorum));
    let mut admin = command(1, &[]);
    admin.admin_request = Some(AdminCmdType::Split);
    assert!(!acceptable(&admin));
}

#[test]
fn reads_go_to_local_reader_and_writes_to_mailbox() {
    let router = ServerRaftStoreRouter::new();
    let read = command(3, &[CmdType::Get]);
    assert_eq!(router.send_command(read.clone()), Dispatch::Reader(ReadTask::Read(read)));
    let write = command(3, &[CmdType::Put]);
    assert_eq!(
        router.send_command(write.clone()),
        Dispatch::TrySend { region_id: 3, msg: PeerMsg::RaftCmd(write) }
    );
}

#[test]
fn batch_read_is_one_task_in_input_order() {
    let router = ServerRaftStoreRouter::new();
    let batch = vec![command(1, &[CmdType::Get]), command(2, &[CmdType::Snap]), command(3, &[CmdType::Get])];
    match router.send_batch_commands(batch.clone()) {
        Dispatch::Reader(ReadTask::BatchRead(b)) => {
            assert_eq!(b.len(), 3);
            assert_eq!(b, batch);
        }
        other => panic!("one batch read expected, got {:?}", other),
    }
}

#[test]
fn mailbox_failures_map_to_errors() {
    let router = ServerRaftStoreRouter::new();
    let msg = RaftMessage {
        region_id: 9,
        from_peer: Peer { id: 1, store_id: 1 },
        to_peer: Peer { id: 2, store_id: 2 },
        msg_type: MessageType::MsgHeartbeat,
        has_snapshot: false,
        payload: Vec::new(),
    };
    let d = router.send_raft_msg(msg.clone());
    assert_eq!(d, Dispatch::TrySend { region_id: 9, msg: PeerMsg::RaftMessage(msg) });
    assert_eq!(router.delivery_result(&d, QueueState::Open), Ok(()));
    assert_eq!(router.delivery_result(&d, QueueState::Full), Err(Error::Transport(Reason::Full)));
    assert_eq!(router.delivery_result(&d, QueueState::Closed), Err(Error::RegionNotFound(9)));
}

#[test]
fn command_rejected_by_closed_reader_is_schedule_failure() {
    let router = ServerRaftStoreRouter::new();
    let d = router.send_command(command(1, &[CmdType::Get]));
    assert_eq!(router.delivery_result(&d, QueueState::Closed), Err(Error::ScheduleFailure));
    assert_eq!(router.delivery_result(&d, QueueState::Open), Ok(()));
}

#[test]
fn split_goes_to_region_mailbox() {
    let router = ServerRaftStoreRouter::new();
    let epoch = RegionEpoch { version: 2, conf_ver: 3 };
    let d = router.async_split(4, epoch, vec![b"m".to_vec()]);
    assert_eq!(
        d,
        Dispatch::TrySend {
            region_id: 4,
            msg: PeerMsg::SplitRegion { region_epoch: epoch, split_keys: vec![b"m".to_vec()] },
        }
    );
    assert_eq!(router.delivery_result(&d, QueueState::Closed), Err(Error::RegionNotFound(4)));
}

#[test]
fn significant_send_survives_full_mailbox() {
    let router = ServerRaftStoreRouter::new();
    let plain = router.send_command(command(7, &[CmdType::Put]));
    assert_eq!(router.delivery_result(&plain, QueueState::Full), Err(Error::Transport(Reason::Full)));
    let d = router.report_unreachable(7, 2);
    assert_eq!(
        d,
        Dispatch::ForceSend {
            region_id: 7,
            msg: PeerMsg::SignificantMsg(SignificantMsg::Unreachable { to_peer_id: 2 }),
        }
    );
    assert_eq!(router.delivery_result(&d, QueueState::Full), Ok(()));
    assert_eq!(router.delivery_result(&d, QueueState::Closed), Err(Error::RegionNotFound(7)));
}

#[test]
fn snapshot_status_report_is_forced() {
    let router = ServerRaftStoreRouter::new();
    let d = router.report_snapshot_status(3, 4, SnapshotStatus::Failure);
    assert_eq!(
        d,
        Dispatch::ForceSend {
            region_id: 3,
            msg: PeerMsg::SignificantMsg(SignificantMsg::SnapshotStatus {
                to_peer_id: 4,
                status: SnapshotStatus::Failure,
            }),
        }
    );
}
