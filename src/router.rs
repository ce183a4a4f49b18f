use vstd::prelude::*;

use crate::error::{Error, Reason};
use crate::message::{
    acceptable, read_acceptable, RaftCmdRequest, RaftMessage, RegionEpoch, SignificantMsg,
    SnapshotStatus,
};

verus! {

/// A message for the state machine of one region.
#[derive(Clone, Debug, PartialEq, Eq)]
pub enum PeerMsg {
    RaftMessage(RaftMessage),
    RaftCmd(RaftCmdRequest),
    SplitRegion { region_epoch: RegionEpoch, split_keys: Vec<Vec<u8>> },
    SignificantMsg(SignificantMsg),
}

/// Work for the local reader, which serves reads without the consensus log.
#[derive(Clone, Debug, PartialEq, Eq)]
pub enum ReadTask {
    Read(RaftCmdRequest),
    BatchRead(Vec<RaftCmdRequest>),
}

/// Where a request has to be delivered, and how.
#[derive(Clone, Debug, PartialEq, Eq)]
pub enum Dispatch {
    /// Schedule on the local reader's queue.
    Reader(ReadTask),
    /// Try to enqueue on the region's bounded mailbox.
    TrySend { region_id: u64, msg: PeerMsg },
    /// Enqueue on the region's mailbox regardless of its capacity.
    ForceSend { region_id: u64, msg: PeerMsg },
}

impl Dispatch {
    /// The request goes to a region's mailbox, and so into the consensus log.
    pub open spec fn reaches_mailbox(&self) -> bool {
        !(self is Reader)
    }
}

/// State of the queue that a dispatch meets.
#[derive(Clone, Copy, Debug, PartialEq, Eq, Structural)]
pub enum QueueState {
    /// The queue takes the message.
    Open,
    /// The queue is at capacity.
    Full,
    /// The queue's consumer is gone.
    Closed,
}

/// Result of a dispatch that meets a queue in state `q`.
pub open spec fn dispatch_result(d: Dispatch, q: QueueState) -> Result<(), Error> {
    match d {
        Dispatch::Reader(_) => if q == QueueState::Open {
            Ok(())
        } else {
            Err(Error::ScheduleFailure)
        },
        Dispatch::TrySend { region_id, .. } => match q {
            QueueState::Open => Ok(()),
            QueueState::Full => Err(Error::Transport(Reason::Full)),
            QueueState::Closed => Err(Error::RegionNotFound(region_id)),
        },
        Dispatch::ForceSend { region_id, .. } => if q == QueueState::Closed {
            Err(Error::RegionNotFound(region_id))
        } else {
            Ok(())
        },
    }
}

/// Where a command is delivered: the local reader for a read-acceptable
/// command, else the mailbox of the region that its header names.
pub open spec fn command_dispatch(req: RaftCmdRequest) -> Dispatch {
    if read_acceptable(req) {
        Dispatch::Reader(ReadTask::Read(req))
    } else {
        Dispatch::TrySend { region_id: req.header.region_id, msg: PeerMsg::RaftCmd(req) }
    }
}

/// Routes requests for the local store either to the mailboxes of its regions
/// or to its local reader.
#[derive(Clone, Copy, Debug)]
pub struct ServerRaftStoreRouter {}

impl ServerRaftStoreRouter {
    pub fn new() -> (r: ServerRaftStoreRouter) {
        ServerRaftStoreRouter {}
    }

    /// A consensus message goes to its region's mailbox.
    pub fn send_raft_msg(&self, msg: RaftMessage) -> (d: Dispatch)
        ensures
            d == (Dispatch::TrySend { region_id: msg.region_id, msg: PeerMsg::RaftMessage(msg) }),
    {
        let region_id = msg.region_id;
        Dispatch::TrySend { region_id, msg: PeerMsg::RaftMessage(msg) }
    }

    /// A read-acceptable command goes to the local reader, any other to the
    /// mailbox of the region its header names.
    pub fn send_command(&self, req: RaftCmdRequest) -> (d: Dispatch)
        ensures
            d == command_dispatch(req),
    {
        if acceptable(&req) {
            Dispatch::Reader(ReadTask::Read(req))
        } else {
            let region_id = req.header.region_id;
            Dispatch::TrySend { region_id, msg: PeerMsg::RaftCmd(req) }
        }
    }

    /// A batch of reads goes to the local reader as one task, in input order.
    pub fn send_batch_commands(&self, batch: Vec<RaftCmdRequest>) -> (d: Dispatch)
        ensures
            d == Dispatch::Reader(ReadTask::BatchRead(batch)),
    {
        Dispatch::Reader(ReadTask::BatchRead(batch))
    }

    /// A split request goes to the region's mailbox.
    pub fn async_split(&self, region_id: u64, epoch: RegionEpoch, keys: Vec<Vec<u8>>) -> (d:
        Dispatch)
        ensures
            d == (Dispatch::TrySend {
                region_id,
                msg: PeerMsg::SplitRegion { region_epoch: epoch, split_keys: keys },
            }),
    {
        Dispatch::TrySend {
            region_id,
            msg: PeerMsg::SplitRegion { region_epoch: epoch, split_keys: keys },
        }
    }

    /// A significant message is forced into the region's mailbox, past its
    /// capacity.
    pub fn significant_send(&self, region_id: u64, msg: SignificantMsg) -> (d: Dispatch)
        ensures
            d == (Dispatch::ForceSend { region_id, msg: PeerMsg::SignificantMsg(msg) }),
    {
        Dispatch::ForceSend { region_id, msg: PeerMsg::SignificantMsg(msg) }
    }

    /// Tells a region that one of its peers cannot be reached.
    pub fn report_unreachable(&self, region_id: u64, to_peer_id: u64) -> (d: Dispatch)
        ensures
            d == (Dispatch::ForceSend {
                region_id,
                msg: PeerMsg::SignificantMsg(SignificantMsg::Unreachable { to_peer_id }),
            }),
    {
        self.significant_send(region_id, SignificantMsg::Unreachable { to_peer_id })
    }

    /// Tells a region how sending a snapshot to one of its peers ended.
    pub fn report_snapshot_status(&self, region_id: u64, to_peer_id: u64, status: SnapshotStatus)
        -> (d: Dispatch)
        ensures
            d == (Dispatch::ForceSend {
                region_id,
                msg: PeerMsg::SignificantMsg(SignificantMsg::SnapshotStatus { to_peer_id, status }),
            }),
    {
        self.significant_send(region_id, SignificantMsg::SnapshotStatus { to_peer_id, status })
    }

    /// The result a caller sees once the dispatch has met a queue in state `q`.
    pub fn delivery_result(&self, d: &Dispatch, q: QueueState) -> (r: Result<(), Error>)
        ensures
            r == dispatch_result(*d, q),
    {
        match d {
            Dispatch::Reader(_) => match q {
                QueueState::Open => Ok(()),
                _ => Err(Error::ScheduleFailure),
            },
            Dispatch::TrySend { region_id, .. } => match q {
                QueueState::Open => Ok(()),
                QueueState::Full => Err(Error::Transport(Reason::Full)),
                QueueState::Closed => Err(Error::RegionNotFound(*region_id)),
            },
            Dispatch::ForceSend { region_id, .. } => match q {
                QueueState::Closed => Err(Error::RegionNotFound(*region_id)),
                _ => Ok(()),
            },
        }
    }
}

/// A significant message is never lost to backpressure: its dispatch forces
/// the message itself into the region's mailbox, a full mailbox still takes
/// it, and the only failure is a closed mailbox, reported as the region being
/// gone.
pub proof fn lemma_significant_send_lossless(region_id: u64, msg: SignificantMsg, q: QueueState)
    ensures
        ({
            let d = Dispatch::ForceSend { region_id, msg: PeerMsg::SignificantMsg(msg) };
            &&& dispatch_result(d, QueueState::Full) == Ok::<(), Error>(())
            &&& dispatch_result(d, q) is Err <==> q == QueueState::Closed
            &&& dispatch_result(d, q) is Err ==> dispatch_result(d, q) == Err::<(), Error>(
                Error::RegionNotFound(region_id),
            )
        }),
{
}

/// A read-acceptable command, alone or in a batch, never reaches a region's
/// mailbox and so never enters the consensus log.
pub proof fn lemma_reads_bypass_log(req: RaftCmdRequest, batch: Vec<RaftCmdRequest>)
    requires
        read_acceptable(req),
    ensures
        !command_dispatch(req).reaches_mailbox(),
        !Dispatch::Reader(ReadTask::BatchRead(batch)).reaches_mailbox(),
{
}

} // verus!
