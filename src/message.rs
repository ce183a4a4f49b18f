use vstd::prelude::*;

verus! {

/// One replica of a region: its own id and the store that hosts it.
#[derive(Clone, Copy, Debug, PartialEq, Eq, Structural)]
pub struct Peer {
    pub id: u64,
    pub store_id: u64,
}

/// The kinds of consensus messages exchanged between peers.
#[derive(Clone, Copy, Debug, PartialEq, Eq, Structural)]
pub enum MessageType {
    MsgHup,
    MsgBeat,
    MsgPropose,
    MsgAppend,
    MsgAppendResponse,
    MsgRequestVote,
    MsgRequestVoteResponse,
    MsgSnapshot,
    MsgHeartbeat,
    MsgHeartbeatResponse,
    MsgUnreachable,
    MsgSnapStatus,
    MsgCheckQuorum,
    MsgTransferLeader,
    MsgTimeoutNow,
    MsgReadIndex,
    MsgReadIndexResp,
    MsgRequestPreVote,
    MsgRequestPreVoteResponse,
}

/// A consensus message addressed from one peer of a region to another.
///
/// `payload` is the encoded consensus body; routing never looks inside it.
#[derive(Clone, Debug, PartialEq, Eq)]
pub struct RaftMessage {
    pub region_id: u64,
    pub from_peer: Peer,
    pub to_peer: Peer,
    pub msg_type: MessageType,
    pub has_snapshot: bool,
    pub payload: Vec<u8>,
}

impl RaftMessage {
    /// The message is a snapshot message of the consensus protocol.
    pub open spec fn is_snapshot_msg(&self) -> bool {
        self.msg_type == MessageType::MsgSnapshot
    }

    pub fn is_msg_snapshot(&self) -> (r: bool)
        ensures
            r == self.is_snapshot_msg(),
    {
        match self.msg_type {
            MessageType::MsgSnapshot => true,
            _ => false,
        }
    }
}

/// Outcome of sending a snapshot to a peer.
#[derive(Clone, Copy, Debug, PartialEq, Eq, Structural)]
pub enum SnapshotStatus {
    Finish,
    Failure,
}

/// Control signal for a region's state machine that must never be dropped.
#[derive(Clone, Copy, Debug, PartialEq, Eq, Structural)]
pub enum SignificantMsg {
    Unreachable { to_peer_id: u64 },
    SnapshotStatus { to_peer_id: u64, status: SnapshotStatus },
}

/// Version pair of a region; both parts only grow.
#[derive(Clone, Copy, Debug, PartialEq, Eq, Structural)]
pub struct RegionEpoch {
    pub version: u64,
    pub conf_ver: u64,
}

/// The kinds of sub-requests a command can carry.
#[derive(Clone, Copy, Debug, PartialEq, Eq, Structural)]
pub enum CmdType {
    Invalid,
    Get,
    Put,
    Delete,
    Snap,
    Prewrite,
    DeleteRange,
    IngestSst,
}

/// The kinds of administrative requests a command can carry.
#[derive(Clone, Copy, Debug, PartialEq, Eq, Structural)]
pub enum AdminCmdType {
    ChangePeer,
    Split,
    BatchSplit,
    CompactLog,
    TransferLeader,
    ComputeHash,
    VerifyHash,
    PrepareMerge,
    CommitMerge,
    RollbackMerge,
}

/// One sub-request of a command.
#[derive(Clone, Debug, PartialEq, Eq)]
pub struct Request {
    pub cmd_type: CmdType,
    pub key: Vec<u8>,
    pub value: Vec<u8>,
}

/// Header of a command: its target and whether it asks for a quorum read.
#[derive(Clone, Copy, Debug, PartialEq, Eq, Structural)]
pub struct RaftRequestHeader {
    pub region_id: u64,
    pub peer: Peer,
    pub region_epoch: RegionEpoch,
    pub term: u64,
    pub read_quorum: bool,
}

/// A client command targeting one region.
#[derive(Clone, Debug, PartialEq, Eq)]
pub struct RaftCmdRequest {
    pub header: RaftRequestHeader,
    pub requests: Vec<Request>,
    pub admin_request: Option<AdminCmdType>,
}

/// A sub-request that only reads.
pub open spec fn is_read_cmd(t: CmdType) -> bool {
    t == CmdType::Get || t == CmdType::Snap
}

/// A command can be served from a consistent local snapshot: it carries no
/// administrative request, its header does not ask for a quorum read, and
/// every sub-request only reads.
pub open spec fn read_acceptable(req: RaftCmdRequest) -> bool {
    &&& req.admin_request.is_none()
    &&& !req.header.read_quorum
    &&& forall|i: int| 0 <= i < req.requests@.len() ==> is_read_cmd(#[trigger] req.requests@[i].cmd_type)
}

/// Decides whether a command may bypass the consensus log.
pub fn acceptable(req: &RaftCmdRequest) -> (r: bool)
    ensures
        r == read_acceptable(*req),
{
    if req.admin_request.is_some() || req.header.read_quorum {
        return false;
    }
    let n = req.requests.len();
    let mut i: usize = 0;
    while i < n
        invariant
            n == req.requests@.len(),
            0 <= i <= n,
            forall|j: int| 0 <= j < i ==> is_read_cmd(#[trigger] req.requests@[j].cmd_type),
        decreases n - i,
    {
        match req.requests[i].cmd_type {
            CmdType::Get | CmdType::Snap => {},
            _ => return false,
        }
        i = i + 1;
    }
    true
}

} // verus!
