use vstd::prelude::*;

use std::collections::HashMap;
use std::collections::HashSet;

use crate::error::Error;
use crate::message::{RaftMessage, SignificantMsg, SnapshotStatus};

verus! {

/// What a snapshot transfer reports back once the message itself has moved on.
#[derive(Clone, Copy, Debug, PartialEq, Eq, Structural)]
pub struct SnapshotReporter {
    pub region_id: u64,
    pub to_peer_id: u64,
    pub to_store_id: u64,
}

/// Work that the transport hands to its collaborators.
#[derive(Clone, Debug, PartialEq, Eq)]
pub enum Action {
    /// Give the message to the connection pool for `addr`.
    ClientSend { store_id: u64, addr: String, msg: RaftMessage },
    /// Push whatever the connection pool has buffered.
    ClientFlush,
    /// Give a snapshot message to the snapshot worker; `reporter` tells the
    /// region how the transfer ended.
    ScheduleSnapshot { addr: String, msg: RaftMessage, reporter: SnapshotReporter },
    /// Ask the address resolver for the store's address; its answer comes
    /// back, with the message, through `ServerTransport::on_resolved`.
    Resolve { store_id: u64, msg: RaftMessage },
    /// Deliver a significant message to a local region over the lossless path.
    Significant { region_id: u64, signal: SignificantMsg },
}

impl SnapshotReporter {
    pub open spec fn of(msg: RaftMessage) -> SnapshotReporter {
        SnapshotReporter {
            region_id: msg.region_id,
            to_peer_id: msg.to_peer.id,
            to_store_id: msg.to_peer.store_id,
        }
    }

    pub open spec fn status_action(self, status: SnapshotStatus) -> Action {
        Action::Significant {
            region_id: self.region_id,
            signal: SignificantMsg::SnapshotStatus { to_peer_id: self.to_peer_id, status },
        }
    }

    /// Reports `status` to the region that sent the snapshot.
    pub fn report(&self, status: SnapshotStatus) -> (a: Action)
        ensures
            a == self.status_action(status),
    {
        Action::Significant {
            region_id: self.region_id,
            signal: SignificantMsg::SnapshotStatus { to_peer_id: self.to_peer_id, status },
        }
    }

    /// Reports how a transfer ended: `Finish` on success, `Failure` on any
    /// error, including a snapshot worker that refused the task.
    pub fn on_sent(&self, res: Result<(), Error>) -> (a: Action)
        ensures
            a == self.status_action(
                if res is Ok {
                    SnapshotStatus::Finish
                } else {
                    SnapshotStatus::Failure
                },
            ),
    {
        match res {
            Ok(()) => self.report(SnapshotStatus::Finish),
            Err(_) => self.report(SnapshotStatus::Failure),
        }
    }
}

/// The report that tells a region its peer cannot be reached.
pub open spec fn unreachable_action(msg: RaftMessage) -> Action {
    Action::Significant {
        region_id: msg.region_id,
        signal: SignificantMsg::Unreachable { to_peer_id: msg.to_peer.id },
    }
}

/// The report that tells a region its snapshot to a peer failed.
pub open spec fn snapshot_failure_action(msg: RaftMessage) -> Action {
    SnapshotReporter::of(msg).status_action(SnapshotStatus::Failure)
}

/// What abandoning a message reports: a snapshot failure first for a
/// snapshot message, then the unreachable peer.
pub open spec fn unreachable_actions(msg: RaftMessage) -> Seq<Action> {
    if msg.is_snapshot_msg() {
        seq![snapshot_failure_action(msg), unreachable_action(msg)]
    } else {
        seq![unreachable_action(msg)]
    }
}

/// Sending to a known address: a message with a snapshot goes to the
/// snapshot worker, any other to the connection pool.
pub open spec fn write_data_action(store_id: u64, addr: String, msg: RaftMessage) -> Action {
    if msg.has_snapshot {
        Action::ScheduleSnapshot { addr, msg, reporter: SnapshotReporter::of(msg) }
    } else {
        Action::ClientSend { store_id, addr, msg }
    }
}

/// One send to a store, over the address cache and the set of stores under
/// resolution: the new cache, the new set and the actions.
pub open spec fn send_store_step(
    addrs: Map<u64, String>,
    resolving: Set<u64>,
    store_id: u64,
    msg: RaftMessage,
) -> (Map<u64, String>, Set<u64>, Seq<Action>) {
    if addrs.contains_key(store_id) {
        (addrs, resolving, seq![write_data_action(store_id, addrs[store_id], msg)])
    } else if resolving.contains(store_id) {
        (addrs, resolving, unreachable_actions(msg))
    } else {
        (addrs, resolving.insert(store_id), seq![Action::Resolve { store_id, msg }])
    }
}

/// The end of one resolution: `Some` address, or `None` when the resolver
/// failed or refused the request.
pub open spec fn resolved_step(
    addrs: Map<u64, String>,
    resolving: Set<u64>,
    store_id: u64,
    msg: RaftMessage,
    addr: Option<String>,
) -> (Map<u64, String>, Set<u64>, Seq<Action>) {
    match addr {
        Some(a) => (
            addrs.insert(store_id, a),
            resolving.remove(store_id),
            seq![write_data_action(store_id, a, msg), Action::ClientFlush],
        ),
        None => (addrs, resolving.remove(store_id), unreachable_actions(msg)),
    }
}

/// Delivers outbound consensus messages to other stores.
///
/// It keeps the address of each known store and the stores whose address is
/// being resolved, and turns each event into the actions to perform.
pub struct ServerTransport {
    addrs: HashMap<u64, String>,
    resolving: HashSet<u64>,
}

impl ServerTransport {
    /// The address cache.
    pub closed spec fn addr_cache(&self) -> Map<u64, String> {
        self.addrs@
    }

    /// The stores with a resolution in flight.
    pub closed spec fn resolving_stores(&self) -> Set<u64> {
        self.resolving@
    }

    pub fn new() -> (t: ServerTransport)
        ensures
            t.addr_cache() == Map::<u64, String>::empty(),
            t.resolving_stores() == Set::<u64>::empty(),
    {
        ServerTransport { addrs: HashMap::new(), resolving: HashSet::new() }
    }

    /// Sends a message to the store of its target peer.
    pub fn send(&mut self, msg: RaftMessage) -> (r: Vec<Action>)
        ensures
            (final(self).addr_cache(), final(self).resolving_stores(), r@) == send_store_step(
                old(self).addr_cache(),
                old(self).resolving_stores(),
                msg.to_peer.store_id,
                msg,
            ),
    {
        let to_store_id = msg.to_peer.store_id;
        self.send_store(to_store_id, msg)
    }

    /// Sends a message to `store_id`: straight away when its address is
    /// cached, dropped with an unreachable report while another resolution
    /// for it is in flight, and otherwise after starting one.
    pub fn send_store(&mut self, store_id: u64, msg: RaftMessage) -> (r: Vec<Action>)
        ensures
            (final(self).addr_cache(), final(self).resolving_stores(), r@) == send_store_step(
                old(self).addr_cache(),
                old(self).resolving_stores(),
                store_id,
                msg,
            ),
    {
        let cached = match self.addrs.get(&store_id) {
            Some(a) => Some(a.clone()),
            None => None,
        };
        if let Some(addr) = cached {
            let mut r = Vec::new();
            r.push(self.write_data(store_id, addr, msg));
            return r;
        }
        if self.resolving.contains(&store_id) {
            return self.report_unreachable(msg);
        }
        self.resolving.insert(store_id);
        let mut r = Vec::new();
        r.push(Action::Resolve { store_id, msg });
        r
    }

    /// Takes the resolver's answer for `store_id` and the message that started
    /// the resolution. A synchronous refusal by the resolver comes here too,
    /// as an error.
    pub fn on_resolved(&mut self, store_id: u64, msg: RaftMessage, addr: Result<String, Error>)
        -> (r: Vec<Action>)
        ensures
            (final(self).addr_cache(), final(self).resolving_stores(), r@) == resolved_step(
                old(self).addr_cache(),
                old(self).resolving_stores(),
                store_id,
                msg,
                addr.ok(),
            ),
    {
        self.resolving.remove(&store_id);
        match addr {
            Err(_) => self.report_unreachable(msg),
            Ok(addr) => {
                self.addrs.insert(store_id, addr.clone());
                let mut r = Vec::new();
                r.push(self.write_data(store_id, addr, msg));
                r.push(Action::ClientFlush);
                r
            },
        }
    }

    /// Forgets the cached address of `store_id`, so that the next send
    /// resolves it again.
    pub fn evict_addr(&mut self, store_id: u64)
        ensures
            final(self).addr_cache() == old(self).addr_cache().remove(store_id),
            final(self).resolving_stores() == old(self).resolving_stores(),
    {
        self.addrs.remove(&store_id);
    }

    pub fn write_data(&self, store_id: u64, addr: String, msg: RaftMessage) -> (a: Action)
        ensures
            a == write_data_action(store_id, addr, msg),
    {
        if msg.has_snapshot {
            return self.send_snapshot_sock(addr, msg);
        }
        Action::ClientSend { store_id, addr, msg }
    }

    pub fn send_snapshot_sock(&self, addr: String, msg: RaftMessage) -> (a: Action)
        ensures
            a == (Action::ScheduleSnapshot { addr, msg, reporter: SnapshotReporter::of(msg) }),
    {
        let reporter = self.new_snapshot_reporter(&msg);
        Action::ScheduleSnapshot { addr, msg, reporter }
    }

    pub fn new_snapshot_reporter(&self, msg: &RaftMessage) -> (rep: SnapshotReporter)
        ensures
            rep == SnapshotReporter::of(*msg),
    {
        SnapshotReporter {
            region_id: msg.region_id,
            to_peer_id: msg.to_peer.id,
            to_store_id: msg.to_peer.store_id,
        }
    }

    /// The reports for a message whose delivery is abandoned.
    pub fn report_unreachable(&self, msg: RaftMessage) -> (r: Vec<Action>)
        ensures
            r@ == unreachable_actions(msg),
    {
        let mut r = Vec::new();
        if msg.is_msg_snapshot() {
            let rep = self.new_snapshot_reporter(&msg);
            r.push(rep.report(SnapshotStatus::Failure));
        }
        r.push(
            Action::Significant {
                region_id: msg.region_id,
                signal: SignificantMsg::Unreachable { to_peer_id: msg.to_peer.id },
            },
        );
        assert(r@ =~= unreachable_actions(msg));
        r
    }

    pub fn flush_raft_client(&mut self) -> (a: Action)
        ensures
            a == Action::ClientFlush,
            final(self).addr_cache() == old(self).addr_cache(),
            final(self).resolving_stores() == old(self).resolving_stores(),
    {
        Action::ClientFlush
    }

    pub fn flush(&mut self) -> (a: Action)
        ensures
            a == Action::ClientFlush,
            final(self).addr_cache() == old(self).addr_cache(),
            final(self).resolving_stores() == old(self).resolving_stores(),
    {
        self.flush_raft_client()
    }
}

/// The fault hook on resolution: when `fail_store` names the store and the
/// pending message is a snapshot message, the resolver's answer becomes an
/// error.
pub fn inject_resolve_failure(
    fail_store: Option<u64>,
    store_id: u64,
    msg: &RaftMessage,
    addr: Result<String, Error>,
) -> (r: Result<String, Error>)
    ensures
        r == (if fail_store == Some(store_id) && msg.is_snapshot_msg() {
            Err(Error::ResolveFailure)
        } else {
            addr
        }),
{
    match fail_store {
        Some(s) => if s == store_id && msg.is_msg_snapshot() {
            Err(Error::ResolveFailure)
        } else {
            addr
        },
        None => addr,
    }
}

/// The action settles `msg`: hands it to the connection pool, hands it to
/// the snapshot worker, or reports its target peer unreachable to its region.
pub open spec fn settles(a: Action, msg: RaftMessage) -> bool {
    match a {
        Action::ClientSend { msg: m, .. } => m == msg,
        Action::ScheduleSnapshot { msg: m, .. } => m == msg,
        _ => a == unreachable_action(msg),
    }
}

/// How many of the actions settle `msg`.
pub open spec fn settle_count(acts: Seq<Action>, msg: RaftMessage) -> nat
    decreases acts.len(),
{
    if acts.len() == 0 {
        0
    } else {
        settle_count(acts.drop_last(), msg) + if settles(acts.last(), msg) {
            1nat
        } else {
            0nat
        }
    }
}

/// The action asks the resolver for the address of `store_id`.
pub open spec fn resolves(a: Action, store_id: u64) -> bool {
    match a {
        Action::Resolve { store_id: s, .. } => s == store_id,
        _ => false,
    }
}

/// Some action asks the resolver for the address of `store_id`.
pub open spec fn starts_resolution(acts: Seq<Action>, store_id: u64) -> bool {
    exists|i: int| 0 <= i < acts.len() && resolves(#[trigger] acts[i], store_id)
}

proof fn lemma_unreachable_settles_once(msg: RaftMessage)
    ensures
        settle_count(unreachable_actions(msg), msg) == 1,
        !starts_resolution(unreachable_actions(msg), msg.to_peer.store_id),
{
    reveal_with_fuel(settle_count, 3);
    let acts = unreachable_actions(msg);
    assert(!settles(snapshot_failure_action(msg), msg));
    assert(settle_count(seq![unreachable_action(msg)], msg) == 1) by {
        assert(seq![unreachable_action(msg)].drop_last() =~= Seq::<Action>::empty());
    }
    if msg.is_snapshot_msg() {
        assert(acts.drop_last() =~= seq![snapshot_failure_action(msg)]);
        assert(seq![snapshot_failure_action(msg)].drop_last() =~= Seq::<Action>::empty());
    }
}

proof fn lemma_write_data_settles_once(store_id: u64, addr: String, msg: RaftMessage)
    ensures
        settle_count(seq![write_data_action(store_id, addr, msg)], msg) == 1,
        settle_count(seq![write_data_action(store_id, addr, msg), Action::ClientFlush], msg)
            == 1,
{
    reveal_with_fuel(settle_count, 3);
    let w = write_data_action(store_id, addr, msg);
    assert(settles(w, msg));
    assert(!settles(Action::ClientFlush, msg));
    assert(seq![w].drop_last() =~= Seq::<Action>::empty());
    assert(seq![w, Action::ClientFlush].drop_last() =~= seq![w]);
}

/// Every message handed to `send` is settled exactly once, whatever the
/// state: it is handed to the connection pool, or to the snapshot worker, or
/// its peer is reported unreachable to its region. When the send starts a
/// resolution, the settling action comes with the resolver's answer, a
/// failed or refused resolution being `None`.
pub proof fn lemma_send_settles_once(
    addrs: Map<u64, String>,
    resolving: Set<u64>,
    msg: RaftMessage,
    answer: Option<String>,
)
    ensures
        ({
            let store_id = msg.to_peer.store_id;
            let (addrs1, resolving1, acts) = send_store_step(addrs, resolving, store_id, msg);
            if starts_resolution(acts, store_id) {
                &&& settle_count(acts, msg) == 0
                &&& settle_count(resolved_step(addrs1, resolving1, store_id, msg, answer).2, msg)
                    == 1
            } else {
                settle_count(acts, msg) == 1
            }
        }),
{
    let store_id = msg.to_peer.store_id;
    let (addrs1, resolving1, acts) = send_store_step(addrs, resolving, store_id, msg);
    if addrs.contains_key(store_id) {
        lemma_write_data_settles_once(store_id, addrs[store_id], msg);
        assert(!resolves(acts[0], store_id));
    } else if resolving.contains(store_id) {
        lemma_unreachable_settles_once(msg);
    } else {
        reveal_with_fuel(settle_count, 2);
        assert(resolves(acts[0], store_id));
        assert(!settles(acts[0], msg));
        assert(acts.drop_last() =~= Seq::<Action>::empty());
        match answer {
            Some(a) => lemma_write_data_settles_once(store_id, a, msg),
            None => lemma_unreachable_settles_once(msg),
        }
    }
}

/// A snapshot message whose delivery fails always brings a snapshot failure
/// report to its region: when it is dropped during a resolution in flight,
/// when its resolution fails, and when the snapshot worker refuses it or
/// fails to send it.
pub proof fn lemma_snapshot_failure_reported(
    addrs: Map<u64, String>,
    resolving: Set<u64>,
    msg: RaftMessage,
)
    requires
        msg.is_snapshot_msg(),
    ensures
        unreachable_actions(msg).contains(snapshot_failure_action(msg)),
        !addrs.contains_key(msg.to_peer.store_id) && resolving.contains(msg.to_peer.store_id)
            ==> send_store_step(addrs, resolving, msg.to_peer.store_id, msg).2.contains(
            snapshot_failure_action(msg),
        ),
        resolved_step(addrs, resolving, msg.to_peer.store_id, msg, None).2.contains(
            snapshot_failure_action(msg),
        ),
        SnapshotReporter::of(msg).status_action(SnapshotStatus::Failure)
            == snapshot_failure_action(msg),
{
    assert(unreachable_actions(msg)[0] == snapshot_failure_action(msg));
}

/// At most one resolution per store is in flight: a send to a store under
/// resolution starts none, a send that starts one finds the store outside
/// the set and leaves it inside, and the answer takes it out again.
pub proof fn lemma_single_resolution(
    addrs: Map<u64, String>,
    resolving: Set<u64>,
    store_id: u64,
    msg: RaftMessage,
    answer: Option<String>,
)
    ensures
        resolving.contains(store_id) ==> !starts_resolution(
            send_store_step(addrs, resolving, store_id, msg).2,
            store_id,
        ),
        starts_resolution(send_store_step(addrs, resolving, store_id, msg).2, store_id) ==> {
            &&& !resolving.contains(store_id)
            &&& send_store_step(addrs, resolving, store_id, msg).1.contains(store_id)
        },
        forall|s: u64|
            s != store_id ==> !starts_resolution(
                #[trigger] send_store_step(addrs, resolving, store_id, msg).2,
                s,
            ),
        !resolved_step(addrs, resolving, store_id, msg, answer).1.contains(store_id),
        !starts_resolution(resolved_step(addrs, resolving, store_id, msg, answer).2, store_id),
{
    let acts = send_store_step(addrs, resolving, store_id, msg).2;
    if addrs.contains_key(store_id) {
        assert(!starts_resolution(acts, store_id));
    } else if resolving.contains(store_id) {
        if msg.is_snapshot_msg() {
            assert(!resolves(acts[1], store_id));
        }
        assert(!starts_resolution(acts, store_id));
    }
    assert forall|s: u64| s != store_id implies !starts_resolution(
        #[trigger] send_store_step(addrs, resolving, store_id, msg).2,
        s,
    ) by {
        if msg.is_snapshot_msg() && !addrs.contains_key(store_id) && resolving.contains(store_id) {
            assert(!resolves(acts[1], s));
        }
    }
    let racts = resolved_step(addrs, resolving, store_id, msg, answer).2;
    if answer is None && msg.is_snapshot_msg() {
        assert(!resolves(racts[1], store_id));
    }
    if answer is Some {
        assert(!resolves(racts[1], store_id));
    }
}

} // verus!
