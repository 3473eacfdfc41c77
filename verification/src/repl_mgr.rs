//! The replication manager of the primary: the replicas it sends the log to
//! and, per replica, the last sequence number sent to it. Sending is done by
//! the caller through the handles it borrows; the manager records what was sent.
use crate::replication::{Lsn, ReplicaId};
use std::collections::HashMap;
use vstd::prelude::*;

verus! {

pub struct ReplMgrView<C> {
    /// Last sequence number replicated to each replica.
    pub progress: Map<ReplicaId, Lsn>,
    /// The handle of each replica.
    pub clients: Map<ReplicaId, C>,
}

/// Replication targets and their progress.
pub struct ReplMgr<C> {
    progress: HashMap<ReplicaId, Lsn>,
    clients: HashMap<ReplicaId, C>,
}

impl<C> View for ReplMgr<C> {
    type V = ReplMgrView<C>;

    closed spec fn view(&self) -> ReplMgrView<C> {
        ReplMgrView { progress: self.progress@, clients: self.clients@ }
    }
}

/// The progress after replicating `lsn` to the replicas in `sent`.
pub open spec fn progress_after(
    progress: Map<ReplicaId, Lsn>,
    sent: Seq<ReplicaId>,
    lsn: Lsn,
) -> Map<ReplicaId, Lsn> {
    Map::new(
        |id: ReplicaId| progress.contains_key(id) || sent.contains(id),
        |id: ReplicaId|
            if sent.contains(id) {
                lsn
            } else {
                progress[id]
            },
    )
}

impl<C> ReplMgr<C> {
    /// A manager for these replicas, none of which has been sent anything.
    pub fn new(clients: HashMap<ReplicaId, C>) -> (r: Self)
        ensures
            r@.clients == clients@,
            r@.progress == Map::<ReplicaId, Lsn>::empty(),
    {
        ReplMgr { progress: HashMap::new(), clients }
    }

    /// Lends the replica handles for sending; progress is left as it was.
    pub fn clients_mut(&mut self) -> (r: &mut HashMap<ReplicaId, C>)
        ensures
            r@ == old(self)@.clients,
            final(self)@.clients == final(r)@,
            final(self)@.progress == old(self)@.progress,
    {
        &mut self.clients
    }

    /// Records that the entry `lsn` was sent to each replica in `sent`, and
    /// hands `lsn` back as the replicated sequence number.
    pub fn record_replicated(&mut self, sent: &Vec<ReplicaId>, lsn: Lsn) -> (r: Lsn)
        ensures
            r == lsn,
            final(self)@.clients == old(self)@.clients,
            final(self)@.progress == progress_after(old(self)@.progress, sent@, lsn),
    {
        let mut i: usize = 0;
        while i < sent.len()
            invariant
                i <= sent.len(),
                self@.clients == old(self)@.clients,
                self@.progress == progress_after(
                    old(self)@.progress,
                    sent@.subrange(0, i as int),
                    lsn,
                ),
            decreases sent.len() - i,
        {
            let id = sent[i];
            self.progress.insert(id, lsn);
            proof {
                let before = sent@.subrange(0, i as int);
                let after = sent@.subrange(0, i as int + 1);
                assert(after =~= before.push(id));
                assert forall|x: ReplicaId| #[trigger] after.contains(x) <==> (before.contains(x)
                    || x == id) by {
                    if after.contains(x) && x != id {
                        let j = choose|j: int| 0 <= j < after.len() && after[j] == x;
                        assert(before[j] == x);
                    }
                    if x == id {
                        assert(after[i as int] == x);
                    }
                    if before.contains(x) {
                        let j = choose|j: int| 0 <= j < before.len() && before[j] == x;
                        assert(after[j] == x);
                    }
                }
                assert(self@.progress =~= progress_after(old(self)@.progress, after, lsn));
            }
            i = i + 1;
        }
        assert(sent@.subrange(0, sent.len() as int) =~= sent@);
        lsn
    }

    /// The ids of all replicas, each once, in the order the map holds them.
    pub fn client_ids(&self) -> (r: Vec<ReplicaId>)
        ensures
            r@.to_set() == self@.clients.dom(),
            r@.no_duplicates(),
    {
        let mut ids: Vec<ReplicaId> = Vec::new();
        let keys = self.clients.keys();
        let ghost expected = vstd::std_specs::iter::IteratorSpec::remaining(&keys);
        for id in it: keys
            invariant
                it.seq() == expected,
                ids.len() == it.index(),
                forall|j: int| 0 <= j < ids.len() ==> ids@[j] == *it.seq()[j],
        {
            ids.push(*id);
        }
        assert(ids@ =~= expected.unref());
        ids
    }

    /// The last sequence number replicated to a replica, if any.
    pub fn progress_of(&self, replica: ReplicaId) -> (r: Option<Lsn>)
        ensures
            r == (if self@.progress.contains_key(replica) {
                Some(self@.progress[replica])
            } else {
                None
            }),
    {
        match self.progress.get(&replica) {
            Some(l) => Some(*l),
            None => None,
        }
    }
}

/// After an entry is replicated to every client, every client's progress is
/// that entry, and replicas that were not sent to keep their progress.
pub proof fn lemma_replication_reaches_every_client<C>(
    mgr: ReplMgrView<C>,
    sent: Seq<ReplicaId>,
    lsn: Lsn,
    id: ReplicaId,
)
    requires
        forall|x: ReplicaId| #[trigger] mgr.clients.contains_key(x) ==> sent.contains(x),
    ensures
        mgr.clients.contains_key(id) ==> progress_after(mgr.progress, sent, lsn).contains_key(id)
            && progress_after(mgr.progress, sent, lsn)[id] == lsn,
        !sent.contains(id) ==> progress_after(mgr.progress, sent, lsn).contains_key(id)
            == mgr.progress.contains_key(id),
        !sent.contains(id) && mgr.progress.contains_key(id) ==> progress_after(
            mgr.progress,
            sent,
            lsn,
        )[id] == mgr.progress[id],
{
}

/// Replicating to exactly the ids `client_ids` returns brings every client to
/// the entry replicated.
pub proof fn lemma_replicating_to_client_ids<C>(
    mgr: ReplMgrView<C>,
    sent: Seq<ReplicaId>,
    lsn: Lsn,
    id: ReplicaId,
)
    requires
        sent.to_set() == mgr.clients.dom(),
        mgr.clients.contains_key(id),
    ensures
        progress_after(mgr.progress, sent, lsn).contains_key(id),
        progress_after(mgr.progress, sent, lsn)[id] == lsn,
{
    assert forall|x: ReplicaId| #[trigger] mgr.clients.contains_key(x) implies sent.contains(x) by {
        assert(sent.to_set().contains(x));
    }
    lemma_replication_reaches_every_client(mgr, sent, lsn, id);
}

} // verus!
