//! Replica-set vocabulary of the replicator and the replica manager, which
//! tracks the current (and, during reconfiguration, the previous) replica
//! set: which replicas it talks to and with what quorum.
//!
//! The handle used to talk to a replica is a type parameter `C`: the
//! manager only keeps, per replica id, a clone of the handle it was given.
use std::collections::HashMap;
use vstd::prelude::*;

verus! {

pub type Epoch = i64;

pub type Lsn = i64;

pub type ReplicaId = i64;

/// What the state provider did about a data loss.
#[derive(Debug, Clone, Copy, PartialEq, Eq, Structural)]
pub enum DataLossAction {
    /// The state provider left its state as it was.
    NoChange,
    StateChanged,
}

/// Role of a replica in its replica set.
#[derive(Debug, Clone, Copy, PartialEq, Eq, Structural)]
pub enum Role {
    Primary,
    ActiveSecondary,
    IdleSecondary,
    /// The replica holds no role.
    NoRole,
}

#[derive(Debug, Clone, Copy, PartialEq, Eq, Structural)]
pub enum ReplicaStatus {
    Up,
    Down,
}

/// Which replicas a catch-up must wait for.
#[derive(Debug, Clone, Copy, PartialEq, Eq, Structural)]
pub enum ReplicaSetQuorumMode {
    All,
    WriteQuorum,
}

/// One member of a replica set, with the handle used to reach it.
#[derive(Debug)]
pub struct ReplicaInfo<C> {
    pub id: ReplicaId,
    pub role: Role,
    pub status: ReplicaStatus,
    pub client: C,
    pub current_progress: i64,
    pub catch_up_capability: i64,
    /// The replica must be caught up as part of a quorum catch-up.
    pub must_catch_up: bool,
}

/// A replica set: its members and the number of acknowledgements a write needs.
#[derive(Debug)]
pub struct ReplicaSetConfig<C> {
    pub members: Vec<ReplicaInfo<C>>,
    pub write_quorum: usize,
}

/// The replicator service.
#[derive(Debug)]
pub struct XedioReplicator {}

/// The ids of a member list, in order.
pub open spec fn member_ids<C>(members: Seq<ReplicaInfo<C>>) -> Seq<ReplicaId> {
    members.map_values(|m: ReplicaInfo<C>| m.id)
}

/// Some member among the first `upto` has this id.
pub open spec fn has_id<C>(members: Seq<ReplicaInfo<C>>, upto: int, id: ReplicaId) -> bool {
    exists|i: int| 0 <= i < upto && #[trigger] members[i].id == id
}

/// Member `i` is the last one among the first `upto` with this id.
pub open spec fn last_with_id<C>(
    members: Seq<ReplicaInfo<C>>,
    upto: int,
    i: int,
    id: ReplicaId,
) -> bool {
    &&& 0 <= i < upto
    &&& members[i].id == id
    &&& forall|j: int| i < j < upto ==> #[trigger] members[j].id != id
}

/// Member `i` is the first one with this id.
pub open spec fn first_with_id<C>(members: Seq<ReplicaInfo<C>>, i: int, id: ReplicaId) -> bool {
    &&& 0 <= i < members.len()
    &&& members[i].id == id
    &&& forall|j: int| 0 <= j < i ==> #[trigger] members[j].id != id
}

/// The manager's mathematical state.
pub struct ReplicaManagerView<C> {
    pub replicas: Map<ReplicaId, C>,
    pub current: Seq<ReplicaId>,
    pub current_quorum: usize,
    pub previous: Seq<ReplicaId>,
    pub previous_quorum: usize,
}

/// The handles kept after configuring with `current` and `previous`: one per
/// id of either set; a current member's handle wins over a previous one, the
/// last current member with an id wins among the current members, and the
/// first previous member with an id wins among the previous ones.
pub open spec fn handles_for<C: Clone>(
    replicas: Map<ReplicaId, C>,
    current: Seq<ReplicaInfo<C>>,
    previous: Seq<ReplicaInfo<C>>,
) -> bool {
    &&& forall|id: ReplicaId|
        #[trigger] replicas.contains_key(id) <==> (has_id(current, current.len() as int, id)
            || has_id(previous, previous.len() as int, id))
    &&& forall|i: int, id: ReplicaId|
        #[trigger] last_with_id(current, current.len() as int, i, id) ==> cloned(
            current[i].client,
            replicas[id],
        )
    &&& forall|i: int, id: ReplicaId|
        #[trigger] first_with_id(previous, i, id) && !has_id(current, current.len() as int, id)
            ==> cloned(previous[i].client,
            replicas[id],
        )
}

/// Tracks the replicas of the current and previous configurations.
#[derive(Debug)]
pub struct ReplicaManager<C> {
    replicas: HashMap<ReplicaId, C>,
    current: Vec<ReplicaId>,
    current_quorum: usize,
    previous: Vec<ReplicaId>,
    previous_quorum: usize,
}

impl<C> View for ReplicaManager<C> {
    type V = ReplicaManagerView<C>;

    closed spec fn view(&self) -> ReplicaManagerView<C> {
        ReplicaManagerView {
            replicas: self.replicas@,
            current: self.current@,
            current_quorum: self.current_quorum,
            previous: self.previous@,
            previous_quorum: self.previous_quorum,
        }
    }
}

fn ids_of<C>(members: &Vec<ReplicaInfo<C>>) -> (r: Vec<ReplicaId>)
    ensures
        r@ == member_ids(members@),
{
    let mut ids: Vec<ReplicaId> = Vec::new();
    let mut i: usize = 0;
    while i < members.len()
        invariant
            i <= members.len(),
            ids@ == member_ids(members@.subrange(0, i as int)),
        decreases members.len() - i,
    {
        ids.push(members[i].id);
        assert(member_ids(members@.subrange(0, i as int + 1)) =~= member_ids(
            members@.subrange(0, i as int),
        ).push(members@[i as int].id));
        i = i + 1;
    }
    assert(members@.subrange(0, members.len() as int) =~= members@);
    ids
}

/// One handle per id of the current members: the last member with an id wins.
fn current_handles<C: Clone>(current: &Vec<ReplicaInfo<C>>) -> (r: HashMap<ReplicaId, C>)
    ensures
        handles_for(r@, current@, Seq::empty()),
{
    let mut handles: HashMap<ReplicaId, C> = HashMap::new();
    let mut k: usize = 0;
    while k < current.len()
        invariant
            k <= current.len(),
            forall|id: ReplicaId|
                #[trigger] handles@.contains_key(id) <==> has_id(current@, k as int, id),
            forall|i: int, id: ReplicaId|
                #[trigger] last_with_id(current@, k as int, i, id) ==> cloned(
                    current@[i].client,
                    handles@[id],
                ),
        decreases current.len() - k,
    {
        let id = current[k].id;
        let handle = current[k].client.clone();
        handles.insert(id, handle);
        proof {
            assert forall|x: ReplicaId| #[trigger]
                handles@.contains_key(x) <==> has_id(current@, k as int + 1, x) by {
                if x == id {
                    assert(current@[k as int].id == x);
                }
                if has_id(current@, k as int + 1, x) && x != id {
                    let i = choose|i: int| 0 <= i < k + 1 && #[trigger] current@[i].id == x;
                    assert(0 <= i < k && current@[i].id == x);
                }
            }
            assert forall|i: int, x: ReplicaId|
                #[trigger] last_with_id(current@, k as int + 1, i, x) implies cloned(
                current@[i].client,
                handles@[x],
            ) by {
                if i == k {
                } else {
                    assert(current@[k as int].id != x);
                    assert(last_with_id(current@, k as int, i, x));
                }
            }
        }
        k = k + 1;
    }
    proof {
        assert forall|id: ReplicaId| #[trigger]
            handles@.contains_key(id) <==> (has_id(current@, current@.len() as int, id) || has_id(
                Seq::<ReplicaInfo<C>>::empty(),
                0,
                id,
            )) by {}
        assert forall|i: int, id: ReplicaId|
            #[trigger] first_with_id(Seq::<ReplicaInfo<C>>::empty(), i, id) && !has_id(
                current@,
                current@.len() as int,
                id,
            ) implies cloned(Seq::<ReplicaInfo<C>>::empty()[i].client, handles@[id]) by {
        }
    }
    handles
}

impl<C: Clone> ReplicaManager<C> {
    /// A manager that knows no replica.
    pub fn new() -> (r: Self)
        ensures
            r@.replicas == Map::<ReplicaId, C>::empty(),
            r@.current == Seq::<ReplicaId>::empty(),
            r@.current_quorum == 0,
            r@.previous == Seq::<ReplicaId>::empty(),
            r@.previous_quorum == 0,
    {
        ReplicaManager {
            replicas: HashMap::new(),
            current: Vec::new(),
            current_quorum: 0,
            previous: Vec::new(),
            previous_quorum: 0,
        }
    }

    /// Switches to a reconfiguration from `previous` to `current`: the manager
    /// keeps a handle for every replica of either set and both quorums.
    pub fn update_configuration(
        &mut self,
        current: ReplicaSetConfig<C>,
        previous: ReplicaSetConfig<C>,
    )
        ensures
            handles_for(final(self)@.replicas, current.members@, previous.members@),
            final(self)@.current == member_ids(current.members@),
            final(self)@.current_quorum == current.write_quorum,
            final(self)@.previous == member_ids(previous.members@),
            final(self)@.previous_quorum == previous.write_quorum,
    {
        let mut handles = current_handles(&current.members);
        let ghost cur = current.members@;
        let ghost prev = previous.members@;
        let mut k: usize = 0;
        while k < previous.members.len()
            invariant
                k <= previous.members.len(),
                prev == previous.members@,
                cur == current.members@,
                forall|id: ReplicaId| #[trigger]
                    handles@.contains_key(id) <==> (has_id(cur, cur.len() as int, id) || has_id(
                        prev,
                        k as int,
                        id,
                    )),
                forall|i: int, id: ReplicaId|
                    #[trigger] last_with_id(cur, cur.len() as int, i, id) ==> cloned(
                        cur[i].client,
                        handles@[id],
                    ),
                forall|i: int, id: ReplicaId|
                    #[trigger] first_with_id(prev, i, id) && i < k && !has_id(
                        cur,
                        cur.len() as int,
                        id,
                    ) ==> cloned(prev[i].client, handles@[id]),
            decreases previous.members.len() - k,
        {
            let id = previous.members[k].id;
            if !handles.contains_key(&id) {
                let handle = previous.members[k].client.clone();
                handles.insert(id, handle);
                proof {
                    assert(prev[k as int].id == id);
                    assert forall|i: int, x: ReplicaId|
                        #[trigger] last_with_id(cur, cur.len() as int, i, x) implies cloned(
                        cur[i].client,
                        handles@[x],
                    ) by {
                        assert(has_id(cur, cur.len() as int, x));
                    }
                    assert forall|i: int, x: ReplicaId|
                        #[trigger] first_with_id(prev, i, x) && i < k + 1 && !has_id(
                            cur,
                            cur.len() as int,
                            x,
                        ) implies cloned(prev[i].client, handles@[x]) by {
                        if i == k {
                        } else {
                            assert(x != id) by {
                                if x == id {
                                    assert(prev[i].id == id);
                                    assert(has_id(prev, k as int, id));
                                }
                            }
                        }
                    }
                }
            } else {
                proof {
                    assert forall|i: int, x: ReplicaId|
                        #[trigger] first_with_id(prev, i, x) && i < k + 1 && !has_id(
                            cur,
                            cur.len() as int,
                            x,
                        ) implies cloned(prev[i].client, handles@[x]) by {
                        if i == k {
                            if !has_id(prev, k as int, x) {
                            } else {
                                let j = choose|j: int| 0 <= j < k && #[trigger] prev[j].id == x;
                                assert(prev[j].id != x);
                            }
                        }
                    }
                }
            }
            proof {
                assert forall|x: ReplicaId| #[trigger]
                    handles@.contains_key(x) <==> (has_id(cur, cur.len() as int, x) || has_id(
                        prev,
                        k as int + 1,
                        x,
                    )) by {
                    if x == id {
                        assert(prev[k as int].id == x);
                    }
                    if has_id(prev, k as int + 1, x) && x != id {
                        let i = choose|i: int| 0 <= i < k + 1 && #[trigger] prev[i].id == x;
                        assert(0 <= i < k && prev[i].id == x);
                    }
                }
            }
            k = k + 1;
        }
        self.replicas = handles;
        self.current = ids_of(&current.members);
        self.current_quorum = current.write_quorum;
        self.previous = ids_of(&previous.members);
        self.previous_quorum = previous.write_quorum;
    }

    /// Settles on `current` alone: the previous configuration is forgotten.
    pub fn update_current_configuration(&mut self, current: ReplicaSetConfig<C>)
        ensures
            handles_for(final(self)@.replicas, current.members@, Seq::empty()),
            final(self)@.current == member_ids(current.members@),
            final(self)@.current_quorum == current.write_quorum,
            final(self)@.previous == Seq::<ReplicaId>::empty(),
            final(self)@.previous_quorum == 0,
    {
        self.replicas = current_handles(&current.members);
        self.current = ids_of(&current.members);
        self.current_quorum = current.write_quorum;
        self.previous.clear();
        self.previous_quorum = 0;
    }
}

impl<C: Clone> ReplicaManager<C> {
    /// A clone of the handle kept for a replica, if the manager knows it.
    pub fn handle(&self, id: ReplicaId) -> (r: Option<C>)
        ensures
            match r {
                Some(c) => self@.replicas.contains_key(id) && cloned(self@.replicas[id], c),
                None => !self@.replicas.contains_key(id),
            },
    {
        match self.replicas.get(&id) {
            Some(c) => Some(c.clone()),
            None => None,
        }
    }

    /// The ids of the current configuration, in configuration order.
    pub fn current_ids(&self) -> (r: Vec<ReplicaId>)
        ensures
            r@ == self@.current,
    {
        self.current.clone()
    }

    /// The ids of the previous configuration, in configuration order.
    pub fn previous_ids(&self) -> (r: Vec<ReplicaId>)
        ensures
            r@ == self@.previous,
    {
        self.previous.clone()
    }

    /// The write quorums of the current and previous configurations.
    pub fn quorums(&self) -> (r: (usize, usize))
        ensures
            r == (self@.current_quorum, self@.previous_quorum),
    {
        (self.current_quorum, self.previous_quorum)
    }

    /// How many replicas the manager keeps a handle for.
    pub fn replica_count(&self) -> (r: usize)
        ensures
            r == self@.replicas.len(),
    {
        self.replicas.len()
    }
}

impl<C: Clone> Default for ReplicaManager<C> {
    fn default() -> (r: Self)
        ensures
            r@.replicas == Map::<ReplicaId, C>::empty(),
            r@.current == Seq::<ReplicaId>::empty(),
            r@.current_quorum == 0,
            r@.previous == Seq::<ReplicaId>::empty(),
            r@.previous_quorum == 0,
    {
        Self::new()
    }
}

/// Some member with an id has a last occurrence among the first `upto`.
proof fn lemma_last_occurrence<C>(members: Seq<ReplicaInfo<C>>, upto: int, id: ReplicaId)
    requires
        upto <= members.len(),
        has_id(members, upto, id),
    ensures
        exists|i: int| #[trigger] last_with_id(members, upto, i, id),
    decreases upto,
{
    if members[upto - 1].id == id {
        assert(last_with_id(members, upto, upto - 1, id));
    } else {
        let j = choose|j: int| 0 <= j < upto && #[trigger] members[j].id == id;
        assert(has_id(members, upto - 1, id)) by {
            assert(0 <= j < upto - 1 && members[j].id == id);
        }
        lemma_last_occurrence(members, upto - 1, id);
        let i = choose|i: int| #[trigger] last_with_id(members, upto - 1, i, id);
        assert(last_with_id(members, upto, i, id));
    }
}

/// Some member with an id has a first occurrence.
proof fn lemma_first_occurrence<C>(members: Seq<ReplicaInfo<C>>, upto: int, id: ReplicaId)
    requires
        upto <= members.len(),
        has_id(members, upto, id),
    ensures
        exists|i: int| 0 <= i < upto && #[trigger] first_with_id(members, i, id),
    decreases upto,
{
    if has_id(members, upto - 1, id) {
        lemma_first_occurrence(members, upto - 1, id);
        let i = choose|i: int| 0 <= i < upto - 1 && #[trigger] first_with_id(members, i, id);
        assert(0 <= i < upto && first_with_id(members, i, id));
    } else {
        assert(members[upto - 1].id == id);
        assert(first_with_id(members, upto - 1, id));
    }
}

/// After a reconfiguration, a replica of the current set is reached through
/// the handle of a current member with its id, even when the previous set
/// also has that id.
pub proof fn lemma_current_members_take_precedence<C: Clone>(
    replicas: Map<ReplicaId, C>,
    current: Seq<ReplicaInfo<C>>,
    previous: Seq<ReplicaInfo<C>>,
    id: ReplicaId,
)
    requires
        handles_for(replicas, current, previous),
        has_id(current, current.len() as int, id),
    ensures
        replicas.contains_key(id),
        exists|i: int|
            0 <= i < current.len() && current[i].id == id && cloned(
                #[trigger] current[i].client,
                replicas[id],
            ),
{
    lemma_last_occurrence(current, current.len() as int, id);
    let i = choose|i: int| #[trigger] last_with_id(current, current.len() as int, i, id);
    assert(cloned(current[i].client, replicas[id]));
}

/// After a reconfiguration, a replica only in the previous set is reached
/// through the handle of the first previous member with its id.
pub proof fn lemma_previous_members_are_kept<C: Clone>(
    replicas: Map<ReplicaId, C>,
    current: Seq<ReplicaInfo<C>>,
    previous: Seq<ReplicaInfo<C>>,
    id: ReplicaId,
)
    requires
        handles_for(replicas, current, previous),
        !has_id(current, current.len() as int, id),
        has_id(previous, previous.len() as int, id),
    ensures
        replicas.contains_key(id),
        exists|i: int|
            0 <= i < previous.len() && previous[i].id == id && cloned(
                #[trigger] previous[i].client,
                replicas[id],
            ),
{
    lemma_first_occurrence(previous, previous.len() as int, id);
    let i = choose|i: int|
        0 <= i < previous.len() && #[trigger] first_with_id(previous, i, id);
    assert(cloned(previous[i].client, replicas[id]));
}

/// The manager talks to no replica outside the two configurations.
pub proof fn lemma_no_stray_replicas<C: Clone>(
    replicas: Map<ReplicaId, C>,
    current: Seq<ReplicaInfo<C>>,
    previous: Seq<ReplicaInfo<C>>,
    id: ReplicaId,
)
    requires
        handles_for(replicas, current, previous),
        replicas.contains_key(id),
    ensures
        member_ids(current).contains(id) || member_ids(previous).contains(id),
{
    if has_id(current, current.len() as int, id) {
        let i = choose|i: int| 0 <= i < current.len() && #[trigger] current[i].id == id;
        assert(member_ids(current)[i] == id);
    } else {
        let i = choose|i: int| 0 <= i < previous.len() && #[trigger] previous[i].id == id;
        assert(member_ids(previous)[i] == id);
    }
}

/// Settling on a configuration is the same as reconfiguring to it from an
/// empty previous configuration with no quorum.
pub proof fn lemma_settle_is_reconfigure_from_empty<C: Clone>(
    settled: ReplicaManagerView<C>,
    current: ReplicaSetConfig<C>,
    no_previous: ReplicaSetConfig<C>,
)
    requires
        no_previous.members@.len() == 0,
        no_previous.write_quorum == 0,
        handles_for(settled.replicas, current.members@, Seq::empty()),
        settled.current == member_ids(current.members@),
        settled.current_quorum == current.write_quorum,
        settled.previous == Seq::<ReplicaId>::empty(),
        settled.previous_quorum == 0,
    ensures
        handles_for(settled.replicas, current.members@, no_previous.members@),
        settled.previous == member_ids(no_previous.members@),
        settled.previous_quorum == no_previous.write_quorum,
{
    assert(no_previous.members@ =~= Seq::<ReplicaInfo<C>>::empty());
    assert(member_ids(no_previous.members@) =~= Seq::<ReplicaId>::empty());
}

/// How many replicas of a set of `n` form a write quorum: a strict majority.
pub open spec fn majority(n: nat) -> nat {
    n / 2 + 1
}

/// Quorum commit is durable: if a write was acknowledged by a majority of
/// the replica set, every majority of the set that is still available holds
/// at least one replica with the write, and that replica can be (or become)
/// the primary.
pub proof fn lemma_quorums_intersect(
    replicas: Set<ReplicaId>,
    acked: Set<ReplicaId>,
    available: Set<ReplicaId>,
)
    requires
        replicas.finite(),
        acked.subset_of(replicas),
        available.subset_of(replicas),
        acked.len() >= majority(replicas.len()),
        available.len() >= majority(replicas.len()),
    ensures
        exists|r: ReplicaId| acked.contains(r) && available.contains(r),
{
    vstd::set_lib::lemma_len_subset(acked, replicas);
    vstd::set_lib::lemma_len_subset(available, replicas);
    vstd::set_lib::lemma_set_intersect_union_lens(acked, available);
    vstd::set_lib::lemma_len_subset(acked + available, replicas);
    let both = acked.intersect(available);
    assert(both.len() >= 1);
    if forall|r: ReplicaId| !(acked.contains(r) && available.contains(r)) {
        assert(both =~= Set::<ReplicaId>::empty());
        assert(both.len() == 0);
    }
}

} // verus!
