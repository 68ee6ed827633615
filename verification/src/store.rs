//! The snapshots a server retains, and the choice of what each client is
//! sent.
//!
//! The server captures one snapshot per tick and keeps the last
//! [`SNAPSHOT_WINDOW`] of them. A client that has acknowledged a retained
//! snapshot is sent what changed since; any other client is sent everything.
//! Building an update reads the store and never changes it.

use vstd::prelude::*;
use crate::snapshot::{CharacterSnapshot, Snapshot, SnapshotDiff};

verus! {

/// How many snapshots a store retains: about a second of ticks.
pub const SNAPSHOT_WINDOW: usize = 64;

/// The last [`SNAPSHOT_WINDOW`] snapshots, oldest first.
#[derive(Debug)]
pub struct SnapshotContainer {
    next_id: u64,
    snapshots: Vec<Snapshot>,
}

impl View for SnapshotContainer {
    type V = Seq<Snapshot>;

    closed spec fn view(&self) -> Seq<Snapshot> {
        self.snapshots@
    }
}

impl SnapshotContainer {
    /// The id that the next captured snapshot gets.
    pub closed spec fn next_id(&self) -> u64 {
        self.next_id
    }

    /// The store is no longer than the window, and holds the ids that end
    /// just below [`Self::next_id`], one after the other.
    pub open spec fn wf(&self) -> bool {
        &&& self@.len() <= SNAPSHOT_WINDOW
        &&& forall|i: int|
            0 <= i < self@.len() ==> (#[trigger] self@[i]).id == self.next_id() - self@.len() + i
    }

    /// The place of the snapshot `id` in a well-formed store, if it is
    /// still retained.
    pub open spec fn position_of(&self, id: u64) -> Option<int> {
        if self.next_id() - self@.len() <= id < self.next_id() {
            Some(id - (self.next_id() - self@.len()))
        } else {
            None
        }
    }

    /// The retained snapshot that a client has acknowledged, if it has
    /// acknowledged one and that one is still retained.
    pub open spec fn acknowledged(&self, last_acked_snapshot_id: Option<u64>) -> Option<Snapshot> {
        match last_acked_snapshot_id {
            Some(id) => match self.position_of(id) {
                Some(at) => Some(self@[at]),
                None => None,
            },
            None => None,
        }
    }

    /// An empty store, whose first snapshot will be number 0.
    pub fn new() -> (store: SnapshotContainer)
        ensures
            store.wf(),
            store@ == Seq::<Snapshot>::empty(),
            store.next_id() == 0,
    {
        SnapshotContainer { next_id: 0, snapshots: Vec::new() }
    }

    /// The id that the next captured snapshot gets.
    pub fn next_snapshot_id(&self) -> (id: u64)
        ensures
            id == self.next_id(),
    {
        self.next_id
    }

    /// How many snapshots are retained.
    pub fn len(&self) -> (n: usize)
        ensures
            n == self@.len(),
    {
        self.snapshots.len()
    }

    /// The retained snapshots, oldest first.
    pub fn snapshots(&self) -> (snapshots: &Vec<Snapshot>)
        ensures
            snapshots@ == self@,
    {
        &self.snapshots
    }

    /// The newest snapshot.
    pub fn latest(&self) -> (snapshot: Option<&Snapshot>)
        ensures
            match snapshot {
                Some(snapshot) => self@.len() > 0 && *snapshot == self@.last(),
                None => self@.len() == 0,
            },
    {
        let n = self.snapshots.len();
        if n > 0 {
            Some(&self.snapshots[n - 1])
        } else {
            None
        }
    }

    /// Stores the characters of this tick as the snapshot with the next
    /// id, and drops the oldest snapshot when the store would outgrow the
    /// window. Returns the id given.
    pub fn capture(&mut self, characters: Vec<CharacterSnapshot>) -> (id: u64)
        requires
            old(self).wf(),
            old(self).next_id() < u64::MAX,
        ensures
            final(self).wf(),
            id == old(self).next_id(),
            final(self).next_id() == id + 1,
            final(self)@ == (if old(self)@.len() >= SNAPSHOT_WINDOW {
                old(self)@.drop_first()
            } else {
                old(self)@
            }).push(Snapshot { id, character_snapshots: characters }),
    {
        let id = self.next_id;
        self.snapshots.push(Snapshot { id, character_snapshots: characters });
        self.next_id = id + 1;
        if self.snapshots.len() > SNAPSHOT_WINDOW {
            self.snapshots.remove(0);
        }
        id
    }

    /// The place of the first retained snapshot with the id `id`.
    pub fn find(&self, id: u64) -> (found: Option<usize>)
        ensures
            match found {
                Some(i) => i < self@.len() && self@[i as int].id == id && forall|j: int|
                    0 <= j < i ==> (#[trigger] self@[j]).id != id,
                None => forall|j: int| 0 <= j < self@.len() ==> (#[trigger] self@[j]).id != id,
            },
            self.wf() ==> match found {
                Some(i) => self.position_of(id) == Some(i as int),
                None => self.position_of(id) is None,
            },
    {
        let mut i: usize = 0;
        while i < self.snapshots.len()
            invariant
                i <= self.snapshots.len(),
                forall|j: int| 0 <= j < i ==> (#[trigger] self.snapshots@[j]).id != id,
            decreases self.snapshots.len() - i,
        {
            if self.snapshots[i].id == id {
                return Some(i);
            }
            i += 1;
        }
        proof {
            if self.wf() && self.position_of(id) is Some {
                let at = self.position_of(id)->0;
                assert(self@[at].id == id);
            }
        }
        None
    }

    /// The update to send to a client that has acknowledged the snapshot
    /// `last_acked_snapshot_id` and whose newest consumed input is
    /// `newest_processed_input_id`.
    ///
    /// There is none while the store is empty. Otherwise the update is
    /// that of the newest snapshot: against the acknowledged snapshot if
    /// it is still retained, and in full if the client has acknowledged
    /// none or the acknowledged one is gone.
    pub fn diff_for(
        &self,
        last_acked_snapshot_id: Option<u64>,
        newest_processed_input_id: Option<u32>,
    ) -> (update: Option<SnapshotDiff>)
        requires
            self.wf(),
        ensures
            (update is None) == (self@.len() == 0),
            update matches Some(update) ==> {
                &&& update.id == self@.last().id
                &&& update.acked_input_id == newest_processed_input_id
                &&& match self.acknowledged(last_acked_snapshot_id) {
                    Some(base) => {
                        &&& update.character_snapshots@ == self@.last().diff_entries(base)
                        &&& update.character_deletions@ == self@.last().deletions_since(base)
                    },
                    None => {
                        &&& update.character_snapshots@ == self@.last().full_entries()
                        &&& update.character_deletions@ == Seq::<u64>::empty()
                    },
                }
            },
    {
        let latest = match self.latest() {
            Some(latest) => latest,
            None => {
                return None;
            },
        };
        let base = match last_acked_snapshot_id {
            Some(id) => self.find(id),
            None => None,
        };
        let mut update = match base {
            Some(at) => latest.diff(&self.snapshots[at]),
            None => latest.full(),
        };
        update.acked_input_id = newest_processed_input_id;
        Some(update)
    }
}

/// A client that has acknowledged no snapshot, or one that the store no
/// longer retains, is sent the newest snapshot in full: one record for
/// each character, each with every field.
pub proof fn law_unknown_acknowledgement_gets_everything(
    store: SnapshotContainer,
    last_acked_snapshot_id: Option<u64>,
)
    requires
        store.wf(),
        store@.len() > 0,
        match last_acked_snapshot_id {
            Some(id) => store.position_of(id) is None,
            None => true,
        },
    ensures
        store.acknowledged(last_acked_snapshot_id) is None,
        store@.last().full_entries().len() == store@.last().character_snapshots@.len(),
        forall|i: int|
            0 <= i < store@.last().full_entries().len() ==> (
            #[trigger] store@.last().full_entries()[i]).carries_everything(),
{
}

/// A store never retains more than its window, and what it retains are
/// the newest snapshots: the ids from `next_id - len` up to `next_id - 1`.
pub proof fn law_store_retains_newest(store: SnapshotContainer, id: u64)
    requires
        store.wf(),
    ensures
        store@.len() <= SNAPSHOT_WINDOW,
        store.position_of(id) is Some <==> exists|i: int|
            0 <= i < store@.len() && (#[trigger] store@[i]).id == id,
{
    if store.position_of(id) is Some {
        let at = store.position_of(id)->0;
        assert(store@[at].id == id);
    }
}

} // verus!
