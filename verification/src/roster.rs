//! Which characters a client has brought to life, and which it knows to be
//! gone.
//!
//! An update may speak of a character that the client does not simulate
//! yet. The client then brings it to life, once: a character whose spawn is
//! under way is reserved, and a character that an update has listed as
//! deleted is never brought back by a later record of it.

use vstd::prelude::*;
use crate::scalar::Vector3;
use crate::snapshot::CharacterSnapshotDiff;

verus! {

/// A set of client ids, held in a `hashbrown::HashSet<u64>`.
#[verifier::external_body]
pub struct IdSet {
    ids: hashbrown::HashSet<u64>,
}

/// The client ids that an [`IdSet`] holds.
pub uninterp spec fn id_set_contents(set: IdSet) -> Set<u64>;

/// `hashbrown::HashSet::new`: the set it creates is empty.
#[verifier::external_body]
fn id_set_new() -> (set: IdSet)
    ensures
        id_set_contents(set) == Set::<u64>::empty(),
{
    IdSet { ids: hashbrown::HashSet::new() }
}

/// `hashbrown::HashSet::contains`: true exactly if the set holds the
/// value.
#[verifier::external_body]
fn id_set_contains(set: &IdSet, id: u64) -> (held: bool)
    ensures
        held == id_set_contents(*set).contains(id),
{
    set.ids.contains(&id)
}

/// `hashbrown::HashSet::insert`: the set holds the value afterwards and is
/// otherwise as before; true is returned exactly if the set did not hold
/// the value.
#[verifier::external_body]
fn id_set_insert(set: &mut IdSet, id: u64) -> (fresh: bool)
    ensures
        id_set_contents(*final(set)) == id_set_contents(*old(set)).insert(id),
        fresh == !id_set_contents(*old(set)).contains(id),
{
    set.ids.insert(id)
}

/// The characters whose spawn the client has started.
pub struct ReservedPlayerControllerIds(pub IdSet);

/// The characters that an update has listed as deleted.
pub struct DeletedPlayerControllerIds(pub IdSet);

impl View for ReservedPlayerControllerIds {
    type V = Set<u64>;

    open spec fn view(&self) -> Set<u64> {
        id_set_contents(self.0)
    }
}

impl View for DeletedPlayerControllerIds {
    type V = Set<u64>;

    open spec fn view(&self) -> Set<u64> {
        id_set_contents(self.0)
    }
}

impl ReservedPlayerControllerIds {
    /// No character is reserved.
    pub fn new() -> (reserved: ReservedPlayerControllerIds)
        ensures
            reserved@ == Set::<u64>::empty(),
    {
        ReservedPlayerControllerIds(id_set_new())
    }

    /// Whether the character of `client_id` is reserved.
    pub fn contains(&self, client_id: u64) -> (held: bool)
        ensures
            held == self@.contains(client_id),
    {
        id_set_contains(&self.0, client_id)
    }

    /// Reserves the character of `client_id`. Says whether it was not
    /// reserved before.
    pub fn insert(&mut self, client_id: u64) -> (fresh: bool)
        ensures
            final(self)@ == old(self)@.insert(client_id),
            fresh == !old(self)@.contains(client_id),
    {
        id_set_insert(&mut self.0, client_id)
    }
}

impl DeletedPlayerControllerIds {
    /// No character is known to be gone.
    pub fn new() -> (deleted: DeletedPlayerControllerIds)
        ensures
            deleted@ == Set::<u64>::empty(),
    {
        DeletedPlayerControllerIds(id_set_new())
    }

    /// Whether the character of `client_id` is known to be gone.
    pub fn contains(&self, client_id: u64) -> (held: bool)
        ensures
            held == self@.contains(client_id),
    {
        id_set_contains(&self.0, client_id)
    }

    /// Notes that the character of `client_id` is gone. Says whether that
    /// was not known before.
    pub fn insert(&mut self, client_id: u64) -> (fresh: bool)
        ensures
            final(self)@ == old(self)@.insert(client_id),
            fresh == !old(self)@.contains(client_id),
    {
        id_set_insert(&mut self.0, client_id)
    }

    /// Notes every character that an update lists as deleted.
    pub fn note_deletions(&mut self, deletions: &Vec<u64>)
        ensures
            final(self)@ == old(self)@.union(deletions@.to_set()),
    {
        let mut i: usize = 0;
        assert(deletions@.take(0).to_set() =~= Set::<u64>::empty());
        assert(self@ =~= old(self)@.union(deletions@.take(0).to_set()));
        while i < deletions.len()
            invariant
                i <= deletions.len(),
                self@ == old(self)@.union(deletions@.take(i as int).to_set()),
            decreases deletions.len() - i,
        {
            let ghost before = self@;
            self.insert(deletions[i]);
            proof {
                let upto = deletions@.take(i as int);
                let next = deletions@.take(i + 1);
                assert(next =~= upto.push(deletions@[i as int]));
                assert(next.to_set() =~= upto.to_set().insert(deletions@[i as int])) by {
                    assert forall|id: u64|
                        next.to_set().contains(id) <==> upto.to_set().insert(
                            deletions@[i as int],
                        ).contains(id) by {
                        if next.contains(id) {
                            let at = choose|at: int| 0 <= at < next.len() && next[at] == id;
                            if at < i {
                                assert(upto[at] == id);
                            }
                        }
                        if upto.contains(id) {
                            let at = choose|at: int| 0 <= at < upto.len() && upto[at] == id;
                            assert(next[at] == id);
                        }
                        if id == deletions@[i as int] {
                            assert(next[i as int] == id);
                        }
                    }
                }
                assert(self@ =~= old(self)@.union(next.to_set()));
            }
            i += 1;
        }
        assert(deletions@.take(i as int) =~= deletions@);
    }
}

/// What a client does with the record of a character that is not its own.
#[derive(Clone, Copy, Debug, PartialEq, Eq)]
pub enum EntryAction {
    /// The client simulates the character: set it to what the record says.
    Update,
    /// The client does not simulate the character: bring it to life at
    /// this position. The character is reserved from now on.
    Spawn { position: Vector3 },
    /// Leave the record aside.
    Ignore,
}

/// See [`place_character`].
pub open spec fn placement(
    reserved: Set<u64>,
    deleted: Set<u64>,
    entry: CharacterSnapshotDiff,
    simulated: bool,
) -> EntryAction {
    if simulated {
        EntryAction::Update
    } else if reserved.contains(entry.client_id) || deleted.contains(entry.client_id) {
        EntryAction::Ignore
    } else {
        match entry.position {
            Some(position) => EntryAction::Spawn { position },
            None => EntryAction::Ignore,
        }
    }
}

/// Decides what becomes of a record, given whether the client simulates
/// the record's character already.
///
/// A simulated character is updated. One that is not simulated is brought
/// to life where the record carries a position, unless it is reserved or
/// known to be gone; bringing it to life reserves it.
pub fn place_character(
    reserved: &mut ReservedPlayerControllerIds,
    deleted: &DeletedPlayerControllerIds,
    entry: &CharacterSnapshotDiff,
    simulated: bool,
) -> (action: EntryAction)
    ensures
        action == placement(old(reserved)@, deleted@, *entry, simulated),
        final(reserved)@ == if action is Spawn {
            old(reserved)@.insert(entry.client_id)
        } else {
            old(reserved)@
        },
{
    if simulated {
        return EntryAction::Update;
    }
    if reserved.contains(entry.client_id) {
        return EntryAction::Ignore;
    }
    if deleted.contains(entry.client_id) {
        return EntryAction::Ignore;
    }
    match entry.position {
        Some(position) => {
            reserved.insert(entry.client_id);
            EntryAction::Spawn { position }
        },
        None => EntryAction::Ignore,
    }
}

/// A character is brought to life at most once: after the record of a
/// character has led to a spawn, no record of that character does again
/// while the character is not simulated.
pub proof fn law_spawn_happens_once(
    reserved: Set<u64>,
    deleted: Set<u64>,
    first: CharacterSnapshotDiff,
    second: CharacterSnapshotDiff,
)
    requires
        placement(reserved, deleted, first, false) is Spawn,
        second.client_id == first.client_id,
    ensures
        placement(reserved.insert(first.client_id), deleted, second, false) == EntryAction::Ignore,
{
}

/// A character that an update has listed as deleted is not brought back
/// by a record of it.
pub proof fn law_deleted_character_stays_gone(
    reserved: Set<u64>,
    deleted: Set<u64>,
    deletions: Seq<u64>,
    entry: CharacterSnapshotDiff,
)
    requires
        deletions.contains(entry.client_id),
    ensures
        placement(reserved, deleted.union(deletions.to_set()), entry, false) == EntryAction::Ignore,
{
}

} // verus!
