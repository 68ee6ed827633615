//! Snapshots of the simulated characters and the delta between two of them.
//!
//! A [`Snapshot`] is what the server captured at one tick. A
//! [`SnapshotDiff`] is what one client is sent: for each character the
//! fields that differ from the snapshot the client last acknowledged, the
//! characters that the client has not seen in full, and the characters that
//! are gone. Fields are compared as numbers, with no tolerance.

use vstd::prelude::*;
use crate::scalar::{Scalar, Vector3};

verus! {

/// One character as captured at one tick.
#[derive(Clone, Copy, Debug, PartialEq, Eq, Structural)]
pub struct CharacterSnapshot {
    pub client_id: u64,
    pub translation: Vector3,
    pub velocity: Vector3,
    pub yaw: Scalar,
    pub pitch: Scalar,
    pub grounded: bool,
}

/// What is sent of one character: each field is present only where the
/// recipient does not hold its value already.
#[derive(Clone, Copy, Debug, PartialEq, Eq)]
pub struct CharacterSnapshotDiff {
    pub client_id: u64,
    pub position: Option<Vector3>,
    pub velocity: Option<Vector3>,
    pub yaw: Option<Scalar>,
    pub pitch: Option<Scalar>,
    pub grounded: Option<bool>,
}

/// Every character alive at one tick, under the tick's snapshot id.
#[derive(Clone, Debug, PartialEq, Eq)]
pub struct Snapshot {
    pub id: u64,
    pub character_snapshots: Vec<CharacterSnapshot>,
}

/// The update that takes a client from the snapshot it acknowledged to the
/// snapshot `id`.
#[derive(Clone, Debug, PartialEq, Eq)]
pub struct SnapshotDiff {
    pub id: u64,
    pub character_snapshots: Vec<CharacterSnapshotDiff>,
    /// Newest input of the recipient that the server had consumed.
    pub acked_input_id: Option<u32>,
    /// Characters of the acknowledged snapshot that are no longer alive.
    pub character_deletions: Vec<u64>,
}

impl CharacterSnapshotDiff {
    /// No field is present.
    pub open spec fn carries_nothing(self) -> bool {
        &&& self.position is None
        &&& self.velocity is None
        &&& self.yaw is None
        &&& self.pitch is None
        &&& self.grounded is None
    }

    /// Every field is present.
    pub open spec fn carries_everything(self) -> bool {
        &&& self.position is Some
        &&& self.velocity is Some
        &&& self.yaw is Some
        &&& self.pitch is Some
        &&& self.grounded is Some
    }
}

impl From<&CharacterSnapshot> for CharacterSnapshotDiff {
    /// The record of a character that the recipient has not seen: every
    /// field present, with the character's value.
    fn from(snapshot: &CharacterSnapshot) -> (r: CharacterSnapshotDiff) {
        CharacterSnapshotDiff {
            client_id: snapshot.client_id,
            position: Some(snapshot.translation),
            velocity: Some(snapshot.velocity),
            yaw: Some(snapshot.yaw),
            pitch: Some(snapshot.pitch),
            grounded: Some(snapshot.grounded),
        }
    }
}

impl vstd::std_specs::convert::FromSpecImpl<&CharacterSnapshot> for CharacterSnapshotDiff {
    open spec fn obeys_from_spec() -> bool {
        true
    }

    open spec fn from_spec(snapshot: &CharacterSnapshot) -> CharacterSnapshotDiff {
        snapshot.full_record()
    }
}

impl CharacterSnapshot {
    /// The record that carries every field of this character.
    pub open spec fn full_record(self) -> CharacterSnapshotDiff {
        CharacterSnapshotDiff {
            client_id: self.client_id,
            position: Some(self.translation),
            velocity: Some(self.velocity),
            yaw: Some(self.yaw),
            pitch: Some(self.pitch),
            grounded: Some(self.grounded),
        }
    }

    /// The record that carries the fields of this character that are not
    /// numerically equal to those of `other`.
    pub open spec fn changes_since(self, other: CharacterSnapshot) -> CharacterSnapshotDiff {
        CharacterSnapshotDiff {
            client_id: self.client_id,
            position: if self.translation.num_eq(other.translation) {
                None
            } else {
                Some(self.translation)
            },
            velocity: if self.velocity.num_eq(other.velocity) {
                None
            } else {
                Some(self.velocity)
            },
            yaw: if self.yaw.num_eq(other.yaw) {
                None
            } else {
                Some(self.yaw)
            },
            pitch: if self.pitch.num_eq(other.pitch) {
                None
            } else {
                Some(self.pitch)
            },
            grounded: if self.grounded == other.grounded {
                None
            } else {
                Some(self.grounded)
            },
        }
    }

    /// What a recipient that holds `other` is sent of this character:
    /// nothing when no field changed, else the changed fields.
    pub open spec fn diff_spec(self, other: CharacterSnapshot) -> Option<CharacterSnapshotDiff> {
        if self.changes_since(other).carries_nothing() {
            None
        } else {
            Some(self.changes_since(other))
        }
    }

    /// The fields of this character that changed since `other`, or `None`
    /// when none did.
    pub fn diff(&self, other: &Self) -> (r: Option<CharacterSnapshotDiff>)
        ensures
            r == self.diff_spec(*other),
    {
        let out = CharacterSnapshotDiff {
            client_id: self.client_id,
            position: if !self.translation.same(&other.translation) {
                Some(self.translation)
            } else {
                None
            },
            velocity: if !self.velocity.same(&other.velocity) {
                Some(self.velocity)
            } else {
                None
            },
            yaw: if !self.yaw.same(&other.yaw) {
                Some(self.yaw)
            } else {
                None
            },
            pitch: if !self.pitch.same(&other.pitch) {
                Some(self.pitch)
            } else {
                None
            },
            grounded: if self.grounded != other.grounded {
                Some(self.grounded)
            } else {
                None
            },
        };
        if out.position.is_some() || out.velocity.is_some() || out.yaw.is_some()
            || out.pitch.is_some() || out.grounded.is_some() {
            Some(out)
        } else {
            None
        }
    }
}

/// The first character of `characters` that belongs to `client_id`.
pub open spec fn first_of_client(characters: Seq<CharacterSnapshot>, client_id: u64) -> Option<
    CharacterSnapshot,
>
    decreases characters.len(),
{
    if characters.len() == 0 {
        None
    } else if characters[0].client_id == client_id {
        Some(characters[0])
    } else {
        first_of_client(characters.drop_first(), client_id)
    }
}

/// What is sent of `current` to a recipient that holds `base`: the full
/// record when `base` has no character of that client, the changed fields
/// when it has one, nothing when it has one and no field changed.
pub open spec fn entry_against(base: Seq<CharacterSnapshot>, current: CharacterSnapshot) -> Option<
    CharacterSnapshotDiff,
> {
    match first_of_client(base, current.client_id) {
        Some(known) => current.diff_spec(known),
        None => Some(current.full_record()),
    }
}

/// [`entry_against`] with its first argument fixed.
pub open spec fn entry_fn(base: Seq<CharacterSnapshot>) -> spec_fn(CharacterSnapshot) -> Option<
    CharacterSnapshotDiff,
> {
    |current: CharacterSnapshot| entry_against(base, current)
}

/// The client id of `old` when `current` has no character of that client.
pub open spec fn deletion_fn(current: Seq<CharacterSnapshot>) -> spec_fn(CharacterSnapshot) -> Option<
    u64,
> {
    |old: CharacterSnapshot|
        if first_of_client(current, old.client_id) is None {
            Some(old.client_id)
        } else {
            None
        }
}

/// [`CharacterSnapshot::full_record`] as a function value.
pub open spec fn full_fn() -> spec_fn(CharacterSnapshot) -> CharacterSnapshotDiff {
    |current: CharacterSnapshot| current.full_record()
}

/// The first character of `characters` that belongs to `client_id`.
pub fn find_character(characters: &Vec<CharacterSnapshot>, client_id: u64) -> (r: Option<
    CharacterSnapshot,
>)
    ensures
        r == first_of_client(characters@, client_id),
{
    let mut i: usize = 0;
    assert(characters@.skip(0) =~= characters@);
    while i < characters.len()
        invariant
            i <= characters.len(),
            first_of_client(characters@, client_id) == first_of_client(
                characters@.skip(i as int),
                client_id,
            ),
        decreases characters.len() - i,
    {
        if characters[i].client_id == client_id {
            return Some(characters[i]);
        }
        assert(characters@.skip(i as int).drop_first() =~= characters@.skip(i + 1));
        i += 1;
    }
    None
}

impl Snapshot {
    /// The records of [`Snapshot::diff`], in the order of this snapshot's
    /// characters.
    pub open spec fn diff_entries(self, other: Snapshot) -> Seq<CharacterSnapshotDiff> {
        self.character_snapshots@.filter_map(entry_fn(other.character_snapshots@))
    }

    /// The clients of `other` that have no character in this snapshot, in
    /// the order of `other`.
    pub open spec fn deletions_since(self, other: Snapshot) -> Seq<u64> {
        other.character_snapshots@.filter_map(deletion_fn(self.character_snapshots@))
    }

    /// The full record of every character, in order.
    pub open spec fn full_entries(self) -> Seq<CharacterSnapshotDiff> {
        self.character_snapshots@.map_values(full_fn())
    }

    /// The update for a recipient that holds `other`. The acknowledged
    /// input is left empty, for the sender to fill in.
    pub fn diff(&self, other: &Self) -> (d: SnapshotDiff)
        ensures
            d.id == self.id,
            d.acked_input_id is None,
            d.character_snapshots@ == self.diff_entries(*other),
            d.character_deletions@ == self.deletions_since(*other),
    {
        let mut out: Vec<CharacterSnapshotDiff> = Vec::new();
        let mut i: usize = 0;
        while i < self.character_snapshots.len()
            invariant
                i <= self.character_snapshots.len(),
                out@ == self.character_snapshots@.take(i as int).filter_map(
                    entry_fn(other.character_snapshots@),
                ),
            decreases self.character_snapshots.len() - i,
        {
            let character = self.character_snapshots[i];
            proof {
                self.character_snapshots@.lemma_filter_map_take_succ(
                    entry_fn(other.character_snapshots@),
                    i as int,
                );
            }
            match find_character(&other.character_snapshots, character.client_id) {
                Some(known) => {
                    match character.diff(&known) {
                        Some(entry) => {
                            out.push(entry);
                        },
                        None => {},
                    }
                },
                None => {
                    out.push(CharacterSnapshotDiff::from(&character));
                },
            }
            i += 1;
        }
        assert(self.character_snapshots@.take(i as int) =~= self.character_snapshots@);

        let mut gone: Vec<u64> = Vec::new();
        let mut j: usize = 0;
        while j < other.character_snapshots.len()
            invariant
                j <= other.character_snapshots.len(),
                gone@ == other.character_snapshots@.take(j as int).filter_map(
                    deletion_fn(self.character_snapshots@),
                ),
            decreases other.character_snapshots.len() - j,
        {
            let old_character = other.character_snapshots[j];
            proof {
                other.character_snapshots@.lemma_filter_map_take_succ(
                    deletion_fn(self.character_snapshots@),
                    j as int,
                );
            }
            if find_character(&self.character_snapshots, old_character.client_id).is_none() {
                gone.push(old_character.client_id);
            }
            j += 1;
        }
        assert(other.character_snapshots@.take(j as int) =~= other.character_snapshots@);

        SnapshotDiff {
            id: self.id,
            acked_input_id: None,
            character_snapshots: out,
            character_deletions: gone,
        }
    }

    /// The update for a recipient that holds nothing: the full record of
    /// every character, and no deletion.
    pub fn full(&self) -> (d: SnapshotDiff)
        ensures
            d.id == self.id,
            d.acked_input_id is None,
            d.character_snapshots@ == self.full_entries(),
            d.character_deletions@ == Seq::<u64>::empty(),
    {
        let mut out: Vec<CharacterSnapshotDiff> = Vec::new();
        let mut i: usize = 0;
        while i < self.character_snapshots.len()
            invariant
                i <= self.character_snapshots.len(),
                out@.len() == i,
                forall|k: int|
                    0 <= k < i ==> out@[k] == (#[trigger] self.character_snapshots@[k]).full_record(),
            decreases self.character_snapshots.len() - i,
        {
            out.push(CharacterSnapshotDiff::from(&self.character_snapshots[i]));
            i += 1;
        }
        assert(out@ =~= self.full_entries());
        SnapshotDiff {
            id: self.id,
            acked_input_id: None,
            character_snapshots: out,
            character_deletions: Vec::new(),
        }
    }
}

/// An element that `f` keeps is found, mapped, in the result of
/// `filter_map`.
proof fn lemma_filter_map_keeps<A, B>(s: Seq<A>, f: spec_fn(A) -> Option<B>, i: int)
    requires
        0 <= i < s.len(),
        f(s[i]) is Some,
    ensures
        s.filter_map(f).contains(f(s[i])->0),
    decreases s.len(),
{
    let rest = s.drop_last();
    if i == s.len() - 1 {
        let kept = rest.filter_map(f) + seq![f(s[i])->0];
        assert(kept[kept.len() - 1] == f(s[i])->0);
    } else {
        lemma_filter_map_keeps(rest, f, i);
        let found = choose|k: int|
            0 <= k < rest.filter_map(f).len() && rest.filter_map(f)[k] == f(s[i])->0;
        assert(s.filter_map(f)[found] == f(s[i])->0);
    }
}

/// A character whose position changed since the snapshot that the
/// recipient holds, and whose velocity did not, is sent with its position
/// and without its velocity.
pub proof fn law_diff_carries_changed_position_only(
    newer: Snapshot,
    older: Snapshot,
    i: int,
    known: CharacterSnapshot,
)
    requires
        0 <= i < newer.character_snapshots@.len(),
        first_of_client(older.character_snapshots@, newer.character_snapshots@[i].client_id)
            == Some(known),
        !newer.character_snapshots@[i].translation.num_eq(known.translation),
        newer.character_snapshots@[i].velocity.num_eq(known.velocity),
    ensures
        exists|k: int|
            0 <= k < newer.diff_entries(older).len() && {
                let entry = #[trigger] newer.diff_entries(older)[k];
                &&& entry.client_id == newer.character_snapshots@[i].client_id
                &&& entry.position == Some(newer.character_snapshots@[i].translation)
                &&& entry.velocity is None
            },
{
    let current = newer.character_snapshots@[i];
    let f = entry_fn(older.character_snapshots@);
    assert(f(current) == Some(current.changes_since(known)));
    lemma_filter_map_keeps(newer.character_snapshots@, f, i);
    let k = choose|k: int|
        0 <= k < newer.diff_entries(older).len() && newer.diff_entries(older)[k]
            == current.changes_since(known);
    assert(newer.diff_entries(older)[k].velocity is None);
}

/// A character that the recipient's snapshot does not hold is sent in
/// full.
pub proof fn law_diff_carries_unseen_character_in_full(newer: Snapshot, older: Snapshot, i: int)
    requires
        0 <= i < newer.character_snapshots@.len(),
        first_of_client(older.character_snapshots@, newer.character_snapshots@[i].client_id)
            is None,
    ensures
        newer.diff_entries(older).contains(newer.character_snapshots@[i].full_record()),
        newer.character_snapshots@[i].full_record().carries_everything(),
{
    let f = entry_fn(older.character_snapshots@);
    assert(f(newer.character_snapshots@[i]) == Some(newer.character_snapshots@[i].full_record()));
    lemma_filter_map_keeps(newer.character_snapshots@, f, i);
}

/// The full update has one record for each character, in order, and each
/// record carries every field with the character's own value.
pub proof fn law_full_update_carries_every_field(snapshot: Snapshot)
    ensures
        snapshot.full_entries().len() == snapshot.character_snapshots@.len(),
        forall|i: int|
            0 <= i < snapshot.character_snapshots@.len() ==> {
                let entry = #[trigger] snapshot.full_entries()[i];
                let character = snapshot.character_snapshots@[i];
                &&& entry.carries_everything()
                &&& entry.client_id == character.client_id
                &&& entry.position == Some(character.translation)
                &&& entry.velocity == Some(character.velocity)
                &&& entry.yaw == Some(character.yaw)
                &&& entry.pitch == Some(character.pitch)
                &&& entry.grounded == Some(character.grounded)
            },
{
}

/// Against a snapshot that holds none of its characters, the update of a
/// snapshot is its full update.
pub proof fn law_diff_against_strangers_is_full(newer: Snapshot, older: Snapshot)
    requires
        forall|i: int|
            0 <= i < newer.character_snapshots@.len() ==> first_of_client(
                older.character_snapshots@,
                (#[trigger] newer.character_snapshots@[i]).client_id,
            ) is None,
    ensures
        newer.diff_entries(older) == newer.full_entries(),
{
    lemma_all_kept(newer.character_snapshots@, older.character_snapshots@);
}

proof fn lemma_all_kept(current: Seq<CharacterSnapshot>, base: Seq<CharacterSnapshot>)
    requires
        forall|i: int|
            0 <= i < current.len() ==> first_of_client(base, (#[trigger] current[i]).client_id)
                is None,
    ensures
        current.filter_map(entry_fn(base)) == current.map_values(full_fn()),
    decreases current.len(),
{
    if current.len() > 0 {
        let rest = current.drop_last();
        lemma_all_kept(rest, base);
        assert(entry_fn(base)(current.last()) == Some(current.last().full_record()));
        assert(current.filter_map(entry_fn(base)) =~= current.map_values(full_fn()));
    } else {
        assert(current.filter_map(entry_fn(base)) =~= current.map_values(full_fn()));
    }
}

} // verus!
