//! What a server keeps of each connected player: the inputs that have
//! arrived and wait to be consumed, the newest input consumed, and the
//! newest snapshot the player has acknowledged.
//!
//! Inputs travel over a channel that may drop and reorder them. The server
//! therefore keeps the waiting inputs ordered by their id, newest first,
//! consumes one per tick, and repeats the last one while none waits.

use vstd::prelude::*;
use crate::input::PlayerInput;

verus! {

/// A connected player.
#[derive(Clone, Debug, PartialEq, Eq)]
pub struct Player {
    pub client_id: u64,
    pub name: String,
    /// The newest snapshot that the player is known to have processed.
    pub last_acked_snapshot_id: Option<u64>,
    /// The newest input of the player that was applied to its character.
    pub newest_processed_input_id: Option<u32>,
    /// The newest input taken from the queue, repeated while none waits.
    pub last_input: Option<PlayerInput>,
}

/// The inputs of one player that wait to be consumed.
#[derive(Clone, Debug, PartialEq, Eq)]
pub struct PlayerInputQueue {
    pub inputs: Vec<PlayerInput>,
}

/// `input` put into `sorted` behind the last input whose id is not larger
/// than its own, or in front where there is none.
pub open spec fn stable_insert(sorted: Seq<PlayerInput>, input: PlayerInput) -> Seq<PlayerInput>
    decreases sorted.len(),
{
    if sorted.len() == 0 {
        seq![input]
    } else if sorted.last().id <= input.id {
        sorted.push(input)
    } else {
        stable_insert(sorted.drop_last(), input).push(sorted.last())
    }
}

/// The inputs by ascending id, those of one id in the order in which they
/// stand in `inputs`.
pub open spec fn oldest_first(inputs: Seq<PlayerInput>) -> Seq<PlayerInput>
    decreases inputs.len(),
{
    if inputs.len() == 0 {
        inputs
    } else {
        stable_insert(oldest_first(inputs.drop_last()), inputs.last())
    }
}

/// The inputs by descending id, those of one id in the reverse of the
/// order in which they stand in `inputs`.
pub open spec fn newest_first(inputs: Seq<PlayerInput>) -> Seq<PlayerInput> {
    oldest_first(inputs).reverse()
}

/// Whether the ids never fall from one input to the next.
pub open spec fn ascending(inputs: Seq<PlayerInput>) -> bool {
    forall|i: int, j: int| 0 <= i <= j < inputs.len() ==> inputs[i].id <= inputs[j].id
}

/// Whether the ids never rise from one input to the next.
pub open spec fn descending(inputs: Seq<PlayerInput>) -> bool {
    forall|i: int, j: int| 0 <= i <= j < inputs.len() ==> inputs[i].id >= inputs[j].id
}

/// The acknowledgement that a player has after an input tagged with
/// `reported` arrives: the largest snapshot id seen so far. An input that
/// reports an older snapshot, or none, leaves what is known; inputs may
/// arrive late, and the acknowledgement never goes back.
pub open spec fn merged_acknowledgement(known: Option<u64>, reported: Option<u64>) -> Option<u64> {
    match (known, reported) {
        (Some(last), Some(pending)) => if pending > last {
            Some(pending)
        } else {
            Some(last)
        },
        (Some(last), None) => Some(last),
        (None, _) => reported,
    }
}

/// The acknowledgement of a player never goes back: after an input has
/// arrived it is at least what it was, at least what the input reports,
/// and one of the two.
pub proof fn law_acknowledgement_keeps_the_largest(known: Option<u64>, reported: Option<u64>)
    ensures
        known matches Some(last) ==> merged_acknowledgement(known, reported) matches Some(now)
            && now >= last,
        reported matches Some(pending) ==> merged_acknowledgement(known, reported) matches Some(
            now,
        ) && now >= pending,
        merged_acknowledgement(known, reported) == known || merged_acknowledgement(
            known,
            reported,
        ) == reported,
{
}

/// Whether an input with the id `input_id` is newer than every input
/// applied so far.
pub open spec fn is_newest_input(newest_processed_input_id: Option<u32>, input_id: u32) -> bool {
    match newest_processed_input_id {
        Some(last) => input_id > last,
        None => true,
    }
}

proof fn lemma_stable_insert_at(sorted: Seq<PlayerInput>, input: PlayerInput, at: int)
    requires
        0 <= at <= sorted.len(),
        forall|k: int| at <= k < sorted.len() ==> (#[trigger] sorted[k]).id > input.id,
        at > 0 ==> sorted[at - 1].id <= input.id,
    ensures
        stable_insert(sorted, input) == sorted.insert(at, input),
    decreases sorted.len(),
{
    if sorted.len() == 0 {
        assert(seq![input] =~= sorted.insert(at, input));
    } else if at == sorted.len() {
        assert(sorted.push(input) =~= sorted.insert(at, input));
    } else {
        lemma_stable_insert_at(sorted.drop_last(), input, at);
        assert(sorted.drop_last().insert(at, input).push(sorted.last()) =~= sorted.insert(
            at,
            input,
        ));
    }
}

proof fn lemma_stable_insert_keeps_order(sorted: Seq<PlayerInput>, input: PlayerInput)
    requires
        ascending(sorted),
    ensures
        ascending(stable_insert(sorted, input)),
        stable_insert(sorted, input).len() == sorted.len() + 1,
        stable_insert(sorted, input).to_multiset() == sorted.to_multiset().insert(input),
    decreases sorted.len(),
{
    broadcast use vstd::seq_lib::to_multiset_build;

    if sorted.len() == 0 {
        assert(sorted.to_multiset() =~= vstd::multiset::Multiset::<PlayerInput>::empty()) by {
            sorted.to_multiset_ensures();
        }
        assert(seq![input] =~= Seq::<PlayerInput>::empty().push(input));
        assert(sorted =~= Seq::<PlayerInput>::empty());
    } else if sorted.last().id <= input.id {
    } else {
        let rest = sorted.drop_last();
        lemma_stable_insert_keeps_order(rest, input);
        let placed = stable_insert(rest, input);
        assert(sorted =~= rest.push(sorted.last()));
        assert(forall|k: int| 0 <= k < placed.len() ==> (#[trigger] placed[k]).id <= sorted.last().id)
            by {
            assert forall|k: int| 0 <= k < placed.len() implies (#[trigger] placed[k]).id
                <= sorted.last().id by {
                placed.to_multiset_ensures();
                rest.to_multiset_ensures();
                assert(placed.to_multiset().count(placed[k]) > 0);
                if placed[k] != input {
                    assert(rest.to_multiset().count(placed[k]) > 0);
                    assert(rest.contains(placed[k]));
                    let at = choose|at: int| 0 <= at < rest.len() && rest[at] == placed[k];
                    assert(sorted[at] == placed[k]);
                }
            }
        }
        assert(placed.push(sorted.last()).to_multiset() =~= sorted.to_multiset().insert(input));
    }
}

proof fn lemma_oldest_first_is_sorted(inputs: Seq<PlayerInput>)
    ensures
        ascending(oldest_first(inputs)),
        oldest_first(inputs).len() == inputs.len(),
        oldest_first(inputs).to_multiset() == inputs.to_multiset(),
    decreases inputs.len(),
{
    broadcast use vstd::seq_lib::to_multiset_build;

    if inputs.len() > 0 {
        lemma_oldest_first_is_sorted(inputs.drop_last());
        lemma_stable_insert_keeps_order(oldest_first(inputs.drop_last()), inputs.last());
        assert(inputs =~= inputs.drop_last().push(inputs.last()));
    }
}

/// The waiting inputs stand by descending id, and they are the inputs that
/// arrived: none is lost, none is made up, and each stands as often as it
/// arrived.
pub proof fn law_queue_holds_arrivals_newest_first(inputs: Seq<PlayerInput>)
    ensures
        descending(newest_first(inputs)),
        newest_first(inputs).len() == inputs.len(),
        newest_first(inputs).to_multiset() == inputs.to_multiset(),
{
    lemma_oldest_first_is_sorted(inputs);
    let sorted = oldest_first(inputs);
    assert(sorted.reverse().to_multiset() =~= sorted.to_multiset()) by {
        lemma_reverse_keeps_elements(sorted);
    }
}

proof fn lemma_reverse_keeps_elements(inputs: Seq<PlayerInput>)
    ensures
        inputs.reverse().to_multiset() == inputs.to_multiset(),
    decreases inputs.len(),
{
    broadcast use vstd::seq_lib::to_multiset_build;

    if inputs.len() == 0 {
        assert(inputs.reverse() =~= inputs);
    } else {
        let rest = inputs.drop_first();
        lemma_reverse_keeps_elements(rest);
        assert(inputs.reverse() =~= rest.reverse().push(inputs[0]));
        assert(inputs =~= rest.insert(0, inputs[0]));
        vstd::seq_lib::to_multiset_insert(rest, 0, inputs[0]);
    }
}

/// The inputs by descending id; see [`newest_first`].
pub fn sort_newest_first(inputs: &Vec<PlayerInput>) -> (sorted: Vec<PlayerInput>)
    ensures
        sorted@ == newest_first(inputs@),
{
    let mut ascending_inputs: Vec<PlayerInput> = Vec::new();
    let mut i: usize = 0;
    assert(inputs@.take(0) =~= Seq::<PlayerInput>::empty());
    while i < inputs.len()
        invariant
            i <= inputs.len(),
            ascending_inputs@ == oldest_first(inputs@.take(i as int)),
            ascending_inputs@.len() == i,
        decreases inputs.len() - i,
    {
        let input = inputs[i];
        let mut at: usize = ascending_inputs.len();
        while at > 0 && ascending_inputs[at - 1].id > input.id
            invariant
                at <= ascending_inputs@.len(),
                forall|k: int|
                    at <= k < ascending_inputs@.len() ==> (#[trigger] ascending_inputs@[k]).id
                        > input.id,
            decreases at,
        {
            at -= 1;
        }
        proof {
            lemma_stable_insert_at(ascending_inputs@, input, at as int);
            assert(inputs@.take(i + 1).drop_last() =~= inputs@.take(i as int));
        }
        ascending_inputs.insert(at, input);
        i += 1;
    }
    assert(inputs@.take(i as int) =~= inputs@);

    let mut sorted: Vec<PlayerInput> = Vec::new();
    let mut left: usize = ascending_inputs.len();
    while left > 0
        invariant
            left <= ascending_inputs@.len(),
            sorted@.len() == ascending_inputs@.len() - left,
            forall|k: int|
                0 <= k < sorted@.len() ==> sorted@[k] == ascending_inputs@[ascending_inputs@.len()
                    - 1 - k],
        decreases left,
    {
        left -= 1;
        sorted.push(ascending_inputs[left]);
    }
    assert(sorted@ =~= ascending_inputs@.reverse());
    sorted
}

impl PlayerInputQueue {
    /// A queue in which nothing waits.
    pub fn new() -> (queue: PlayerInputQueue)
        ensures
            queue.inputs@ == Seq::<PlayerInput>::empty(),
    {
        PlayerInputQueue { inputs: Vec::new() }
    }

    /// Puts an input that arrived among the waiting ones, which then stand
    /// by descending id.
    pub fn receive(&mut self, input: PlayerInput)
        ensures
            final(self).inputs@ == newest_first(old(self).inputs@.push(input)),
    {
        self.inputs.push(input);
        let sorted = sort_newest_first(&self.inputs);
        self.inputs = sorted;
    }
}

impl Player {
    /// A player that has just connected: nothing acknowledged, nothing
    /// consumed.
    pub fn new(client_id: u64, name: String) -> (player: Player)
        ensures
            player == (Player {
                client_id,
                name,
                last_acked_snapshot_id: None,
                newest_processed_input_id: None,
                last_input: None,
            }),
    {
        Player {
            client_id,
            name,
            last_acked_snapshot_id: None,
            newest_processed_input_id: None,
            last_input: None,
        }
    }

    /// Takes note of the snapshot that an arriving input reports as
    /// processed: the acknowledgement becomes the larger of what was known
    /// and what is reported, and stays as it was where the input reports
    /// nothing newer.
    pub fn acknowledge(&mut self, snapshot_id: Option<u64>)
        ensures
            *final(self) == (Player {
                last_acked_snapshot_id: merged_acknowledgement(
                    old(self).last_acked_snapshot_id,
                    snapshot_id,
                ),
                ..*old(self)
            }),
    {
        match (self.last_acked_snapshot_id, snapshot_id) {
            (Some(last), Some(pending)) => {
                if pending > last {
                    self.last_acked_snapshot_id = Some(pending);
                }
            },
            (Some(_), None) => {},
            (None, _) => {
                self.last_acked_snapshot_id = snapshot_id;
            },
        }
    }

    /// Takes note that the input `input_id` was applied to the player's
    /// character. Says whether it is the newest applied so far, in which
    /// case the character takes its rotation from that input.
    pub fn note_processed(&mut self, input_id: u32) -> (newest: bool)
        ensures
            newest == is_newest_input(old(self).newest_processed_input_id, input_id),
            *final(self) == (Player {
                newest_processed_input_id: if newest {
                    Some(input_id)
                } else {
                    old(self).newest_processed_input_id
                },
                ..*old(self)
            }),
    {
        match self.newest_processed_input_id {
            Some(last) => {
                if input_id > last {
                    self.newest_processed_input_id = Some(input_id);
                    true
                } else {
                    false
                }
            },
            None => {
                self.newest_processed_input_id = Some(input_id);
                true
            },
        }
    }
}

/// Takes in an input that arrived from a player: it joins the waiting
/// inputs, and the snapshot it reports is noted as acknowledged.
pub fn player_input_receiver(
    queue: &mut PlayerInputQueue,
    player: &mut Player,
    input: PlayerInput,
)
    ensures
        final(queue).inputs@ == newest_first(old(queue).inputs@.push(input)),
        *final(player) == (Player {
            last_acked_snapshot_id: merged_acknowledgement(
                old(player).last_acked_snapshot_id,
                input.snapshot_id,
            ),
            ..*old(player)
        }),
{
    queue.receive(input);
    player.acknowledge(input.snapshot_id);
}

/// The input remembered after `taken` has left the queue: `taken` where
/// nothing was remembered or `taken` is newer, else what was remembered.
pub open spec fn newer_of(last_input: Option<PlayerInput>, taken: PlayerInput) -> Option<
    PlayerInput,
> {
    match last_input {
        Some(last) => if taken.id > last.id {
            Some(taken)
        } else {
            Some(last)
        },
        None => Some(taken),
    }
}

/// The input that drives a player's character this tick.
///
/// Where inputs wait, it is the first of them, which leaves the queue and
/// is remembered as the last input if it is newer than the one remembered.
/// Where none waits, the remembered input is repeated. A player that has
/// never sent an input has none.
pub fn player_input_consumer(queue: &mut PlayerInputQueue, player: &mut Player) -> (input: Option<
    PlayerInput,
>)
    ensures
        old(queue).inputs@.len() > 0 ==> {
            &&& input == Some(old(queue).inputs@[0])
            &&& final(queue).inputs@ == old(queue).inputs@.drop_first()
            &&& *final(player) == (Player {
                last_input: newer_of(old(player).last_input, old(queue).inputs@[0]),
                ..*old(player)
            })
        },
        old(queue).inputs@.len() == 0 ==> {
            &&& input == old(player).last_input
            &&& final(queue).inputs@ == old(queue).inputs@
            &&& *final(player) == *old(player)
        },
{
    if queue.inputs.len() > 0 {
        let input = queue.inputs.remove(0);
        match player.last_input {
            Some(last) => {
                if input.id > last.id {
                    player.last_input = Some(input);
                }
            },
            None => {
                player.last_input = Some(input);
            },
        }
        Some(input)
    } else {
        player.last_input
    }
}

} // verus!
