//! What a client does with an update from the server.
//!
//! Updates travel over a channel that may drop and reorder them, so a
//! client takes an update only if it is newer than the last one it took.
//! Characters of other players are set to what the update says. The
//! client's own character was predicted ahead of the server: the update is
//! compared with the prediction that belongs to the input the server has
//! acknowledged, and only where the two lie apart is the character put back
//! and the inputs made since then simulated again.
//!
//! The distance between two positions and the simulation of an input are
//! computed by the caller. [`divergence_operands`] says what is to be
//! measured, [`reconcile_local_character`] decides on the measure, and a
//! [`Replay`] leads the caller through the inputs to simulate again.

use vstd::prelude::*;
use crate::config::MultiplayerConfig;
use crate::input::{InputHistory, PlayerInput};
use crate::moveable::{MoveableCorrectionState, MoveableSimulation, Pose};
use crate::scalar::{Rotation, Scalar, Vector3};
use crate::snapshot::{CharacterSnapshotDiff, SnapshotDiff};

verus! {

/// The id of the newest update that a client has taken, if it has taken
/// one.
#[derive(Clone, Copy, Debug, PartialEq, Eq)]
pub struct LastProcessedSnapshotId(pub Option<u64>);

/// Whether an update with the id `id` is newer than every update taken so
/// far.
pub open spec fn is_newer(last: Option<u64>, id: u64) -> bool {
    match last {
        Some(taken) => id > taken,
        None => true,
    }
}

impl LastProcessedSnapshotId {
    /// Before any update.
    pub fn new() -> (last: LastProcessedSnapshotId)
        ensures
            last.0 is None,
    {
        LastProcessedSnapshotId(None)
    }

    /// Takes the update `id` if it is newer than the last one taken, and
    /// says whether it did. An update that is not newer changes nothing.
    pub fn accept(&mut self, id: u64) -> (fresh: bool)
        ensures
            fresh == is_newer(old(self).0, id),
            final(self).0 == if fresh {
                Some(id)
            } else {
                old(self).0
            },
    {
        match self.0 {
            Some(taken) => {
                if id <= taken {
                    return false;
                }
            },
            None => {},
        }
        self.0 = Some(id);
        true
    }
}

/// Whether `updates[i]` is the one to take of a batch: none has a larger
/// id, and none after it has the same.
pub open spec fn is_newest_of(updates: Seq<SnapshotDiff>, i: int) -> bool {
    &&& 0 <= i < updates.len()
    &&& forall|j: int| 0 <= j < updates.len() ==> (#[trigger] updates[j]).id <= updates[i].id
    &&& forall|j: int| i < j < updates.len() ==> (#[trigger] updates[j]).id < updates[i].id
}

/// The place of the update to take of those that arrived together: the one
/// with the largest id, and of several with that id the last.
pub fn newest_update(updates: &Vec<SnapshotDiff>) -> (newest: Option<usize>)
    ensures
        match newest {
            Some(i) => is_newest_of(updates@, i as int),
            None => updates@.len() == 0,
        },
{
    if updates.len() == 0 {
        return None;
    }
    let mut best: usize = 0;
    let mut i: usize = 1;
    while i < updates.len()
        invariant
            1 <= i <= updates.len(),
            best < i,
            forall|j: int| 0 <= j < i ==> (#[trigger] updates@[j]).id <= updates@[best as int].id,
            forall|j: int| best < j < i ==> (#[trigger] updates@[j]).id < updates@[best as int].id,
        decreases updates.len() - i,
    {
        if updates[i].id >= updates[best].id {
            best = i;
        }
        i += 1;
    }
    Some(best)
}

/// Sets the character of another player to what the update says of it: its
/// position and its velocity, each where the update carries it.
pub fn apply_remote(
    simulation: &mut MoveableSimulation,
    pose: &mut Pose,
    entry: &CharacterSnapshotDiff,
)
    ensures
        *final(pose) == (Pose {
            translation: match entry.position {
                Some(position) => position,
                None => old(pose).translation,
            },
            ..*old(pose)
        }),
        *final(simulation) == (MoveableSimulation {
            velocity: match entry.velocity {
                Some(velocity) => velocity,
                None => old(simulation).velocity,
            },
            ..*old(simulation)
        }),
{
    if let Some(position) = entry.position {
        pose.translation = position;
    }
    if let Some(velocity) = entry.velocity {
        simulation.velocity = velocity;
    }
}

/// The two positions whose distance decides on a correction: the one the
/// update gives, and the one predicted for the acknowledged input. There
/// are none where the update carries no position or no acknowledged input,
/// or where that input is no longer retained.
pub open spec fn operands(
    entry: CharacterSnapshotDiff,
    history: InputHistory,
    acked_input_id: Option<u32>,
) -> Option<(Vector3, Vector3)> {
    match (entry.position, acked_input_id) {
        (Some(position), Some(acked)) => match history.position_of(acked) {
            Some(at) => Some((position, history@[at].post_move_position)),
            None => None,
        },
        _ => None,
    }
}

/// The authoritative and the predicted position to measure the distance
/// of, in this order, or `None` where the update gives no ground for a
/// correction.
pub fn divergence_operands(
    entry: &CharacterSnapshotDiff,
    history: &InputHistory,
    acked_input_id: Option<u32>,
) -> (measured: Option<(Vector3, Vector3)>)
    requires
        history.wf(),
    ensures
        measured == operands(*entry, *history, acked_input_id),
{
    match (entry.position, acked_input_id) {
        (Some(position), Some(acked)) => match history.find(acked) {
            Some(at) => match history.get(at) {
                Some(input) => Some((position, input.post_move_position)),
                None => None,
            },
            None => None,
        },
        _ => None,
    }
}

/// Whether a prediction that lies `divergence` from the authoritative
/// position is corrected: it is, unless the divergence is below the
/// threshold.
pub open spec fn exceeds(divergence: Scalar, threshold: Scalar) -> bool {
    !divergence.num_lt(threshold)
}

/// Whether the update leads to a correction of the local character.
pub open spec fn corrects(
    cfg: MultiplayerConfig,
    entry: CharacterSnapshotDiff,
    history: InputHistory,
    acked_input_id: Option<u32>,
    divergence: Scalar,
) -> bool {
    &&& operands(entry, history, acked_input_id) is Some
    &&& exceeds(divergence, cfg.moveable_correction_position_distance_threshold)
}

/// The inputs to simulate again after a correction, and where the
/// simulation has come among them.
#[derive(Clone, Copy, Debug, PartialEq, Eq)]
pub struct Replay {
    /// The input that the server had consumed; only newer ones are
    /// simulated again.
    pub acked_input_id: u32,
    /// Place in the history from which the next input is looked for.
    pub cursor: usize,
    /// The rotation of the character before the correction.
    pub stored_rotation: Rotation,
}

/// The place of the first input at or after `from` that is newer than
/// `acked_input_id`.
pub open spec fn next_newer(inputs: Seq<PlayerInput>, from: int, acked_input_id: u32) -> Option<int>
    decreases inputs.len() - from,
{
    if from < 0 || from >= inputs.len() {
        None
    } else if inputs[from].id > acked_input_id {
        Some(from)
    } else {
        next_newer(inputs, from + 1, acked_input_id)
    }
}

/// Decides whether the local character is corrected, given the distance
/// `divergence` between the two positions of [`divergence_operands`].
///
/// Without ground for a correction, or with a divergence below the
/// threshold, nothing changes. Otherwise the character is put at the
/// authoritative position; its velocity and its grounding become those of
/// the update, or where the update carries none, those predicted for the
/// acknowledged input; a visual correction starts from where the character
/// was; and the replay of the inputs after the acknowledged one is
/// returned.
pub fn reconcile_local_character(
    cfg: &MultiplayerConfig,
    simulation: &mut MoveableSimulation,
    pose: &mut Pose,
    entry: &CharacterSnapshotDiff,
    history: &InputHistory,
    acked_input_id: Option<u32>,
    divergence: Scalar,
) -> (replay: Option<Replay>)
    requires
        history.wf(),
    ensures
        (replay is Some) == corrects(*cfg, *entry, *history, acked_input_id, divergence),
        replay is None ==> *final(simulation) == *old(simulation) && *final(pose) == *old(pose),
        replay matches Some(replay) ==> {
            let at = history.position_of(acked_input_id->0)->0;
            let acked_input = history@[at];
            &&& replay == (Replay {
                acked_input_id: acked_input_id->0,
                cursor: (at + 1) as usize,
                stored_rotation: old(pose).rotation,
            })
            &&& *final(pose) == (Pose { translation: entry.position->0, ..*old(pose) })
            &&& *final(simulation) == (MoveableSimulation {
                velocity: match entry.velocity {
                    Some(velocity) => velocity,
                    None => acked_input.post_move_velocity,
                },
                grounded: match entry.grounded {
                    Some(grounded) => grounded,
                    None => acked_input.post_move_grounded,
                },
                correction_state: Some(
                    MoveableCorrectionState {
                        from: old(pose).translation,
                        blend: Scalar { bits: 0 },
                    },
                ),
                ..*old(simulation)
            })
        },
{
    let position = match entry.position {
        Some(position) => position,
        None => {
            return None;
        },
    };
    let acked = match acked_input_id {
        Some(acked) => acked,
        None => {
            return None;
        },
    };
    let at = match history.find(acked) {
        Some(at) => at,
        None => {
            return None;
        },
    };
    let acked_input = match history.get(at) {
        Some(input) => input,
        None => {
            return None;
        },
    };
    if divergence.less(&cfg.moveable_correction_position_distance_threshold) {
        return None;
    }
    simulation.correction_state = Some(
        MoveableCorrectionState { from: pose.translation, blend: Scalar::zero() },
    );
    simulation.velocity = match entry.velocity {
        Some(velocity) => velocity,
        None => acked_input.post_move_velocity,
    };
    simulation.grounded = match entry.grounded {
        Some(grounded) => grounded,
        None => acked_input.post_move_grounded,
    };
    let stored_rotation = pose.rotation;
    pose.translation = position;
    Some(Replay { acked_input_id: acked, cursor: at + 1, stored_rotation })
}

impl Replay {
    /// The next input to simulate again, or `None` when there is none
    /// left. The replay then stands at that input.
    pub fn next_input(&mut self, history: &InputHistory) -> (input: Option<PlayerInput>)
        ensures
            final(self).acked_input_id == old(self).acked_input_id,
            final(self).stored_rotation == old(self).stored_rotation,
            match next_newer(history@, old(self).cursor as int, old(self).acked_input_id) {
                Some(at) => input == Some(history@[at]) && final(self).cursor == at,
                None => input is None && final(self).cursor == if old(self).cursor
                    > history@.len() {
                    old(self).cursor
                } else {
                    history@.len() as usize
                },
            },
    {
        while self.cursor < history.len()
            invariant
                self.acked_input_id == old(self).acked_input_id,
                self.stored_rotation == old(self).stored_rotation,
                old(self).cursor <= self.cursor,
                old(self).cursor <= history@.len() ==> self.cursor <= history@.len(),
                old(self).cursor >= history@.len() ==> self.cursor == old(self).cursor,
                next_newer(history@, old(self).cursor as int, old(self).acked_input_id)
                    == next_newer(history@, self.cursor as int, self.acked_input_id),
            decreases history@.len() - self.cursor,
        {
            match history.get(self.cursor) {
                Some(input) => {
                    if input.id > self.acked_input_id {
                        return Some(input);
                    }
                },
                None => {},
            }
            self.cursor = self.cursor + 1;
        }
        None
    }

    /// Stores the outcome of simulating the input at which the replay
    /// stands, and moves the replay past it. A replay that stands past the
    /// end changes nothing.
    pub fn record(
        &mut self,
        history: &mut InputHistory,
        velocity: Vector3,
        position: Vector3,
        grounded: bool,
    )
        ensures
            final(self).acked_input_id == old(self).acked_input_id,
            final(self).stored_rotation == old(self).stored_rotation,
            final(history).next_id() == old(history).next_id(),
            old(history).wf() ==> final(history).wf(),
            old(self).cursor < old(history)@.len() ==> {
                &&& final(self).cursor == old(self).cursor + 1
                &&& final(history)@ == old(history)@.update(
                    old(self).cursor as int,
                    old(history)@[old(self).cursor as int].with_outcome(
                        velocity,
                        position,
                        grounded,
                    ),
                )
            },
            old(self).cursor >= old(history)@.len() ==> {
                &&& final(self).cursor == old(self).cursor
                &&& final(history)@ == old(history)@
            },
    {
        if self.cursor < history.len() {
            history.overwrite_post_move(self.cursor, velocity, position, grounded);
            self.cursor = self.cursor + 1;
        }
    }

    /// Ends the replay: the character is turned as it was before the
    /// correction. Its position stays where the replay has brought it.
    pub fn finish(self, pose: &mut Pose)
        ensures
            *final(pose) == (Pose { rotation: self.stored_rotation, ..*old(pose) }),
    {
        pose.rotation = self.stored_rotation;
    }
}

/// An update that is not newer than the last one taken is refused, and
/// leaves the marker as it was; so is the same update when it arrives a
/// second time.
pub proof fn law_stale_update_changes_nothing(last: LastProcessedSnapshotId, id: u64)
    ensures
        (last.0 matches Some(taken) && id <= taken) ==> !is_newer(last.0, id),
        is_newer(last.0, id) ==> !is_newer(Some(id), id),
        forall|earlier: u64| earlier <= id ==> !is_newer(Some(id), earlier),
{
}

/// A divergence that is neither a NaN nor equal to the threshold leads to
/// a correction exactly if it is above the threshold.
pub proof fn law_correction_above_threshold(divergence: Scalar, threshold: Scalar)
    requires
        !divergence.is_nan(),
        !threshold.is_nan(),
        !divergence.num_eq(threshold),
    ensures
        exceeds(divergence, threshold) == threshold.num_lt(divergence),
{
}

/// A divergence equal to the threshold is not below it, and is corrected.
pub proof fn law_correction_at_threshold(divergence: Scalar, threshold: Scalar)
    requires
        divergence.num_eq(threshold),
    ensures
        exceeds(divergence, threshold),
{
}

/// In a well-formed history every input after the acknowledged one is
/// newer than it: a replay that stands behind the acknowledged input finds
/// its next input where it stands, until it stands at the end.
pub proof fn law_replay_takes_every_later_input(history: InputHistory, acked_input_id: u32, cursor: int)
    requires
        history.wf(),
        history.position_of(acked_input_id) matches Some(at) && at < cursor,
    ensures
        next_newer(history@, cursor, acked_input_id) == if cursor < history@.len() {
            Some(cursor)
        } else {
            None
        },
{
}

/// What the simulation of one input leaves of a body.
pub struct Outcome {
    pub velocity: Vector3,
    pub position: Vector3,
    pub grounded: bool,
}

/// The input with `outcome` stored as what came of it.
pub open spec fn stored(input: PlayerInput, outcome: Outcome) -> PlayerInput {
    input.with_outcome(outcome.velocity, outcome.position, outcome.grounded)
}

/// The inputs and the body after a replay has run to its end from
/// `cursor`, where `step` is what the simulation makes of a body and an
/// input: inputs that are not newer than the acknowledged one are passed
/// over, and each newer one is simulated from where the one before has left
/// the body, and what comes of it is stored with it.
pub open spec fn replayed(
    step: spec_fn(Outcome, PlayerInput) -> Outcome,
    body: Outcome,
    inputs: Seq<PlayerInput>,
    cursor: int,
    acked_input_id: u32,
) -> (Seq<PlayerInput>, Outcome)
    decreases inputs.len() - cursor,
{
    if cursor < 0 || cursor >= inputs.len() {
        (inputs, body)
    } else if inputs[cursor].id > acked_input_id {
        let after = step(body, inputs[cursor]);
        replayed(
            step,
            after,
            inputs.update(cursor, stored(inputs[cursor], after)),
            cursor + 1,
            acked_input_id,
        )
    } else {
        replayed(step, body, inputs, cursor + 1, acked_input_id)
    }
}

/// The body after the inputs from `from` on that are newer than
/// `acked_input_id` have been simulated one after the other, starting from
/// `body`, with nothing stored.
pub open spec fn from_scratch(
    step: spec_fn(Outcome, PlayerInput) -> Outcome,
    body: Outcome,
    inputs: Seq<PlayerInput>,
    from: int,
    acked_input_id: u32,
) -> Outcome
    decreases inputs.len() - from,
{
    if from < 0 || from >= inputs.len() {
        body
    } else if inputs[from].id > acked_input_id {
        from_scratch(step, step(body, inputs[from]), inputs, from + 1, acked_input_id)
    } else {
        from_scratch(step, body, inputs, from + 1, acked_input_id)
    }
}

/// A replay proceeds as [`Replay::next_input`] and [`Replay::record`]
/// make it proceed: it goes on with the next newer input, simulates it and
/// stores what came of it, and is at its end when there is no such input.
pub proof fn law_replay_proceeds_by_next_input(
    step: spec_fn(Outcome, PlayerInput) -> Outcome,
    body: Outcome,
    inputs: Seq<PlayerInput>,
    cursor: int,
    acked_input_id: u32,
)
    requires
        0 <= cursor,
    ensures
        match next_newer(inputs, cursor, acked_input_id) {
            Some(at) => cursor <= at < inputs.len() && replayed(
                step,
                body,
                inputs,
                cursor,
                acked_input_id,
            ) == replayed(
                step,
                step(body, inputs[at]),
                inputs.update(at, stored(inputs[at], step(body, inputs[at]))),
                at + 1,
                acked_input_id,
            ),
            None => replayed(step, body, inputs, cursor, acked_input_id) == (inputs, body),
        },
    decreases inputs.len() - cursor,
{
    if cursor < inputs.len() && inputs[cursor].id <= acked_input_id {
        law_replay_proceeds_by_next_input(step, body, inputs, cursor + 1, acked_input_id);
    }
}

proof fn lemma_same_tail(
    step: spec_fn(Outcome, PlayerInput) -> Outcome,
    body: Outcome,
    left: Seq<PlayerInput>,
    right: Seq<PlayerInput>,
    from: int,
    acked_input_id: u32,
)
    requires
        0 <= from,
        left.len() == right.len(),
        forall|i: int| from <= i < left.len() ==> left[i] == right[i],
    ensures
        from_scratch(step, body, left, from, acked_input_id) == from_scratch(
            step,
            body,
            right,
            from,
            acked_input_id,
        ),
    decreases left.len() - from,
{
    if from < left.len() {
        if left[from].id > acked_input_id {
            lemma_same_tail(step, step(body, left[from]), left, right, from + 1, acked_input_id);
        } else {
            lemma_same_tail(step, body, left, right, from + 1, acked_input_id);
        }
    }
}

/// Simulating again after a correction comes to what a replay from
/// scratch comes to.
///
/// Let `step` be what the simulation makes of a body and an input. A replay
/// that runs from `cursor` to its end, storing with each input what came of
/// it, leaves the body where simulating the inputs newer than the
/// acknowledged one, one after the other from the corrected body and with
/// nothing stored, leaves it. The id of every input is as before, inputs
/// before `cursor` are untouched, and where the newest input is newer than
/// the acknowledged one, what is stored with it is where the body was left.
pub proof fn law_replay_equals_replay_from_scratch(
    step: spec_fn(Outcome, PlayerInput) -> Outcome,
    body: Outcome,
    inputs: Seq<PlayerInput>,
    cursor: int,
    acked_input_id: u32,
)
    requires
        0 <= cursor <= inputs.len(),
    ensures
        replayed(step, body, inputs, cursor, acked_input_id).1 == from_scratch(
            step,
            body,
            inputs,
            cursor,
            acked_input_id,
        ),
        replayed(step, body, inputs, cursor, acked_input_id).0.len() == inputs.len(),
        forall|i: int|
            0 <= i < inputs.len() ==> (#[trigger] replayed(
                step,
                body,
                inputs,
                cursor,
                acked_input_id,
            ).0[i]).id == inputs[i].id,
        forall|i: int|
            0 <= i < cursor ==> replayed(step, body, inputs, cursor, acked_input_id).0[i]
                == inputs[i],
        cursor < inputs.len() && inputs.last().id > acked_input_id ==> replayed(
            step,
            body,
            inputs,
            cursor,
            acked_input_id,
        ).0.last() == stored(
            inputs.last(),
            from_scratch(step, body, inputs, cursor, acked_input_id),
        ),
    decreases inputs.len() - cursor,
{
    if cursor < inputs.len() {
        if inputs[cursor].id > acked_input_id {
            let after = step(body, inputs[cursor]);
            let written = inputs.update(cursor, stored(inputs[cursor], after));
            law_replay_equals_replay_from_scratch(step, after, written, cursor + 1, acked_input_id);
            lemma_same_tail(step, after, written, inputs, cursor + 1, acked_input_id);
        } else {
            law_replay_equals_replay_from_scratch(step, body, inputs, cursor + 1, acked_input_id);
        }
    }
}

} // verus!
