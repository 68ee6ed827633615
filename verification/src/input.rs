//! The inputs a client produced, one per tick, kept for as long as the
//! server may still answer them.
//!
//! Every fixed tick the client appends one [`PlayerInput`] to its
//! [`InputHistory`], simulates it, and writes what the simulation made of
//! it back into the sample. The history is what a correction from the
//! server is compared with, and what is replayed after one.

use vstd::prelude::*;
use crate::scalar::{Scalar, Vector2, Vector3};

verus! {

/// How many inputs a history retains: about a second of ticks.
pub const INPUT_WINDOW: usize = 64;

/// What the player asked for at one tick, and what came of it.
#[derive(Clone, Copy, Debug, PartialEq, Eq)]
pub struct PlayerInput {
    /// Sequence number, counted per client from 0.
    pub id: u32,
    /// The newest snapshot the client had processed when it made this input.
    pub snapshot_id: Option<u64>,
    pub yaw: Scalar,
    pub wish_dir: Vector2,
    pub wish_jump: bool,
    pub timestamp: Scalar,
    /// 0 until the sample has been handed to the network, 1 after.
    pub send_count: u32,
    pub post_move_velocity: Vector3,
    pub post_move_position: Vector3,
    pub post_move_grounded: bool,
}

impl PlayerInput {
    /// A sample as it is when captured: not sent, and with nothing
    /// simulated yet.
    pub open spec fn fresh(
        id: u32,
        snapshot_id: Option<u64>,
        yaw: Scalar,
        wish_dir: Vector2,
        wish_jump: bool,
        timestamp: Scalar,
    ) -> PlayerInput {
        PlayerInput {
            id,
            snapshot_id,
            yaw,
            wish_dir,
            wish_jump,
            timestamp,
            send_count: 0,
            post_move_velocity: Vector3 {
                x: Scalar { bits: 0 },
                y: Scalar { bits: 0 },
                z: Scalar { bits: 0 },
            },
            post_move_position: Vector3 {
                x: Scalar { bits: 0 },
                y: Scalar { bits: 0 },
                z: Scalar { bits: 0 },
            },
            post_move_grounded: false,
        }
    }

    /// This sample with the outcome of its simulation replaced.
    pub open spec fn with_outcome(self, velocity: Vector3, position: Vector3, grounded: bool)
        -> PlayerInput {
        PlayerInput {
            post_move_velocity: velocity,
            post_move_position: position,
            post_move_grounded: grounded,
            ..self
        }
    }

    /// This sample, marked as handed to the network.
    pub open spec fn sent(self) -> PlayerInput {
        PlayerInput { send_count: 1, ..self }
    }

    /// Whether the sample still waits to be handed to the network.
    pub open spec fn is_unsent(self) -> bool {
        self.send_count == 0
    }
}

/// [`PlayerInput::is_unsent`] as a function value.
pub open spec fn unsent_fn() -> spec_fn(PlayerInput) -> bool {
    |input: PlayerInput| input.is_unsent()
}

/// The last [`INPUT_WINDOW`] inputs of one client, oldest first.
#[derive(Debug)]
pub struct InputHistory {
    next_input_id: u32,
    inputs: Vec<PlayerInput>,
}

impl View for InputHistory {
    type V = Seq<PlayerInput>;

    closed spec fn view(&self) -> Seq<PlayerInput> {
        self.inputs@
    }
}

impl InputHistory {
    /// The id that the next captured input gets.
    pub closed spec fn next_id(&self) -> u32 {
        self.next_input_id
    }

    /// The history is no longer than the window, and holds the ids that
    /// end just below [`Self::next_id`], one after the other.
    pub open spec fn wf(&self) -> bool {
        &&& self@.len() <= INPUT_WINDOW
        &&& forall|i: int|
            0 <= i < self@.len() ==> (#[trigger] self@[i]).id == self.next_id() - self@.len() + i
    }

    /// The place of the input `id` in a well-formed history, if it is
    /// still retained.
    pub open spec fn position_of(&self, id: u32) -> Option<int> {
        if self.next_id() - self@.len() <= id < self.next_id() {
            Some(id - (self.next_id() - self@.len()))
        } else {
            None
        }
    }

    /// An empty history, whose first input will be number 0.
    pub fn new() -> (history: InputHistory)
        ensures
            history.wf(),
            history@ == Seq::<PlayerInput>::empty(),
            history.next_id() == 0,
    {
        InputHistory { next_input_id: 0, inputs: Vec::new() }
    }

    /// The id that the next captured input gets.
    pub fn next_input_id(&self) -> (id: u32)
        ensures
            id == self.next_id(),
    {
        self.next_input_id
    }

    /// How many inputs are retained.
    pub fn len(&self) -> (n: usize)
        ensures
            n == self@.len(),
    {
        self.inputs.len()
    }

    /// The retained inputs, oldest first.
    pub fn inputs(&self) -> (inputs: &Vec<PlayerInput>)
        ensures
            inputs@ == self@,
    {
        &self.inputs
    }

    /// The input at `index`, counted from the oldest.
    pub fn get(&self, index: usize) -> (input: Option<PlayerInput>)
        ensures
            input == if index < self@.len() {
                Some(self@[index as int])
            } else {
                None
            },
    {
        if index < self.inputs.len() {
            Some(self.inputs[index])
        } else {
            None
        }
    }

    /// The newest input.
    pub fn latest(&self) -> (input: Option<PlayerInput>)
        ensures
            input == if self@.len() > 0 {
                Some(self@.last())
            } else {
                None
            },
    {
        let n = self.inputs.len();
        if n > 0 {
            Some(self.inputs[n - 1])
        } else {
            None
        }
    }

    /// Appends the input of this tick under the next id, tagged with the
    /// newest snapshot processed so far, and drops the oldest input when
    /// the history would outgrow the window.
    pub fn capture(
        &mut self,
        snapshot_id: Option<u64>,
        yaw: Scalar,
        wish_dir: Vector2,
        wish_jump: bool,
        timestamp: Scalar,
    ) -> (id: u32)
        requires
            old(self).wf(),
            old(self).next_id() < u32::MAX,
        ensures
            final(self).wf(),
            id == old(self).next_id(),
            final(self).next_id() == id + 1,
            final(self)@ == (if old(self)@.len() >= INPUT_WINDOW {
                old(self)@.drop_first()
            } else {
                old(self)@
            }).push(PlayerInput::fresh(id, snapshot_id, yaw, wish_dir, wish_jump, timestamp)),
    {
        let id = self.next_input_id;
        self.inputs.push(
            PlayerInput {
                id,
                snapshot_id,
                yaw,
                wish_dir,
                wish_jump,
                timestamp,
                send_count: 0,
                post_move_velocity: Vector3::zero(),
                post_move_position: Vector3::zero(),
                post_move_grounded: false,
            },
        );
        self.next_input_id = id + 1;
        if self.inputs.len() > INPUT_WINDOW {
            self.inputs.remove(0);
        }
        id
    }

    /// Writes what the simulation made of the newest input into it. An
    /// empty history stays empty.
    pub fn record_post_move(&mut self, velocity: Vector3, position: Vector3, grounded: bool)
        ensures
            final(self).next_id() == old(self).next_id(),
            final(self)@ == if old(self)@.len() > 0 {
                old(self)@.update(
                    old(self)@.len() - 1,
                    old(self)@.last().with_outcome(velocity, position, grounded),
                )
            } else {
                old(self)@
            },
            old(self).wf() ==> final(self).wf(),
    {
        let n = self.inputs.len();
        if n > 0 {
            self.overwrite_post_move(n - 1, velocity, position, grounded);
        }
    }

    /// Replaces the outcome stored with the input at `index`. An index
    /// past the end changes nothing.
    pub fn overwrite_post_move(
        &mut self,
        index: usize,
        velocity: Vector3,
        position: Vector3,
        grounded: bool,
    )
        ensures
            final(self).next_id() == old(self).next_id(),
            final(self)@ == if index < old(self)@.len() {
                old(self)@.update(
                    index as int,
                    old(self)@[index as int].with_outcome(velocity, position, grounded),
                )
            } else {
                old(self)@
            },
            old(self).wf() ==> final(self).wf(),
    {
        if index < self.inputs.len() {
            let mut input = self.inputs[index];
            input.post_move_velocity = velocity;
            input.post_move_position = position;
            input.post_move_grounded = grounded;
            self.inputs.set(index, input);
        }
    }

    /// The place of the first retained input with the id `id`.
    pub fn find(&self, id: u32) -> (found: Option<usize>)
        ensures
            match found {
                Some(i) => i < self@.len() && self@[i as int].id == id && forall|j: int|
                    0 <= j < i ==> (#[trigger] self@[j]).id != id,
                None => forall|j: int| 0 <= j < self@.len() ==> (#[trigger] self@[j]).id != id,
            },
            self.wf() ==> match found {
                Some(i) => self.position_of(id) == Some(i as int),
                None => self.position_of(id) is None,
            },
    {
        let mut i: usize = 0;
        while i < self.inputs.len()
            invariant
                i <= self.inputs.len(),
                forall|j: int| 0 <= j < i ==> (#[trigger] self.inputs@[j]).id != id,
            decreases self.inputs.len() - i,
        {
            if self.inputs[i].id == id {
                return Some(i);
            }
            i += 1;
        }
        proof {
            if self.wf() && self.position_of(id) is Some {
                let at = self.position_of(id)->0;
                assert(self@[at].id == id);
            }
        }
        None
    }

    /// The inputs that still wait to be handed to the network, oldest
    /// first.
    pub fn unsent(&self) -> (waiting: Vec<PlayerInput>)
        ensures
            waiting@ == self@.filter(unsent_fn()),
    {
        let mut waiting: Vec<PlayerInput> = Vec::new();
        let mut i: usize = 0;
        assert(self.inputs@.take(0).filter(unsent_fn()) =~= Seq::<PlayerInput>::empty()) by {
            reveal(Seq::filter);
        }
        while i < self.inputs.len()
            invariant
                i <= self.inputs.len(),
                waiting@ == self.inputs@.take(i as int).filter(unsent_fn()),
            decreases self.inputs.len() - i,
        {
            proof {
                assert(self.inputs@.take(i + 1) =~= self.inputs@.take(i as int).push(
                    self.inputs@[i as int],
                ));
                self.inputs@.take(i as int).lemma_filter_push(self.inputs@[i as int], unsent_fn());
            }
            if self.inputs[i].send_count == 0 {
                waiting.push(self.inputs[i]);
            }
            i += 1;
        }
        assert(self.inputs@.take(i as int) =~= self.inputs@);
        waiting
    }

    /// Marks the input with the id `id` as handed to the network, if it is
    /// still retained. Says whether it was.
    pub fn mark_sent(&mut self, id: u32) -> (marked: bool)
        requires
            old(self).wf(),
        ensures
            final(self).wf(),
            final(self).next_id() == old(self).next_id(),
            marked == (old(self).position_of(id) is Some),
            final(self)@ == match old(self).position_of(id) {
                Some(at) => old(self)@.update(at, old(self)@[at].sent()),
                None => old(self)@,
            },
    {
        match self.find(id) {
            Some(index) => {
                let mut input = self.inputs[index];
                input.send_count = 1;
                self.inputs.set(index, input);
                true
            },
            None => false,
        }
    }
}

/// The ids of the retained inputs rise by one from each input to the
/// next, so no id stands twice, and an input stands where
/// [`InputHistory::position_of`] says.
pub proof fn law_input_ids_rise(history: InputHistory, i: int, j: int)
    requires
        history.wf(),
        0 <= i < j < history@.len(),
    ensures
        history@[j].id == history@[i].id + (j - i),
        history@[i].id < history@[j].id,
        history.position_of(history@[i].id) == Some(i),
{
}

} // verus!
