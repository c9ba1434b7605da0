//! A bounded history of machine snapshots.

use std::collections::VecDeque;
use vstd::prelude::*;
use crate::chip8::Chip8;
use crate::machine::Machine;

verus! {

/// Number of snapshots a history keeps unless told otherwise.
pub const DEFAULT_CAPACITY: usize = 5;

/// The history after `state` is captured: the oldest snapshot leaves if
/// the history is full, and `state` with every key up joins at the end.
pub open spec fn captured(history: Seq<Machine>, capacity: nat, state: Machine) -> Seq<Machine> {
    let kept: Seq<Machine> = if history.len() >= capacity {
        history.skip(1)
    } else {
        history
    };
    kept.push(state.release_keys())
}

/// The history after its newest snapshot is restored: the snapshot leaves,
/// unless it is the only one.
pub open spec fn restored(history: Seq<Machine>) -> Seq<Machine> {
    if history.len() <= 1 {
        history
    } else {
        history.drop_last()
    }
}

/// A bounded history of snapshots, oldest first.
pub struct Rewind {
    states: VecDeque<Chip8>,
    max_states: usize,
}

impl View for Rewind {
    type V = Seq<Machine>;

    closed spec fn view(&self) -> Seq<Machine> {
        self.states@.map_values(|chip: Chip8| chip@)
    }
}

impl Rewind {
    /// The number of snapshots the history keeps at most.
    pub closed spec fn capacity(&self) -> nat {
        self.max_states as nat
    }

    /// What the representation keeps beyond the model: every snapshot
    /// held is a well-formed machine.
    pub closed spec fn inv(&self) -> bool {
        forall|i: int| 0 <= i < self.states@.len() ==> (#[trigger] self.states@[i]).wf()
    }

    /// A history holds at most as many snapshots as its capacity, which is
    /// at least one.
    pub open spec fn wf(&self) -> bool {
        &&& self.inv()
        &&& self.capacity() >= 1
        &&& self@.len() <= self.capacity()
    }

    /// An empty history of the default capacity, 5.
    pub fn new() -> (history: Self)
        ensures
            history.wf(),
            history@ == Seq::<Machine>::empty(),
            history.capacity() == DEFAULT_CAPACITY,
    {
        Rewind { states: VecDeque::new(), max_states: DEFAULT_CAPACITY }
    }

    /// An empty history that keeps at most `capacity` snapshots.
    pub fn with_capacity(capacity: usize) -> (history: Self)
        requires
            capacity >= 1,
        ensures
            history.wf(),
            history@ == Seq::<Machine>::empty(),
            history.capacity() == capacity,
    {
        Rewind { states: VecDeque::new(), max_states: capacity }
    }

    /// The number of snapshots held.
    pub fn len(&self) -> (len: usize)
        ensures
            len == self@.len(),
    {
        self.states.len()
    }

    /// Appends a copy of `chip` with every key up; a full history first
    /// drops its oldest snapshot.
    pub fn capture(&mut self, chip: &Chip8)
        requires
            old(self).wf(),
            chip.wf(),
        ensures
            final(self).wf(),
            final(self).capacity() == old(self).capacity(),
            final(self)@ == captured(old(self)@, old(self).capacity(), chip@),
    {
        let mut snapshot: Chip8 = chip.clone();
        snapshot.release_keys();
        if self.states.len() >= self.max_states {
            self.states.pop_front();
        }
        self.states.push_back(snapshot);
    }

    /// Removes the newest snapshot and returns it. The only snapshot of a
    /// history is returned without being removed, so that the history,
    /// once it holds a snapshot, never runs empty.
    pub fn step_back(&mut self) -> (chip: Chip8)
        requires
            old(self).wf(),
            old(self)@.len() >= 1,
        ensures
            final(self).wf(),
            final(self).capacity() == old(self).capacity(),
            chip.wf(),
            chip@ == old(self)@.last(),
            final(self)@ == restored(old(self)@),
    {
        if self.states.len() <= 1 {
            let copy: Chip8 = self.states[0].clone();
            self.states.push_back(copy);
        }
        self.states.pop_back().unwrap()
    }
}

/// Snapshots come back newest first. What was captured last, with every
/// key up, is the newest snapshot, and a capture leaves at least one
/// snapshot and no more than the capacity. Restoring after a capture into
/// a history that held a snapshot and was not full gives that history
/// back; restoring the only snapshot keeps it.
pub proof fn lemma_capture_then_restore(history: Seq<Machine>, capacity: nat, state: Machine)
    requires
        capacity >= 1,
        history.len() <= capacity,
    ensures
        captured(history, capacity, state).last() == state.release_keys(),
        1 <= captured(history, capacity, state).len() <= capacity,
        1 <= history.len() < capacity ==> restored(captured(history, capacity, state)) == history,
        history.len() == 0 ==> restored(captured(history, capacity, state)) == captured(
            history,
            capacity,
            state,
        ),
{
    if 1 <= history.len() < capacity {
        assert(history.push(state.release_keys()).drop_last() =~= history);
    }
}

/// A full history forgets its oldest snapshot first: after a capture the
/// snapshots that were second to last follow in their order.
pub proof fn lemma_capture_evicts_oldest(history: Seq<Machine>, capacity: nat, state: Machine)
    requires
        capacity >= 1,
        history.len() == capacity,
    ensures
        captured(history, capacity, state).len() == capacity,
        forall|i: int|
            0 <= i < capacity - 1 ==> captured(history, capacity, state)[i] == history[i + 1],
{
}

} // verus!
