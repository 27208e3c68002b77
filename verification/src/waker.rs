//! Wakeup handoff from interrupt context to suspended tasks.
//!
//! A [`WakerSlot`] holds at most one wakeup: a task arms the slot before it
//! suspends, the interrupt handler fires it, and the executor collects the
//! notification. A [`WakerBank`] is the fixed row of slots that belongs to one
//! driver.
//!
//! Every operation takes the slot by exclusive reference, so a write from
//! interrupt context and a read from task context never overlap; the caller
//! gets that exclusivity from a critical section around the storage.

use vstd::prelude::*;

verus! {

/// The wakeup target a task leaves in a slot: the task to resume.
#[derive(Clone, Copy, Debug, PartialEq, Eq, Structural)]
pub struct Waker {
    pub task: u32,
}

/// What a slot holds.
#[derive(Clone, Copy, Debug, PartialEq, Eq, Structural)]
pub enum SlotState {
    /// No wakeup target and no notification.
    Idle,
    /// A task registered this target and has not been woken yet.
    Armed(Waker),
    /// The target was woken; the notification waits for the executor.
    Ready(Waker),
}

impl SlotState {
    /// The state after a task registers `waker`: the last registration wins
    /// over whatever the slot held.
    pub open spec fn registered(self, waker: Waker) -> SlotState {
        SlotState::Armed(waker)
    }

    /// The state after the interrupt handler wakes the slot: an armed target
    /// becomes a ready notification, anything else stays as it is.
    pub open spec fn woken(self) -> SlotState {
        match self {
            SlotState::Armed(waker) => SlotState::Ready(waker),
            _ => self,
        }
    }

    /// The notification that a read by the executor observes.
    pub open spec fn notification(self) -> Option<Waker> {
        match self {
            SlotState::Ready(waker) => Some(waker),
            _ => None,
        }
    }

    /// The state after a read by the executor: a ready notification is
    /// consumed, anything else stays as it is.
    pub open spec fn consumed(self) -> SlotState {
        match self {
            SlotState::Ready(_) => SlotState::Idle,
            _ => self,
        }
    }

    /// Whether a registered target still waits to be woken.
    pub open spec fn has_target(self) -> bool {
        self is Armed
    }
}

/// A single-notification handoff cell.
#[derive(Clone, Copy, Debug)]
pub struct WakerSlot {
    state: SlotState,
}

impl View for WakerSlot {
    type V = SlotState;

    closed spec fn view(&self) -> SlotState {
        self.state
    }
}

impl WakerSlot {
    /// An empty slot.
    pub fn new() -> (slot: WakerSlot)
        ensures
            slot@ == SlotState::Idle,
    {
        WakerSlot { state: SlotState::Idle }
    }

    /// Stores the caller's wakeup target. Called from task context, right
    /// before the task suspends.
    pub fn register(&mut self, waker: Waker)
        ensures
            final(self)@ == old(self)@.registered(waker),
        no_unwind
    {
        self.state = SlotState::Armed(waker);
    }

    /// Marks a registered target ready and clears the registration. Called
    /// from interrupt context: it neither allocates nor blocks, and it cannot
    /// fail.
    pub fn wake(&mut self)
        ensures
            final(self)@ == old(self)@.woken(),
        no_unwind
    {
        match self.state {
            SlotState::Armed(waker) => {
                self.state = SlotState::Ready(waker);
            },
            _ => {},
        }
    }

    /// The executor's read: hands out the ready notification, if there is
    /// one, and clears it.
    pub fn take_ready(&mut self) -> (ready: Option<Waker>)
        ensures
            ready == old(self)@.notification(),
            final(self)@ == old(self)@.consumed(),
        no_unwind
    {
        match self.state {
            SlotState::Ready(waker) => {
                self.state = SlotState::Idle;
                Some(waker)
            },
            _ => None,
        }
    }

    /// Whether a registered target still waits to be woken.
    pub fn has_target(&self) -> (armed: bool)
        ensures
            armed == self@.has_target(),
        no_unwind
    {
        match self.state {
            SlotState::Armed(_) => true,
            _ => false,
        }
    }

    /// The slot's current state.
    pub fn state(&self) -> (state: SlotState)
        ensures
            state == self@,
        no_unwind
    {
        self.state
    }
}

/// A registered target is delivered exactly once: after `register` and
/// `wake`, the first read yields the target and a second read yields nothing.
pub proof fn lemma_single_delivery(before: SlotState, waker: Waker)
    ensures
        before.registered(waker).woken().notification() == Some(waker),
        before.registered(waker).woken().consumed().notification() == None::<Waker>,
        before.registered(waker).woken().consumed() == SlotState::Idle,
{
}

/// A wake without a registration in between delivers nothing new: after one
/// wake no target is pending, and a second wake leaves the slot as it was.
pub proof fn lemma_wake_idempotent(before: SlotState)
    ensures
        !before.woken().has_target(),
        before.woken().woken() == before.woken(),
{
}

/// The states of a row of slots after each of them was woken.
pub open spec fn woken_all(slots: Seq<SlotState>) -> Seq<SlotState> {
    Seq::new(slots.len(), |i: int| slots[i].woken())
}

/// The fixed row of waker slots that one driver owns.
///
/// Its length is set when it is made and never changes.
#[derive(Debug)]
pub struct WakerBank {
    slots: Vec<WakerSlot>,
}

impl View for WakerBank {
    type V = Seq<SlotState>;

    closed spec fn view(&self) -> Seq<SlotState> {
        Seq::new(self.slots@.len(), |i: int| self.slots@[i]@)
    }
}

impl WakerBank {
    /// A bank of `count` empty slots.
    pub fn new(count: usize) -> (bank: WakerBank)
        ensures
            bank@ == Seq::new(count as nat, |i: int| SlotState::Idle),
    {
        let mut slots: Vec<WakerSlot> = Vec::new();
        let mut made: usize = 0;
        while made < count
            invariant
                made <= count,
                slots@.len() == made,
                forall|i: int| 0 <= i < made ==> (#[trigger] slots@[i])@ == SlotState::Idle,
            decreases count - made,
        {
            slots.push(WakerSlot::new());
            made += 1;
        }
        WakerBank { slots }
    }

    /// The number of slots.
    pub fn len(&self) -> (n: usize)
        ensures
            n == self@.len(),
        no_unwind
    {
        self.slots.len()
    }

    /// The state of slot `index`, if the bank has such a slot.
    pub fn slot(&self, index: usize) -> (state: Option<SlotState>)
        ensures
            state == if index < self@.len() {
                Some(self@[index as int])
            } else {
                None
            },
        no_unwind
    {
        if index < self.slots.len() {
            Some(self.slots[index].state())
        } else {
            None
        }
    }

    /// Registers `waker` in slot `index`. Returns whether the bank has such a
    /// slot; without one nothing changes.
    pub fn register(&mut self, index: usize, waker: Waker) -> (stored: bool)
        ensures
            stored == (index < old(self)@.len()),
            final(self)@ == if stored {
                old(self)@.update(index as int, old(self)@[index as int].registered(waker))
            } else {
                old(self)@
            },
        no_unwind
    {
        if index < self.slots.len() {
            self.slots[index].register(waker);
            true
        } else {
            false
        }
    }

    /// Wakes slot `index`. Without such a slot nothing changes.
    pub fn wake(&mut self, index: usize)
        ensures
            final(self)@ == if index < old(self)@.len() {
                old(self)@.update(index as int, old(self)@[index as int].woken())
            } else {
                old(self)@
            },
        no_unwind
    {
        if index < self.slots.len() {
            self.slots[index].wake();
        }
    }

    /// The executor's read of slot `index`: hands out the slot's ready
    /// notification, if there is one, and clears it. Without such a slot, or
    /// without a notification in it, nothing changes.
    pub fn take_ready(&mut self, index: usize) -> (ready: Option<Waker>)
        ensures
            ready == if index < old(self)@.len() {
                old(self)@[index as int].notification()
            } else {
                None
            },
            final(self)@ == if index < old(self)@.len() {
                old(self)@.update(index as int, old(self)@[index as int].consumed())
            } else {
                old(self)@
            },
        no_unwind
    {
        if index < self.slots.len() {
            self.slots[index].take_ready()
        } else {
            None
        }
    }

    /// Wakes every slot of the bank.
    pub fn wake_all(&mut self)
        ensures
            final(self)@ == woken_all(old(self)@),
        no_unwind
    {
        let mut i: usize = 0;
        while i < self.slots.len()
            invariant
                i <= self.slots@.len(),
                self.slots@.len() == old(self).slots@.len(),
                forall|j: int| 0 <= j < i ==> (#[trigger] self.slots@[j])@ == old(self).slots@[j]@.woken(),
                forall|j: int| i <= j < self.slots@.len() ==> (#[trigger] self.slots@[j])@ == old(self).slots@[j]@,
            decreases self.slots@.len() - i,
        {
            self.slots[i].wake();
            i += 1;
        }
    }
}

} // verus!
