//! The cell through which the main loop and the interrupt handler reach the
//! input pin.
use vstd::prelude::*;
use crate::signal::{Event, InputSignal, InputState, Level};

verus! {

/// Why an access to the shared input pin could not be served.
#[derive(Clone, Copy, Debug, PartialEq, Eq, Structural)]
pub enum Fault {
    /// The cell was reached before the input pin was moved into it.
    EmptyCell,
    /// The cell was reached while an earlier access to it was still open.
    AlreadyBorrowed,
}

/// Holds the input pin once the main loop has handed it over. Its view is
/// the state of the pin it holds, or `None` while it is empty.
///
/// The cell itself does no locking: whoever holds `&mut SharedCell` has it
/// alone, and [`crate::exclusive`] hands out that reference only inside a
/// critical section.
#[derive(Debug)]
pub struct SharedCell {
    slot: Option<InputSignal>,
}

impl View for SharedCell {
    type V = Option<InputState>;

    open spec fn view(&self) -> Option<InputState> {
        match self.signal() {
            Some(signal) => Some(signal@),
            None => None,
        }
    }
}

/// What acknowledging does to the contents of a cell: the flag of the pin
/// inside is cleared, and an empty cell stays empty.
pub open spec fn acknowledged(contents: Option<InputState>) -> Option<InputState> {
    match contents {
        Some(state) => Some(state.cleared()),
        None => None,
    }
}

/// What a line change does to the contents of a cell.
pub open spec fn line_driven(contents: Option<InputState>, level: Level) -> Option<InputState> {
    match contents {
        Some(state) => Some(state.driven(level)),
        None => None,
    }
}

impl SharedCell {
    /// The pin inside, as the value that work on the cell is handed.
    pub closed spec fn signal(&self) -> Option<InputSignal> {
        self.slot
    }

    /// An empty cell.
    pub fn new() -> (r: SharedCell)
        ensures
            r@ is None,
    {
        SharedCell { slot: None }
    }

    pub fn is_occupied(&self) -> (r: bool)
        ensures
            r == (self@ is Some),
    {
        self.slot.is_some()
    }

    /// Moves `signal` into the cell. A pin that the cell held before is
    /// dropped.
    pub fn install(&mut self, signal: InputSignal)
        ensures
            final(self)@ == Some(signal@),
    {
        self.slot = Some(signal);
    }

    /// Arms `signal` on `event` and moves it into the cell, in one step: no
    /// access to the cell can fall between the two. Returns the state of the
    /// pin as the cell now holds it.
    pub fn arm_and_install(&mut self, signal: InputSignal, event: Event) -> (state: InputState)
        ensures
            final(self)@ == Some(signal@.armed_on(event)),
            state == signal@.armed_on(event),
    {
        let mut signal = signal;
        signal.listen(event);
        let state = signal.state();
        self.slot = Some(signal);
        state
    }

    /// Runs `work` on the pin inside and puts back what it returns; the
    /// answer is the state of the pin that was put back. On an empty cell
    /// `work` is not run, the cell stays empty, and the answer is the fault
    /// [`Fault::EmptyCell`].
    pub fn with_exclusive<F: FnOnce(InputSignal) -> InputSignal>(&mut self, work: F) -> (r: Result<InputState, Fault>)
        requires
            old(self).signal() matches Some(signal) ==> work.requires((signal,)),
        ensures
            r is Ok <==> old(self).signal() is Some,
            r matches Err(fault) ==> fault == Fault::EmptyCell,
            old(self).signal() is None ==> final(self).signal() is None,
            old(self).signal() matches Some(before) ==> (final(self).signal() matches Some(after)
                && work.ensures((before,), after)),
            r matches Ok(state) ==> final(self)@ == Some(state),
    {
        match self.slot.take() {
            Some(signal) => {
                let after = work(signal);
                let state = after.state();
                self.slot = Some(after);
                Ok(state)
            },
            None => Err(Fault::EmptyCell),
        }
    }

    /// Clears the interrupt flag of the pin inside. On an empty cell this is
    /// the fault [`Fault::EmptyCell`], and the cell stays empty.
    pub fn acknowledge(&mut self) -> (r: Result<(), Fault>)
        ensures
            final(self)@ == acknowledged(old(self)@),
            r is Ok <==> old(self)@ is Some,
            r matches Err(fault) ==> fault == Fault::EmptyCell,
    {
        match self.with_exclusive(InputSignal::acknowledged) {
            Ok(_) => Ok(()),
            Err(fault) => Err(fault),
        }
    }

    /// The line of the pin inside goes to `level`. Returns whether the change
    /// raised the interrupt; on an empty cell nothing happens.
    pub fn drive(&mut self, level: Level) -> (fired: bool)
        ensures
            final(self)@ == line_driven(old(self)@, level),
            fired == (old(self)@ matches Some(state) && state.fires_on(level)),
    {
        match self.slot.take() {
            Some(signal) => {
                let mut signal = signal;
                let fired = signal.drive(level);
                self.slot = Some(signal);
                fired
            },
            None => false,
        }
    }

    /// Whether the interrupt flag of the pin inside is set.
    pub fn is_interrupt_set(&self) -> (r: Result<bool, Fault>)
        ensures
            r is Ok <==> self@ is Some,
            r matches Ok(pending) ==> pending == self@.unwrap().pending,
            r matches Err(fault) ==> fault == Fault::EmptyCell,
    {
        match &self.slot {
            Some(signal) => Ok(signal.is_interrupt_set()),
            None => Err(Fault::EmptyCell),
        }
    }

    /// The event that the pin inside is armed on.
    pub fn listening(&self) -> (r: Result<Option<Event>, Fault>)
        ensures
            r is Ok <==> self@ is Some,
            r matches Ok(event) ==> event == self@.unwrap().listening,
            r matches Err(fault) ==> fault == Fault::EmptyCell,
    {
        match &self.slot {
            Some(signal) => Ok(signal.listening()),
            None => Err(Fault::EmptyCell),
        }
    }

    /// The level last seen on the line of the pin inside.
    pub fn level(&self) -> (r: Result<Level, Fault>)
        ensures
            r is Ok <==> self@ is Some,
            r matches Ok(level) ==> level == self@.unwrap().line,
            r matches Err(fault) ==> fault == Fault::EmptyCell,
    {
        match &self.slot {
            Some(signal) => Ok(signal.level()),
            None => Err(Fault::EmptyCell),
        }
    }
}

/// Acknowledging an interrupt that is already acknowledged changes nothing
/// and is no fault: whether the cell answers `Ok` depends only on whether it
/// is occupied, and acknowledging never empties it.
pub proof fn lemma_acknowledge_idempotent(contents: Option<InputState>)
    ensures
        acknowledged(acknowledged(contents)) == acknowledged(contents),
        acknowledged(contents) is Some <==> contents is Some,
        acknowledged(contents) matches Some(state) ==> !state.pending,
{
}

} // verus!
