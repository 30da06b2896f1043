//! The whole device as one value: the main loop, the input pin on its way
//! into the shared cell, and the cell. A step is either one action of the
//! main loop or one change of the input line, which may run the interrupt
//! handler to its end before anything else happens. Any order of such steps
//! is an interleaving of the two execution contexts.
use vstd::prelude::*;
use crate::cell::{acknowledged, line_driven, SharedCell};
use crate::control::{handler_action, lemma_after_split, Action, HandlerAction, LoopState, MainLoop, Stage};
use crate::signal::{Event, InputSignal, InputState, Level, Pull};

verus! {

/// What can happen to the device next.
#[derive(Clone, Copy, Debug, PartialEq, Eq)]
pub enum Occurrence {
    /// The main loop performs its next action.
    LoopStep,
    /// The input line goes to this level.
    LineChange(Level),
}

/// What one step did.
#[derive(Clone, Copy, Debug, PartialEq, Eq)]
pub struct Report {
    /// The action that the main loop performed, if the step was its own.
    pub action: Option<Action>,
    /// How the interrupt handler ended, if the step ran it.
    pub handler: Option<HandlerAction>,
}

/// The level of a line that stood at `line` before the steps of `trace`.
pub open spec fn line_after(line: Level, trace: Seq<Occurrence>) -> Level
    decreases trace.len(),
{
    if trace.len() == 0 {
        line
    } else {
        match trace.last() {
            Occurrence::LineChange(level) => level,
            Occurrence::LoopStep => line_after(line, trace.drop_last()),
        }
    }
}

/// Number of loop actions among the steps of `trace`.
pub open spec fn loop_steps(trace: Seq<Occurrence>) -> nat
    decreases trace.len(),
{
    if trace.len() == 0 {
        0
    } else {
        let one: nat = if trace.last() == Occurrence::LoopStep { 1 } else { 0 };
        loop_steps(trace.drop_last()) + one
    }
}

/// Number of falling edges that the steps of `trace` put on a line that
/// stood at `line` before them.
pub open spec fn falling_edges(line: Level, trace: Seq<Occurrence>) -> nat
    decreases trace.len(),
{
    if trace.len() == 0 {
        0
    } else {
        let fell: nat = if trace.last() == Occurrence::LineChange(Level::Low) && line_after(
            line,
            trace.drop_last(),
        ) == Level::High {
            1
        } else {
            0
        };
        falling_edges(line, trace.drop_last()) + fell
    }
}

/// State of the device: the view of a [`Board`].
pub struct BoardState {
    pub main: LoopState,
    /// The input pin while the main loop still holds it.
    pub held: Option<InputState>,
    /// The contents of the shared cell.
    pub cell: Option<InputState>,
    /// Set once the handler has aborted. Nothing happens after that.
    pub halted: bool,
}

impl BoardState {
    /// The device at reset: no pin configured, the cell empty.
    pub open spec fn reset() -> BoardState {
        BoardState { main: LoopState::reset(), held: None, cell: None, halted: false }
    }

    /// Whether the input line going to `level` raises the interrupt.
    pub open spec fn fires(self, level: Level) -> bool {
        ||| (self.held matches Some(state) && state.fires_on(level))
        ||| (self.cell matches Some(state) && state.fires_on(level))
    }

    /// The state after one step.
    pub open spec fn step(self, occurrence: Occurrence) -> BoardState {
        if self.halted {
            self
        } else {
            match occurrence {
                Occurrence::LoopStep => match self.main.action() {
                    Action::ConfigureInput(pull) => BoardState {
                        main: self.main.next(),
                        held: Some(InputState::configured(pull)),
                        ..self
                    },
                    Action::ArmAndInstall(event) => match self.held {
                        Some(state) => BoardState {
                            main: self.main.next(),
                            held: None,
                            cell: Some(state.armed_on(event)),
                            ..self
                        },
                        None => BoardState { main: self.main.next(), ..self },
                    },
                    _ => BoardState { main: self.main.next(), ..self },
                },
                Occurrence::LineChange(level) => if self.fires(level) {
                    BoardState {
                        held: line_driven(self.held, level),
                        cell: acknowledged(line_driven(self.cell, level)),
                        halted: self.cell is None,
                        ..self
                    }
                } else {
                    BoardState {
                        held: line_driven(self.held, level),
                        cell: line_driven(self.cell, level),
                        ..self
                    }
                },
            }
        }
    }

    /// What one step does.
    pub open spec fn report(self, occurrence: Occurrence) -> Report {
        if self.halted {
            Report { action: None, handler: None }
        } else {
            match occurrence {
                Occurrence::LoopStep => Report { action: Some(self.main.action()), handler: None },
                Occurrence::LineChange(level) => Report {
                    action: None,
                    handler: if self.fires(level) {
                        Some(
                            if self.cell is Some {
                                HandlerAction::Resume
                            } else {
                                HandlerAction::Abort
                            },
                        )
                    } else {
                        None
                    },
                },
            }
        }
    }

    /// The state after the steps of `trace`, in order.
    pub open spec fn run(self, trace: Seq<Occurrence>) -> BoardState
        decreases trace.len(),
    {
        if trace.len() == 0 {
            self
        } else {
            self.run(trace.drop_last()).step(trace.last())
        }
    }

    /// Number of steps of `trace` that run the interrupt handler.
    pub open spec fn handled(self, trace: Seq<Occurrence>) -> nat
        decreases trace.len(),
    {
        if trace.len() == 0 {
            0
        } else {
            let ran: nat = if self.run(trace.drop_last()).report(trace.last()).handler is Some {
                1
            } else {
                0
            };
            self.handled(trace.drop_last()) + ran
        }
    }

    /// Whether the input pin is armed and in the cell, on a sound device.
    pub open spec fn armed(self) -> bool {
        self.sound() && self.cell is Some
    }

    /// What holds of the device between any two steps of a run from reset:
    /// it has not halted; the input pin is in exactly one place; while the
    /// main loop holds it, it is not armed; once it is armed it is in the
    /// cell, whole, pulled up, armed on falling edges, its flag clear.
    pub open spec fn sound(self) -> bool {
        &&& !self.halted
        &&& match self.main.stage {
            Stage::ConfigureOutput | Stage::ConfigureInput => self.held is None && self.cell is None,
            Stage::ArmInput => {
                &&& self.cell is None
                &&& self.held matches Some(state)
                &&& state.listening is None
                &&& state.pull == Pull::Up
                &&& !state.pending
            },
            _ => {
                &&& self.held is None
                &&& self.cell matches Some(state)
                &&& state.listening == Some(Event::FallingEdge)
                &&& state.pull == Pull::Up
                &&& !state.pending
            },
        }
    }
}

/// The device, for running the main loop and the handler against line
/// changes without hardware. Its view is a [`BoardState`].
#[derive(Debug)]
pub struct Board {
    main: MainLoop,
    held: Option<InputSignal>,
    cell: SharedCell,
    halted: bool,
}

impl View for Board {
    type V = BoardState;

    closed spec fn view(&self) -> BoardState {
        BoardState {
            main: self.main@,
            held: match self.held {
                Some(signal) => Some(signal@),
                None => None,
            },
            cell: self.cell@,
            halted: self.halted,
        }
    }
}

impl Board {
    /// The device at reset.
    pub fn new() -> (r: Board)
        ensures
            r@ == BoardState::reset(),
    {
        Board { main: MainLoop::new(), held: None, cell: SharedCell::new(), halted: false }
    }

    /// A device put together from its parts, running.
    pub fn assemble(main: MainLoop, held: Option<InputSignal>, cell: SharedCell) -> (r: Board)
        ensures
            r@.main == main@,
            r@.held == match held {
                Some(signal) => Some(signal@),
                None => None,
            },
            r@.cell == cell@,
            !r@.halted,
    {
        Board { main, held, cell, halted: false }
    }

    pub fn is_halted(&self) -> (r: bool)
        ensures
            r == self@.halted,
    {
        self.halted
    }

    /// The level of the output pin.
    pub fn output_level(&self) -> (r: Level)
        ensures
            r == self@.main.led,
    {
        self.main.output_level()
    }

    /// The stage of the main loop.
    pub fn stage(&self) -> (r: Stage)
        ensures
            r == self@.main.stage,
    {
        self.main.stage()
    }

    /// The shared cell.
    pub fn cell(&self) -> (r: &SharedCell)
        ensures
            r@ == self@.cell,
    {
        &self.cell
    }

    /// One step. A line change that raises the interrupt runs the handler
    /// at once: it acknowledges through the cell, and aborts, halting the
    /// device, if and only if the cell is empty.
    pub fn step(&mut self, occurrence: Occurrence) -> (report: Report)
        ensures
            final(self)@ == old(self)@.step(occurrence),
            report == old(self)@.report(occurrence),
    {
        if self.halted {
            return Report { action: None, handler: None };
        }
        match occurrence {
            Occurrence::LoopStep => {
                let action = self.main.advance();
                match action {
                    Action::ConfigureInput(pull) => {
                        self.held = Some(InputSignal::new(pull));
                    },
                    Action::ArmAndInstall(event) => {
                        match self.held.take() {
                            Some(signal) => {
                                self.cell.arm_and_install(signal, event);
                            },
                            None => {},
                        }
                    },
                    _ => {},
                }
                Report { action: Some(action), handler: None }
            },
            Occurrence::LineChange(level) => {
                let held_fired = match self.held.take() {
                    Some(signal) => {
                        let mut signal = signal;
                        let fired = signal.drive(level);
                        self.held = Some(signal);
                        fired
                    },
                    None => false,
                };
                let cell_fired = self.cell.drive(level);
                if held_fired || cell_fired {
                    let verdict = handler_action(self.cell.acknowledge());
                    match verdict {
                        HandlerAction::Abort => {
                            self.halted = true;
                        },
                        HandlerAction::Resume => {},
                    }
                    Report { action: None, handler: Some(verdict) }
                } else {
                    Report { action: None, handler: None }
                }
            },
        }
    }
}

/// A step keeps a sound device sound, whichever step it is.
pub proof fn lemma_step_keeps_sound(s: BoardState, occurrence: Occurrence)
    requires
        s.sound(),
    ensures
        s.step(occurrence).sound(),
{
}

/// Whatever the order of loop actions and line changes after reset, the
/// device is sound after each of them: the handler never meets an empty or
/// half-written cell, and so never aborts.
pub proof fn lemma_every_interleaving_sound(trace: Seq<Occurrence>)
    ensures
        BoardState::reset().run(trace).sound(),
{
    lemma_run_keeps_sound(BoardState::reset(), trace);
}

/// A sound device stays sound through any steps, and its input pin, once
/// in the cell, stays there.
pub proof fn lemma_run_keeps_sound(s: BoardState, trace: Seq<Occurrence>)
    requires
        s.sound(),
    ensures
        s.run(trace).sound(),
        s.armed() ==> s.run(trace).armed(),
    decreases trace.len(),
{
    if trace.len() > 0 {
        lemma_run_keeps_sound(s, trace.drop_last());
        lemma_step_keeps_sound(s.run(trace.drop_last()), trace.last());
    }
}

/// Once the pin is armed and in the cell, the handler runs exactly once for
/// each falling edge of the input line, however the edges fall among the
/// actions of the main loop: not for a rise, not for a line that stays
/// where it is, not for anything the loop does.
pub proof fn lemma_one_handler_run_per_falling_edge(s: BoardState, trace: Seq<Occurrence>)
    requires
        s.armed(),
    ensures
        s.handled(trace) == falling_edges(s.cell.unwrap().line, trace),
        s.run(trace).cell.unwrap().line == line_after(s.cell.unwrap().line, trace),
    decreases trace.len(),
{
    if trace.len() > 0 {
        lemma_one_handler_run_per_falling_edge(s, trace.drop_last());
        lemma_run_keeps_sound(s, trace.drop_last());
    }
}

/// Line changes and the handler neither hold the main loop back nor push
/// it on: after any steps of a sound device the main loop is where its own
/// actions among them lead.
pub proof fn lemma_loop_keeps_pace(s: BoardState, trace: Seq<Occurrence>)
    requires
        s.sound(),
    ensures
        s.run(trace).main == s.main.after(loop_steps(trace)),
    decreases trace.len(),
{
    if trace.len() > 0 {
        lemma_loop_keeps_pace(s, trace.drop_last());
        lemma_run_keeps_sound(s, trace.drop_last());
        lemma_after_split(s.main, loop_steps(trace.drop_last()), 1);
        reveal_with_fuel(LoopState::after, 2);
    }
}

/// The handler runs only on a line change, and only on one that shows the
/// armed event; it then ends in exactly one way, by what the cell holds.
pub proof fn lemma_handler_runs_on_armed_event(s: BoardState, occurrence: Occurrence)
    requires
        !s.halted,
    ensures
        s.report(occurrence).handler is Some <==> (occurrence matches Occurrence::LineChange(level)
            && s.fires(level)),
        s.report(occurrence).handler == Some(HandlerAction::Resume) ==> s.cell is Some,
        s.report(occurrence).handler == Some(HandlerAction::Abort) ==> s.cell is None,
{
}

/// On a sound device whose pin is in the cell and whose line is high, one
/// falling edge runs the handler exactly once: the edge runs it, it
/// resumes, the flag is clear again, and the line staying low runs nothing.
/// The rise back runs nothing either.
pub proof fn lemma_one_edge_one_handler(s: BoardState)
    requires
        s.sound(),
        s.cell matches Some(state) && state.line == Level::High,
    ensures
        s.report(Occurrence::LineChange(Level::Low)).handler == Some(HandlerAction::Resume),
        s.step(Occurrence::LineChange(Level::Low)).sound(),
        s.step(Occurrence::LineChange(Level::Low)).report(Occurrence::LineChange(Level::Low)).handler
            is None,
        s.step(Occurrence::LineChange(Level::Low)).report(Occurrence::LineChange(Level::High)).handler
            is None,
        s.report(Occurrence::LineChange(Level::High)).handler is None,
{
}

/// A line change, with or without the handler, leaves the main loop where
/// it was: its stage, and the level of the output.
pub proof fn lemma_line_change_leaves_loop(s: BoardState, level: Level)
    ensures
        s.step(Occurrence::LineChange(level)).main == s.main,
        s.report(Occurrence::LineChange(level)).action is None,
{
}

/// With no line change, the device follows the main loop: after any number
/// of loop steps its main loop is where that many actions lead.
pub proof fn lemma_undisturbed_run(s: BoardState, steps: nat)
    requires
        !s.halted,
    ensures
        s.run(Seq::new(steps, |i: int| Occurrence::LoopStep)).main == s.main.after(steps),
        !s.run(Seq::new(steps, |i: int| Occurrence::LoopStep)).halted,
    decreases steps,
{
    let trace = Seq::new(steps, |i: int| Occurrence::LoopStep);
    if steps > 0 {
        let before = (steps - 1) as nat;
        let shorter = Seq::new(before, |i: int| Occurrence::LoopStep);
        assert(trace.drop_last() =~= shorter);
        lemma_undisturbed_run(s, before);
        lemma_after_split(s.main, before, 1);
        reveal_with_fuel(LoopState::after, 2);
    }
}

/// A raised interrupt that finds the cell empty always ends in an abort
/// that halts the device, and a halted device stays as it is.
pub proof fn lemma_empty_cell_aborts(s: BoardState, level: Level, later: Occurrence)
    requires
        !s.halted,
        s.cell is None,
        s.fires(level),
    ensures
        s.report(Occurrence::LineChange(level)).handler == Some(HandlerAction::Abort),
        s.step(Occurrence::LineChange(level)).halted,
        s.step(Occurrence::LineChange(level)).cell is None,
        s.step(Occurrence::LineChange(level)).step(later) == s.step(Occurrence::LineChange(level)),
        s.step(Occurrence::LineChange(level)).report(later) == (Report { action: None, handler: None }),
{
}

} // verus!
