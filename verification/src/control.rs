//! The decisions of the two execution contexts: what the main loop does
//! next, and what the interrupt handler does with the answer of the cell.
//!
//! Neither touches hardware. The main loop is a machine that names the next
//! action and moves on; whoever drives it performs the action.
use vstd::prelude::*;
use crate::cell::Fault;
use crate::signal::{Event, Level, OutputSignal, Pull};

verus! {

/// Length of the pause between two toggles of the output, in milliseconds.
pub const BLINK_INTERVAL_MS: u64 = 500;

/// How the interrupt handler ends.
#[derive(Clone, Copy, Debug, PartialEq, Eq, Structural)]
pub enum HandlerAction {
    /// The interrupt is acknowledged: return to the interrupted code.
    Resume,
    /// The input pin could not be reached: halt, never return.
    Abort,
}

/// What the handler does once it has asked the cell to acknowledge.
pub open spec fn handler_verdict(outcome: Result<(), Fault>) -> HandlerAction {
    match outcome {
        Ok(_) => HandlerAction::Resume,
        Err(_) => HandlerAction::Abort,
    }
}

/// What the handler does once it has asked the cell to acknowledge: it
/// resumes if and only if the cell has cleared the flag, and aborts on
/// every fault.
pub fn handler_action(outcome: Result<(), Fault>) -> (r: HandlerAction)
    ensures
        r == handler_verdict(outcome),
        r == HandlerAction::Resume <==> outcome is Ok,
{
    match outcome {
        Ok(_) => HandlerAction::Resume,
        Err(_) => HandlerAction::Abort,
    }
}

/// Where the main loop stands: five stages of bring-up, run once, then the
/// three stages of the blink cycle, for ever.
#[derive(Clone, Copy, Debug, PartialEq, Eq, Structural)]
pub enum Stage {
    ConfigureOutput,
    ConfigureInput,
    ArmInput,
    RaiseOutput,
    StartLogging,
    Announce,
    Toggle,
    Wait,
}

/// One thing for the main loop to do.
#[derive(Clone, Copy, Debug, PartialEq, Eq, Structural)]
pub enum Action {
    /// Make the output pin an output that drives this level.
    ConfigureOutput(Level),
    /// Make the input pin an input with this resistor.
    ConfigureInput(Pull),
    /// Inside one critical section, arm the input pin on this event and move
    /// it into the shared cell.
    ArmAndInstall(Event),
    /// Drive the output pin to this level.
    SetOutput(Level),
    /// Bring up the log sink.
    StartLogging,
    /// Write the line that says the loop is alive.
    LogLiveness,
    /// Invert the output pin.
    ToggleOutput,
    /// Block for this many milliseconds.
    Delay(u64),
}

/// State of the main loop: its stage and the level of the output pin.
pub struct LoopState {
    pub stage: Stage,
    pub led: Level,
}

impl LoopState {
    /// The main loop at reset.
    pub open spec fn reset() -> LoopState {
        LoopState { stage: Stage::ConfigureOutput, led: Level::Low }
    }

    /// Whether bring-up is over.
    pub open spec fn steady(self) -> bool {
        self.stage == Stage::Announce || self.stage == Stage::Toggle || self.stage == Stage::Wait
    }

    /// The action of the current stage.
    pub open spec fn action(self) -> Action {
        match self.stage {
            Stage::ConfigureOutput => Action::ConfigureOutput(Level::Low),
            Stage::ConfigureInput => Action::ConfigureInput(Pull::Up),
            Stage::ArmInput => Action::ArmAndInstall(Event::FallingEdge),
            Stage::RaiseOutput => Action::SetOutput(Level::High),
            Stage::StartLogging => Action::StartLogging,
            Stage::Announce => Action::LogLiveness,
            Stage::Toggle => Action::ToggleOutput,
            Stage::Wait => Action::Delay(BLINK_INTERVAL_MS),
        }
    }

    /// The state once the action of the current stage is done.
    pub open spec fn next(self) -> LoopState {
        match self.stage {
            Stage::ConfigureOutput => LoopState { stage: Stage::ConfigureInput, led: Level::Low },
            Stage::ConfigureInput => LoopState { stage: Stage::ArmInput, led: self.led },
            Stage::ArmInput => LoopState { stage: Stage::RaiseOutput, led: self.led },
            Stage::RaiseOutput => LoopState { stage: Stage::StartLogging, led: Level::High },
            Stage::StartLogging => LoopState { stage: Stage::Announce, led: self.led },
            Stage::Announce => LoopState { stage: Stage::Toggle, led: self.led },
            Stage::Toggle => LoopState { stage: Stage::Wait, led: self.led.flipped() },
            Stage::Wait => LoopState { stage: Stage::Announce, led: self.led },
        }
    }

    /// The state after `steps` actions.
    pub open spec fn after(self, steps: nat) -> LoopState
        decreases steps,
    {
        if steps == 0 {
            self
        } else {
            self.next().after((steps - 1) as nat)
        }
    }

    /// Milliseconds spent blocked in the next `steps` actions.
    pub open spec fn waited(self, steps: nat) -> nat
        decreases steps,
    {
        if steps == 0 {
            0
        } else {
            let pause: nat = match self.action() {
                Action::Delay(ms) => ms as nat,
                _ => 0,
            };
            pause + self.next().waited((steps - 1) as nat)
        }
    }

    /// Number of toggles of the output among the next `steps` actions.
    pub open spec fn toggles(self, steps: nat) -> nat
        decreases steps,
    {
        if steps == 0 {
            0
        } else {
            let one: nat = if self.action() == Action::ToggleOutput { 1 } else { 0 };
            one + self.next().toggles((steps - 1) as nat)
        }
    }

    /// Number of liveness lines among the next `steps` actions.
    pub open spec fn lines(self, steps: nat) -> nat
        decreases steps,
    {
        if steps == 0 {
            0
        } else {
            let one: nat = if self.action() == Action::LogLiveness { 1 } else { 0 };
            one + self.next().lines((steps - 1) as nat)
        }
    }
}

/// The main loop. It owns the output pin; nothing else changes it. Its view
/// is a [`LoopState`].
#[derive(Debug)]
pub struct MainLoop {
    stage: Stage,
    led: OutputSignal,
}

impl View for MainLoop {
    type V = LoopState;

    closed spec fn view(&self) -> LoopState {
        LoopState { stage: self.stage, led: self.led@ }
    }
}

impl MainLoop {
    /// The main loop at reset.
    pub fn new() -> (r: MainLoop)
        ensures
            r@ == LoopState::reset(),
    {
        MainLoop { stage: Stage::ConfigureOutput, led: OutputSignal::new(Level::Low) }
    }

    pub fn stage(&self) -> (r: Stage)
        ensures
            r == self@.stage,
    {
        self.stage
    }

    /// The level of the output pin.
    pub fn output_level(&self) -> (r: Level)
        ensures
            r == self@.led,
    {
        self.led.level()
    }

    /// Names the action of the current stage and moves to the next stage.
    /// The output level kept here changes as the action will change the pin.
    pub fn advance(&mut self) -> (action: Action)
        ensures
            action == old(self)@.action(),
            final(self)@ == old(self)@.next(),
    {
        match self.stage {
            Stage::ConfigureOutput => {
                self.led = OutputSignal::new(Level::Low);
                self.stage = Stage::ConfigureInput;
                Action::ConfigureOutput(Level::Low)
            },
            Stage::ConfigureInput => {
                self.stage = Stage::ArmInput;
                Action::ConfigureInput(Pull::Up)
            },
            Stage::ArmInput => {
                self.stage = Stage::RaiseOutput;
                Action::ArmAndInstall(Event::FallingEdge)
            },
            Stage::RaiseOutput => {
                self.led.set_high();
                self.stage = Stage::StartLogging;
                Action::SetOutput(Level::High)
            },
            Stage::StartLogging => {
                self.stage = Stage::Announce;
                Action::StartLogging
            },
            Stage::Announce => {
                self.stage = Stage::Toggle;
                Action::LogLiveness
            },
            Stage::Toggle => {
                self.led.toggle();
                self.stage = Stage::Wait;
                Action::ToggleOutput
            },
            Stage::Wait => {
                self.stage = Stage::Announce;
                Action::Delay(BLINK_INTERVAL_MS)
            },
        }
    }
}

/// Taking `a` steps and then `b` more is taking `a + b` steps, for the
/// state reached and for each of the three counts.
pub proof fn lemma_after_split(s: LoopState, a: nat, b: nat)
    ensures
        s.after(a + b) == s.after(a).after(b),
        s.waited(a + b) == s.waited(a) + s.after(a).waited(b),
        s.toggles(a + b) == s.toggles(a) + s.after(a).toggles(b),
        s.lines(a + b) == s.lines(a) + s.after(a).lines(b),
    decreases a,
{
    if a > 0 {
        lemma_after_split(s.next(), (a - 1) as nat, b);
        assert((a + b - 1) as nat == (a - 1) as nat + b);
    }
}

/// Bring-up takes five actions from reset, none of which blocks or logs a
/// liveness line, and leaves the output high at the head of the blink cycle.
pub proof fn lemma_startup()
    ensures
        LoopState::reset().after(5) == (LoopState { stage: Stage::Announce, led: Level::High }),
        LoopState::reset().waited(5) == 0,
        LoopState::reset().lines(5) == 0,
        LoopState::reset().toggles(5) == 0,
{
    reveal_with_fuel(LoopState::after, 6);
    reveal_with_fuel(LoopState::waited, 6);
    reveal_with_fuel(LoopState::lines, 6);
    reveal_with_fuel(LoopState::toggles, 6);
}

/// One turn of the blink cycle is three actions: one liveness line, one
/// toggle, one pause of the blink interval. It inverts the output and ends
/// where it began.
pub proof fn lemma_cycle(s: LoopState)
    requires
        s.stage == Stage::Announce,
    ensures
        s.action() == Action::LogLiveness,
        s.next().action() == Action::ToggleOutput,
        s.next().next().action() == Action::Delay(BLINK_INTERVAL_MS),
        s.after(3) == (LoopState { stage: Stage::Announce, led: s.led.flipped() }),
        s.waited(3) == BLINK_INTERVAL_MS,
        s.toggles(3) == 1,
        s.lines(3) == 1,
{
    reveal_with_fuel(LoopState::after, 4);
    reveal_with_fuel(LoopState::waited, 4);
    reveal_with_fuel(LoopState::lines, 4);
    reveal_with_fuel(LoopState::toggles, 4);
}

/// The blink cycle never stops and never stalls: after any number of turns
/// the loop is again at the head of the cycle, it has toggled the output
/// once and logged once per turn, it has been blocked for one blink interval
/// per turn, and the output stands at its first level after an even number
/// of turns and at the other level after an odd number.
pub proof fn lemma_liveness(s: LoopState, turns: nat)
    requires
        s.stage == Stage::Announce,
    ensures
        s.after(3 * turns).stage == Stage::Announce,
        s.after(3 * turns).led == (if turns % 2 == 0 { s.led } else { s.led.flipped() }),
        s.toggles(3 * turns) == turns,
        s.lines(3 * turns) == turns,
        s.waited(3 * turns) == BLINK_INTERVAL_MS * turns,
    decreases turns,
{
    if turns == 0 {
    } else {
        let before = (turns - 1) as nat;
        lemma_liveness(s, before);
        let mid = s.after(3 * before);
        lemma_cycle(mid);
        lemma_after_split(s, 3 * before, 3);
        assert(3 * before + 3 == 3 * turns);
        assert(BLINK_INTERVAL_MS * before + BLINK_INTERVAL_MS == BLINK_INTERVAL_MS * turns);
    }
}

/// Bring-up is done once: a loop in the blink cycle stays in it.
pub proof fn lemma_steady_stays(s: LoopState, steps: nat)
    requires
        s.steady(),
    ensures
        s.after(steps).steady(),
    decreases steps,
{
    if steps > 0 {
        lemma_steady_stays(s.next(), (steps - 1) as nat);
    }
}

} // verus!
