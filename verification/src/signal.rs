//! Digital pins as plain values: the level of an output, and the line,
//! subscription and interrupt flag of an input.
use vstd::prelude::*;

verus! {

/// Logic level of a digital line.
#[derive(Clone, Copy, Debug, PartialEq, Eq, Structural)]
pub enum Level {
    Low,
    High,
}

impl Level {
    /// The other level.
    pub open spec fn flipped(self) -> Level {
        match self {
            Level::Low => Level::High,
            Level::High => Level::Low,
        }
    }

    /// The other level.
    pub fn toggled(self) -> (r: Level)
        ensures
            r == self.flipped(),
    {
        match self {
            Level::Low => Level::High,
            Level::High => Level::Low,
        }
    }
}

/// Internal resistor of an input pin.
#[derive(Clone, Copy, Debug, PartialEq, Eq, Structural)]
pub enum Pull {
    Up,
    Down,
}

impl Pull {
    /// Level that the line rests at when nothing drives it.
    pub open spec fn idle(self) -> Level {
        match self {
            Pull::Up => Level::High,
            Pull::Down => Level::Low,
        }
    }

    /// Level that the line rests at when nothing drives it.
    pub fn idle_level(self) -> (r: Level)
        ensures
            r == self.idle(),
    {
        match self {
            Pull::Up => Level::High,
            Pull::Down => Level::Low,
        }
    }
}

/// Transition of an input line that an interrupt can be armed on.
#[derive(Clone, Copy, Debug, PartialEq, Eq, Structural)]
pub enum Event {
    RisingEdge,
    FallingEdge,
    AnyEdge,
}

impl Event {
    /// Whether a line that goes from `before` to `after` shows this event.
    pub open spec fn matches_change(self, before: Level, after: Level) -> bool {
        match self {
            Event::RisingEdge => before == Level::Low && after == Level::High,
            Event::FallingEdge => before == Level::High && after == Level::Low,
            Event::AnyEdge => before != after,
        }
    }

    /// Whether a line that goes from `before` to `after` shows this event.
    pub fn observes(self, before: Level, after: Level) -> (r: bool)
        ensures
            r == self.matches_change(before, after),
    {
        match self {
            Event::RisingEdge => before == Level::Low && after == Level::High,
            Event::FallingEdge => before == Level::High && after == Level::Low,
            Event::AnyEdge => before != after,
        }
    }
}

/// An output pin. Its view is the level it drives.
#[derive(Debug)]
pub struct OutputSignal {
    level: Level,
}

impl View for OutputSignal {
    type V = Level;

    closed spec fn view(&self) -> Level {
        self.level
    }
}

impl OutputSignal {
    /// Configures the pin as an output that drives `initial`.
    pub fn new(initial: Level) -> (r: OutputSignal)
        ensures
            r@ == initial,
    {
        OutputSignal { level: initial }
    }

    /// The level that the pin drives.
    pub fn level(&self) -> (r: Level)
        ensures
            r == self@,
    {
        self.level
    }

    pub fn is_set_high(&self) -> (r: bool)
        ensures
            r == (self@ == Level::High),
    {
        self.level == Level::High
    }

    pub fn set_high(&mut self)
        ensures
            final(self)@ == Level::High,
    {
        self.level = Level::High;
    }

    pub fn set_low(&mut self)
        ensures
            final(self)@ == Level::Low,
    {
        self.level = Level::Low;
    }

    /// Inverts the level that the pin drives.
    pub fn toggle(&mut self)
        ensures
            final(self)@ == old(self)@.flipped(),
    {
        self.level = self.level.toggled();
    }
}

/// What is known of an input pin: the contents of an [`InputSignal`].
#[derive(Clone, Copy, Debug, PartialEq, Eq)]
pub struct InputState {
    /// Internal resistor.
    pub pull: Pull,
    /// Level last seen on the line.
    pub line: Level,
    /// Event that the interrupt is armed on, if any.
    pub listening: Option<Event>,
    /// The interrupt flag: set by an observed event, cleared by the handler.
    pub pending: bool,
}

impl InputState {
    /// A freshly configured input: the line idles, nothing is armed or pending.
    pub open spec fn configured(pull: Pull) -> InputState {
        InputState { pull, line: pull.idle(), listening: None, pending: false }
    }

    /// The same pin, armed on `event`.
    pub open spec fn armed_on(self, event: Event) -> InputState {
        InputState { listening: Some(event), ..self }
    }

    /// The same pin with its interrupt flag cleared.
    pub open spec fn cleared(self) -> InputState {
        InputState { pending: false, ..self }
    }

    /// Whether the line going to `level` shows the event the pin is armed on.
    pub open spec fn fires_on(self, level: Level) -> bool {
        self.listening matches Some(event) && event.matches_change(self.line, level)
    }

    /// The same pin after the line went to `level`: an armed event that the
    /// change shows sets the interrupt flag, and nothing else ever sets it.
    pub open spec fn driven(self, level: Level) -> InputState {
        InputState { line: level, pending: self.pending || self.fires_on(level), ..self }
    }
}

/// An input pin with its interrupt flag. Its view is an [`InputState`].
#[derive(Debug)]
pub struct InputSignal {
    pull: Pull,
    line: Level,
    listening: Option<Event>,
    pending: bool,
}

impl View for InputSignal {
    type V = InputState;

    closed spec fn view(&self) -> InputState {
        InputState {
            pull: self.pull,
            line: self.line,
            listening: self.listening,
            pending: self.pending,
        }
    }
}

impl InputSignal {
    /// Configures the pin as an input with the given resistor.
    pub fn new(pull: Pull) -> (r: InputSignal)
        ensures
            r@ == InputState::configured(pull),
    {
        InputSignal { pull, line: pull.idle_level(), listening: None, pending: false }
    }

    /// Everything that is known of the pin, as one value.
    pub fn state(&self) -> (r: InputState)
        ensures
            r == self@,
    {
        InputState {
            pull: self.pull,
            line: self.line,
            listening: self.listening,
            pending: self.pending,
        }
    }

    pub fn pull(&self) -> (r: Pull)
        ensures
            r == self@.pull,
    {
        self.pull
    }

    /// Level last seen on the line.
    pub fn level(&self) -> (r: Level)
        ensures
            r == self@.line,
    {
        self.line
    }

    /// Event that the interrupt is armed on, if any.
    pub fn listening(&self) -> (r: Option<Event>)
        ensures
            r == self@.listening,
    {
        self.listening
    }

    /// Whether the interrupt flag is set.
    pub fn is_interrupt_set(&self) -> (r: bool)
        ensures
            r == self@.pending,
    {
        self.pending
    }

    /// Arms the interrupt on `event`.
    pub fn listen(&mut self, event: Event)
        ensures
            final(self)@ == old(self)@.armed_on(event),
    {
        self.listening = Some(event);
    }

    /// Clears the interrupt flag. Clearing a flag that is already clear
    /// changes nothing.
    pub fn clear_interrupt(&mut self)
        ensures
            final(self)@ == old(self)@.cleared(),
    {
        self.pending = false;
    }

    /// The same pin with its interrupt flag cleared: [`Self::clear_interrupt`]
    /// for a pin that is passed on by value.
    pub fn acknowledged(self) -> (r: InputSignal)
        ensures
            r@ == self@.cleared(),
    {
        let mut signal = self;
        signal.clear_interrupt();
        signal
    }

    /// The line goes to `level`. Returns whether this change raised the
    /// interrupt, that is, whether it showed the armed event.
    pub fn drive(&mut self, level: Level) -> (fired: bool)
        ensures
            fired == old(self)@.fires_on(level),
            final(self)@ == old(self)@.driven(level),
    {
        let fired = match self.listening {
            Some(event) => event.observes(self.line, level),
            None => false,
        };
        self.line = level;
        self.pending = self.pending || fired;
        fired
    }
}

/// Acknowledging twice is acknowledging once: the second clearing changes
/// nothing, and a cleared flag is not raised again by a line that stays
/// where it is, whatever the pin is armed on.
pub proof fn lemma_clear_idempotent(s: InputState)
    ensures
        s.cleared().cleared() == s.cleared(),
        !s.cleared().pending,
        s.cleared() == (InputState { pending: false, ..s }),
        !s.cleared().fires_on(s.line),
        s.cleared().driven(s.line) == s.cleared(),
{
}

/// One falling edge on a line armed on falling edges raises the interrupt
/// once: the change itself fires, and once the flag is cleared the line
/// staying low, or rising again, fires nothing.
pub proof fn lemma_falling_edge_fires_once(s: InputState)
    requires
        s.listening == Some(Event::FallingEdge),
        s.line == Level::High,
        !s.pending,
    ensures
        s.fires_on(Level::Low),
        s.driven(Level::Low).pending,
        !s.fires_on(Level::High),
        !s.driven(Level::Low).cleared().fires_on(Level::Low),
        !s.driven(Level::Low).cleared().fires_on(Level::High),
        !s.driven(Level::Low).cleared().driven(Level::Low).pending,
        !s.driven(Level::Low).cleared().driven(Level::High).pending,
{
}

} // verus!
