use gpio_interrupt::cell::{Fault, SharedCell};
use gpio_interrupt::signal::{Event, InputSignal, InputState, Level, Pull};

#[test]
fn new_cell_is_empty() {
    let cell = SharedCell::new();
    assert!(!cell.is_occupied());
    assert_eq!(cell.is_interrupt_set(), Err(Fault::EmptyCell));
    assert_eq!(cell.listening(), Err(Fault::EmptyCell));
    assert_eq!(cell.level(), Err(Fault::EmptyCell));
}

#[test]
fn acknowledge_on_empty_cell_is_a_fault_every_time() {
    let mut cell = SharedCell::new();
    assert_eq!(cell.acknowledge(), Err(Fault::EmptyCell));
    assert_eq!(cell.acknowledge(), Err(Fault::EmptyCell));
    assert!(!cell.is_occupied());
}

#[test]
fn install_fills_the_cell() {
    let mut cell = SharedCell::new();
    cell.install(InputSignal::new(Pull::Up));
    assert!(cell.is_occupied());
    assert_eq!(cell.listening(), Ok(None));
    assert_eq!(cell.level(), Ok(Level::High));
    assert_eq!(cell.is_interrupt_set(), Ok(false));
}

#[test]
fn second_install_replaces_the_first() {
    let mut cell = SharedCell::new();
    let mut first = InputSignal::new(Pull::Up);
    first.listen(Event::FallingEdge);
    first.drive(Level::Low);
    cell.install(first);
    assert_eq!(cell.is_interrupt_set(), Ok(true));
    cell.install(InputSignal::new(Pull::Down));
    assert_eq!(cell.is_interrupt_set(), Ok(false));
    assert_eq!(cell.listening(), Ok(None));
    assert_eq!(cell.level(), Ok(Level::Low));
}

#[test]
fn arm_and_install_arms_the_pin_inside() {
    let mut cell = SharedCell::new();
    cell.arm_and_install(InputSignal::new(Pull::Up), Event::FallingEdge);
    assert!(cell.is_occupied());
    assert_eq!(cell.listening(), Ok(Some(Event::FallingEdge)));
    assert_eq!(cell.level(), Ok(Level::High));
    assert_eq!(cell.is_interrupt_set(), Ok(false));
}

#[test]
fn acknowledge_clears_the_flag() {
    let mut cell = SharedCell::new();
    cell.arm_and_install(InputSignal::new(Pull::Up), Event::FallingEdge);
    assert!(cell.drive(Level::Low));
    assert_eq!(cell.is_interrupt_set(), Ok(true));
    assert_eq!(cell.acknowledge(), Ok(()));
    assert_eq!(cell.is_interrupt_set(), Ok(false));
    assert_eq!(cell.level(), Ok(Level::Low));
    assert_eq!(cell.listening(), Ok(Some(Event::FallingEdge)));
}

#[test]
fn acknowledge_twice_is_no_fault() {
    let mut cell = SharedCell::new();
    cell.arm_and_install(InputSignal::new(Pull::Up), Event::FallingEdge);
    cell.drive(Level::Low);
    assert_eq!(cell.acknowledge(), Ok(()));
    assert_eq!(cell.acknowledge(), Ok(()));
    assert_eq!(cell.is_interrupt_set(), Ok(false));
    assert!(cell.is_occupied());
    assert!(!cell.drive(Level::Low));
    assert_eq!(cell.is_interrupt_set(), Ok(false));
}

#[test]
fn driving_an_empty_cell_does_nothing() {
    let mut cell = SharedCell::new();
    assert!(!cell.drive(Level::Low));
    assert!(!cell.is_occupied());
}

#[test]
fn rising_edge_does_not_raise_a_falling_edge_interrupt() {
    let mut cell = SharedCell::new();
    cell.arm_and_install(InputSignal::new(Pull::Up), Event::FallingEdge);
    cell.drive(Level::Low);
    cell.acknowledge().unwrap();
    assert!(!cell.drive(Level::High));
    assert_eq!(cell.is_interrupt_set(), Ok(false));
    assert_eq!(cell.level(), Ok(Level::High));
}

#[test]
fn with_exclusive_runs_the_work_on_the_pin_inside() {
    let mut cell = SharedCell::new();
    cell.install(InputSignal::new(Pull::Up));
    let answer = cell.with_exclusive(|pin| {
        let mut pin = pin;
        pin.listen(Event::RisingEdge);
        pin
    });
    assert_eq!(
        answer,
        Ok(InputState {
            pull: Pull::Up,
            line: Level::High,
            listening: Some(Event::RisingEdge),
            pending: false,
        })
    );
    assert_eq!(cell.listening(), Ok(Some(Event::RisingEdge)));
    assert_eq!(cell.level(), Ok(Level::High));
}

#[test]
fn with_exclusive_on_empty_cell_does_not_run_the_work() {
    let mut cell = SharedCell::new();
    let mut ran = false;
    let answer = cell.with_exclusive(|pin| {
        ran = true;
        pin
    });
    assert_eq!(answer, Err(Fault::EmptyCell));
    assert!(!ran);
    assert!(!cell.is_occupied());
}

#[test]
fn arm_and_install_answers_with_the_armed_pin() {
    let mut cell = SharedCell::new();
    let mut pin = InputSignal::new(Pull::Up);
    pin.drive(Level::Low);
    let state = cell.arm_and_install(pin, Event::AnyEdge);
    assert_eq!(
        state,
        InputState {
            pull: Pull::Up,
            line: Level::Low,
            listening: Some(Event::AnyEdge),
            pending: false,
        }
    );
    assert_eq!(cell.listening(), Ok(Some(Event::AnyEdge)));
    assert_eq!(cell.level(), Ok(Level::Low));
}
