use gpio_interrupt::cell::Fault;
use gpio_interrupt::control::HandlerAction;
use gpio_interrupt::exclusive::{handle_interrupt, install, new_shared, with_exclusive};
use gpio_interrupt::signal::{Event, InputSignal, InputState, Level, Pull};

#[test]
fn new_shared_cell_is_empty() {
    let shared = new_shared();
    let occupied = critical_section::with(|cs| shared.borrow_ref(cs).is_occupied());
    assert!(!occupied);
}

#[test]
fn handler_aborts_on_empty_shared_cell() {
    let shared = new_shared();
    assert_eq!(handle_interrupt(&shared), (Err(Fault::EmptyCell), HandlerAction::Abort));
    assert_eq!(handle_interrupt(&shared), (Err(Fault::EmptyCell), HandlerAction::Abort));
}

#[test]
fn install_arms_and_fills_the_shared_cell() {
    let shared = new_shared();
    assert_eq!(
        install(&shared, InputSignal::new(Pull::Up), Event::FallingEdge),
        Ok(InputState {
            pull: Pull::Up,
            line: Level::High,
            listening: Some(Event::FallingEdge),
            pending: false,
        })
    );
    let seen = critical_section::with(|cs| {
        let cell = shared.borrow_ref(cs);
        (cell.is_occupied(), cell.listening(), cell.level(), cell.is_interrupt_set())
    });
    assert_eq!(seen, (true, Ok(Some(Event::FallingEdge)), Ok(Level::High), Ok(false)));
}

#[test]
fn handler_clears_the_flag_in_the_shared_cell() {
    let shared = new_shared();
    install(&shared, InputSignal::new(Pull::Up), Event::FallingEdge).unwrap();
    let fired = critical_section::with(|cs| shared.borrow_ref_mut(cs).drive(Level::Low));
    assert!(fired);
    let pending = critical_section::with(|cs| shared.borrow_ref(cs).is_interrupt_set());
    assert_eq!(pending, Ok(true));
    assert_eq!(handle_interrupt(&shared), (Ok(()), HandlerAction::Resume));
    let pending = critical_section::with(|cs| shared.borrow_ref(cs).is_interrupt_set());
    assert_eq!(pending, Ok(false));
    assert_eq!(handle_interrupt(&shared), (Ok(()), HandlerAction::Resume));
    let pending = critical_section::with(|cs| shared.borrow_ref(cs).is_interrupt_set());
    assert_eq!(pending, Ok(false));
}

#[test]
fn access_inside_an_open_access_is_refused() {
    let shared = new_shared();
    install(&shared, InputSignal::new(Pull::Up), Event::FallingEdge).unwrap();
    let (inner_handle, inner_install) = critical_section::with(|cs| {
        let _open = shared.borrow_ref_mut(cs);
        (
            handle_interrupt(&shared),
            install(&shared, InputSignal::new(Pull::Down), Event::RisingEdge),
        )
    });
    assert_eq!(inner_handle, (Err(Fault::AlreadyBorrowed), HandlerAction::Abort));
    assert_eq!(inner_install, Err(Fault::AlreadyBorrowed));
    let listening = critical_section::with(|cs| shared.borrow_ref(cs).listening());
    assert_eq!(listening, Ok(Some(Event::FallingEdge)));
}

#[test]
fn with_exclusive_changes_the_pin_in_the_shared_cell() {
    let shared = new_shared();
    install(&shared, InputSignal::new(Pull::Up), Event::FallingEdge).unwrap();
    let answer = with_exclusive(&shared, |pin| {
        let mut pin = pin;
        pin.listen(Event::AnyEdge);
        pin.drive(Level::Low);
        pin
    });
    assert_eq!(
        answer,
        Ok(InputState {
            pull: Pull::Up,
            line: Level::Low,
            listening: Some(Event::AnyEdge),
            pending: true,
        })
    );
    let seen = critical_section::with(|cs| {
        let cell = shared.borrow_ref(cs);
        (cell.listening(), cell.level(), cell.is_interrupt_set())
    });
    assert_eq!(seen, (Ok(Some(Event::AnyEdge)), Ok(Level::Low), Ok(true)));
}

#[test]
fn with_exclusive_on_empty_shared_cell_is_a_fault() {
    let shared = new_shared();
    let mut ran = false;
    let answer = with_exclusive(&shared, |pin| {
        ran = true;
        pin
    });
    assert_eq!(answer, Err(Fault::EmptyCell));
    assert!(!ran);
}

#[test]
fn second_install_replaces_the_pin_in_the_shared_cell() {
    let shared = new_shared();
    install(&shared, InputSignal::new(Pull::Up), Event::FallingEdge).unwrap();
    install(&shared, InputSignal::new(Pull::Down), Event::RisingEdge).unwrap();
    let seen = critical_section::with(|cs| {
        let cell = shared.borrow_ref(cs);
        (cell.listening(), cell.level())
    });
    assert_eq!(seen, (Ok(Some(Event::RisingEdge)), Ok(Level::Low)));
}

#[test]
fn install_answers_with_the_pin_it_was_given() {
    let shared = new_shared();
    let mut pin = InputSignal::new(Pull::Down);
    pin.listen(Event::FallingEdge);
    pin.drive(Level::High);
    pin.drive(Level::Low);
    let answer = install(&shared, pin, Event::RisingEdge);
    assert_eq!(
        answer,
        Ok(InputState {
            pull: Pull::Down,
            line: Level::Low,
            listening: Some(Event::RisingEdge),
            pending: true,
        })
    );
    let pending = critical_section::with(|cs| shared.borrow_ref(cs).is_interrupt_set());
    assert_eq!(pending, Ok(true));
}

#[test]
fn with_exclusive_answers_with_what_the_work_gave_back() {
    let shared = new_shared();
    let mut pin = InputSignal::new(Pull::Up);
    pin.listen(Event::FallingEdge);
    pin.drive(Level::Low);
    install(&shared, pin, Event::FallingEdge).unwrap();
    let answer = with_exclusive(&shared, InputSignal::acknowledged);
    assert_eq!(
        answer,
        Ok(InputState {
            pull: Pull::Up,
            line: Level::Low,
            listening: Some(Event::FallingEdge),
            pending: false,
        })
    );
}
