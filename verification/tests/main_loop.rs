use gpio_interrupt::cell::Fault;
use gpio_interrupt::control::{handler_action, Action, HandlerAction, MainLoop, Stage, BLINK_INTERVAL_MS};
use gpio_interrupt::signal::{Event, Level, Pull};

#[test]
fn blink_interval_is_500_ms() {
    assert_eq!(BLINK_INTERVAL_MS, 500);
}

#[test]
fn handler_resumes_only_on_success() {
    assert_eq!(handler_action(Ok(())), HandlerAction::Resume);
    assert_eq!(handler_action(Err(Fault::EmptyCell)), HandlerAction::Abort);
    assert_eq!(handler_action(Err(Fault::AlreadyBorrowed)), HandlerAction::Abort);
}

#[test]
fn loop_starts_at_reset() {
    let main = MainLoop::new();
    assert_eq!(main.stage(), Stage::ConfigureOutput);
    assert_eq!(main.output_level(), Level::Low);
}

#[test]
fn startup_actions_in_order() {
    let mut main = MainLoop::new();
    assert_eq!(main.advance(), Action::ConfigureOutput(Level::Low));
    assert_eq!(main.output_level(), Level::Low);
    assert_eq!(main.advance(), Action::ConfigureInput(Pull::Up));
    assert_eq!(main.advance(), Action::ArmAndInstall(Event::FallingEdge));
    assert_eq!(main.output_level(), Level::Low);
    assert_eq!(main.advance(), Action::SetOutput(Level::High));
    assert_eq!(main.output_level(), Level::High);
    assert_eq!(main.advance(), Action::StartLogging);
    assert_eq!(main.stage(), Stage::Announce);
    assert_eq!(main.output_level(), Level::High);
}

#[test]
fn blink_cycle_logs_toggles_waits() {
    let mut main = MainLoop::new();
    for _ in 0..5 {
        main.advance();
    }
    assert_eq!(main.advance(), Action::LogLiveness);
    assert_eq!(main.output_level(), Level::High);
    assert_eq!(main.advance(), Action::ToggleOutput);
    assert_eq!(main.output_level(), Level::Low);
    assert_eq!(main.advance(), Action::Delay(500));
    assert_eq!(main.output_level(), Level::Low);
    assert_eq!(main.stage(), Stage::Announce);
    assert_eq!(main.advance(), Action::LogLiveness);
    assert_eq!(main.advance(), Action::ToggleOutput);
    assert_eq!(main.output_level(), Level::High);
    assert_eq!(main.advance(), Action::Delay(500));
    assert_eq!(main.output_level(), Level::High);
}

#[test]
fn output_alternates_once_per_interval() {
    let mut main = MainLoop::new();
    for _ in 0..5 {
        main.advance();
    }
    let mut waited: u64 = 0;
    let mut lines: u64 = 0;
    let mut toggles: u64 = 0;
    for turn in 1..=1000u64 {
        for _ in 0..3 {
            match main.advance() {
                Action::LogLiveness => lines += 1,
                Action::ToggleOutput => toggles += 1,
                Action::Delay(ms) => waited += ms,
                other => panic!("bring-up action {:?} in the blink cycle", other),
            }
        }
        let expected = if turn % 2 == 0 { Level::High } else { Level::Low };
        assert_eq!(main.output_level(), expected);
        assert_eq!(waited, 500 * turn);
        assert_eq!(lines, turn);
        assert_eq!(toggles, turn);
        assert_eq!(main.stage(), Stage::Announce);
    }
}
