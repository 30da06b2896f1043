//! Entry into the shared cell from either execution context, with
//! preemption suppressed for as long as the cell is open.
//!
//! The cell lives in a `critical_section::Mutex<RefCell<..>>`. What it holds
//! can change between any two calls made from one context, because the
//! other context may have run in between; so a contract here speaks only of
//! the answer: what the cell was left with when the critical section ended.
//! The rest is proved of [`SharedCell`], on the reference handed to it.
use vstd::prelude::*;
use core::cell::RefCell;
use critical_section::Mutex;
use crate::cell::{Fault, SharedCell};
use crate::control::{handler_action, handler_verdict, HandlerAction};
use crate::signal::{Event, InputSignal, InputState};

verus! {

/// `critical_section::Mutex`, carried through as an opaque value.
#[verifier::external_type_specification]
#[verifier::external_body]
#[verifier::reject_recursive_types(T)]
pub struct ExMutex<T>(critical_section::Mutex<T>);

/// `core::cell::RefCell`, carried through as an opaque value.
#[verifier::external_type_specification]
#[verifier::external_body]
#[verifier::reject_recursive_types(T)]
pub struct ExRefCell<T: ?Sized>(core::cell::RefCell<T>);

/// Calls `critical_section::with` and, inside it, `RefCell::try_borrow_mut`
/// on the cell and then [`SharedCell::arm_and_install`]. Claimed, not
/// proved: `with` hands back what its closure returns, which is either the
/// answer of `arm_and_install` on these arguments or the refused borrow.
#[verifier::external_body]
fn install_exclusive(shared: &Mutex<RefCell<SharedCell>>, signal: InputSignal, event: Event) -> (r: Result<InputState, Fault>)
    ensures
        r matches Ok(state) ==> state == signal@.armed_on(event),
        r matches Err(fault) ==> fault == Fault::AlreadyBorrowed,
{
    critical_section::with(|cs| match shared.borrow(cs).try_borrow_mut() {
        Ok(mut cell) => Ok(cell.arm_and_install(signal, event)),
        Err(_) => Err(Fault::AlreadyBorrowed),
    })
}

/// Calls `critical_section::with` and, inside it, `RefCell::try_borrow_mut`
/// on the cell and then [`SharedCell::with_exclusive`] with `work`. Claimed,
/// not proved: `with` hands back what its closure returns, so an `Ok` is the
/// answer of `SharedCell::with_exclusive`: the state of a pin that `work`
/// gave back. Of whether the answer is `Ok` nothing is claimed: that depends
/// on what the cell holds when the call is made, and is not known before.
/// For the same reason `work` must accept every pin.
#[verifier::external_body]
fn with_cell<F: FnOnce(InputSignal) -> InputSignal>(shared: &Mutex<RefCell<SharedCell>>, work: F) -> (r: Result<InputState, Fault>)
    requires
        forall|signal: InputSignal| work.requires((signal,)),
    ensures
        r matches Ok(state) ==> worked(work, state),
{
    critical_section::with(|cs| match shared.borrow(cs).try_borrow_mut() {
        Ok(mut cell) => cell.with_exclusive(work),
        Err(_) => Err(Fault::AlreadyBorrowed),
    })
}

/// Calls `critical_section::Mutex::new` on `RefCell::new` of the cell.
#[verifier::external_body]
fn wrap_cell(cell: SharedCell) -> (r: Mutex<RefCell<SharedCell>>)
{
    Mutex::new(RefCell::new(cell))
}

/// An empty cell, ready to be shared between the two contexts.
pub fn new_shared() -> (r: Mutex<RefCell<SharedCell>>)
{
    wrap_cell(SharedCell::new())
}

/// Arms `signal` on `event` and moves it into the shared cell, both inside
/// one critical section: the handler never meets a pin that is armed and not
/// yet in the cell. The answer is the state of the pin as it was left in the
/// cell: `signal`, armed on `event`. Fails only where the cell is open
/// elsewhere at the time of the call, and then nothing is moved.
pub fn install(shared: &Mutex<RefCell<SharedCell>>, signal: InputSignal, event: Event) -> (r: Result<InputState, Fault>)
    ensures
        r matches Ok(state) ==> state == signal@.armed_on(event),
        r matches Err(fault) ==> fault == Fault::AlreadyBorrowed,
{
    install_exclusive(shared, signal, event)
}

/// Runs `work` on the pin in the shared cell, inside a critical section:
/// for that time nothing else on this core runs, so `work` should be short
/// and must not block.
///
/// The answer is `Ok` where `work` ran, with the state of the pin that
/// `work` gave back and the cell now holds; a fault where the cell was empty
/// or open elsewhere, and then `work` did not run.
pub fn with_exclusive<F: FnOnce(InputSignal) -> InputSignal>(
    shared: &Mutex<RefCell<SharedCell>>,
    work: F,
) -> (r: Result<InputState, Fault>)
    requires
        forall|signal: InputSignal| work.requires((signal,)),
    ensures
        r matches Ok(state) ==> worked(work, state),
{
    with_cell(shared, work)
}

/// Whether `state` is the state of a pin that `work` gave back for some pin
/// it was handed.
pub open spec fn worked<F: FnOnce(InputSignal) -> InputSignal>(work: F, state: InputState) -> bool {
    exists|before: InputSignal, after: InputSignal| #[trigger]
        work.ensures((before,), after) && after@ == state
}

/// The work of the interrupt handler: inside a critical section, clear the
/// interrupt flag of the pin in the shared cell. Returns what the cell
/// answered and what the handler must do on that answer; it must abort on
/// every fault.
pub fn handle_interrupt(shared: &Mutex<RefCell<SharedCell>>) -> (r: (Result<(), Fault>, HandlerAction))
    ensures
        r.1 == handler_verdict(r.0),
        r.1 == HandlerAction::Resume <==> r.0 is Ok,
{
    let outcome = match with_cell(shared, InputSignal::acknowledged) {
        Ok(_) => Ok(()),
        Err(fault) => Err(fault),
    };
    (outcome, handler_action(outcome))
}

} // verus!
