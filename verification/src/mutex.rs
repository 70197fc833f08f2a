//! The exclusion primitive that guards the state of a channel.
//!
//! A channel does not care how exclusive access is obtained. It asks for it
//! through the [`Exclusion`] trait, which has one operation: perform this
//! step on the guarded state, with nothing else in between. Two primitives
//! are provided. [`CriticalSectionMutex`] enters a critical section for each
//! step and can be shared with interrupt handlers on a single core.
//! [`ThreadModeMutex`] takes no lock at all and is confined to one context.
//!
//! While a step has the state in hand it wakes no task and drops neither a
//! waker nor a message; of a waker it makes at most a copy. The wakers come
//! back from the step and are woken or dropped once the state has been given
//! back. A waker may therefore use the channel it belongs to.

use crate::model::ChannelModel;
use crate::operation::{Operation, Outcome};
use crate::state::ChannelState;
use core::cell::{RefCell, RefMut};
use critical_section::CriticalSection;
use crate::slot::Wakeups;
use vstd::pervasive::unreached;
use vstd::prelude::*;

verus! {

/// `core::cell::RefCell`, a cell that checks at run time that its content is
/// borrowed mutably by one party at a time.
#[verifier::external_type_specification]
#[verifier::external_body]
#[verifier::reject_recursive_types(T)]
pub struct ExRefCell<T: ?Sized>(core::cell::RefCell<T>);

/// `core::cell::RefMut`, the proof that a `RefCell` is borrowed for writing.
#[verifier::external_type_specification]
#[verifier::external_body]
#[verifier::reject_recursive_types(T)]
pub struct ExRefMut<'b, T: ?Sized + 'b>(core::cell::RefMut<'b, T>);

/// `critical_section::CriticalSection`, the proof of being inside a critical
/// section.
#[verifier::external_type_specification]
#[verifier::external_body]
pub struct ExCriticalSection<'cs>(critical_section::CriticalSection<'cs>);

/// `critical_section::Mutex`, which lends its content to whoever is inside a
/// critical section.
#[verifier::external_type_specification]
#[verifier::external_body]
#[verifier::reject_recursive_types(T)]
pub struct ExCriticalSectionMutex<T>(critical_section::Mutex<T>);

/// Exclusive access to the state of one channel.
///
/// An implementation keeps the state it was created with and lets it change
/// through [`ChannelState::apply`] only, one operation at a time.
///
/// Until [`share`](Self::share) is called, the mutex holds the state for its
/// owner alone, and what the state stands for is known. From then on the
/// handles of the channel change it through [`lock`](Self::lock), where no
/// contract can follow it.
pub trait Exclusion<T, const N: usize>: Sized {
    /// What the state stands for, while the mutex holds it for its owner
    /// alone.
    spec fn sole(&self) -> Option<ChannelModel<T>>;

    /// Whether the state has been opened to handles.
    spec fn shared(&self) -> bool;

    /// Puts `state` under guard.
    fn new(state: ChannelState<T, N>) -> (mutex: Self)
        requires
            state.wf(),
        ensures
            mutex.sole() == Some(state@),
            !mutex.shared(),
    ;

    /// Performs `operation` on the guarded state as one indivisible step,
    /// delivers the wake-ups that are due, and returns the answer. Which
    /// answer that is depends on the state at that moment, so all that is
    /// known is that a well-formed channel of capacity `N` gives it.
    fn lock(&self, operation: Operation<T>) -> (outcome: Outcome<T>)
        requires
            self.shared(),
        ensures
            ChannelModel::answers(N as nat, operation, outcome),
    ;

    /// Performs `operation` for the owner of the mutex, delivers the
    /// wake-ups that are due, and opens the state to handles. If the state
    /// was not open before, the answer is the one that this state gives.
    fn share(&mut self, operation: Operation<T>) -> (outcome: Outcome<T>)
        requires
            old(self).shared() || old(self).sole() is Some,
        ensures
            final(self).shared(),
            final(self).sole() is None,
            ChannelModel::answers(N as nat, operation, outcome),
            old(self).sole() matches Some(model) ==> outcome == model.apply(operation).1,
    ;
}

/// `RefCell::new` puts a state into a cell. Only well-formed states are
/// accepted, so that a state which is later borrowed from a cell is well
/// formed too.
#[verifier::external_body]
fn cell_of<T, const N: usize>(state: ChannelState<T, N>) -> (cell: RefCell<ChannelState<T, N>>)
    requires
        state.wf(),
{
    RefCell::new(state)
}

/// `critical_section::Mutex::new` puts a cell into a mutex.
#[verifier::external_body]
fn mutex_of<T, const N: usize>(
    cell: RefCell<ChannelState<T, N>>,
) -> (mutex: critical_section::Mutex<RefCell<ChannelState<T, N>>>) {
    critical_section::Mutex::new(cell)
}

/// `critical_section::with` enters a critical section, runs `step` once
/// inside it and returns what `step` returns.
#[verifier::external_body]
fn in_critical_section<R, F: FnOnce(CriticalSection) -> R>(step: F) -> (result: R)
    requires
        forall|cs: CriticalSection| step.requires((cs,)),
    ensures
        exists|cs: CriticalSection| step.ensures((cs,), result),
{
    critical_section::with(step)
}

/// `critical_section::Mutex::borrow_ref_mut` lends the content of the cell
/// inside the mutex for writing, for as long as the critical section lasts.
/// It fails only if the cell is lent already. It never is: the one place that
/// borrows it, [`CriticalSectionMutex::lock`], gives it back before it
/// returns, and meanwhile runs [`ChannelState::apply`] alone, which wakes no
/// task and drops no waker and no message, so that nothing can come back to
/// the channel in between.
#[verifier::external_body]
fn borrow_in_critical_section<'cs, T, const N: usize>(
    guarded: &'cs critical_section::Mutex<RefCell<ChannelState<T, N>>>,
    cs: CriticalSection<'cs>,
) -> (borrowed: RefMut<'cs, ChannelState<T, N>>) {
    guarded.borrow_ref_mut(cs)
}

/// `RefCell::borrow_mut` lends the content of the cell for writing. It fails
/// only if the cell is lent already. It never is: the one place that borrows
/// it, [`step_in_thread_mode`], gives it back before it returns, and
/// meanwhile runs [`ChannelState::apply`] alone, which wakes no task and
/// drops no waker and no message, so that nothing can come back to the
/// channel in between.
#[verifier::external_body]
fn borrow_in_thread_mode<'a, T, const N: usize>(
    guarded: &'a RefCell<ChannelState<T, N>>,
) -> (borrowed: RefMut<'a, ChannelState<T, N>>) {
    guarded.borrow_mut()
}

/// `RefMut::deref_mut` gives access to the borrowed state. A state is well
/// formed when [`cell_of`] takes it in, and the two steps below, which alone
/// call this function, leave it well formed. Hence the state that comes out
/// is well formed.
#[verifier::external_body]
fn guarded_state<'a, 'b, T, const N: usize>(
    borrowed: &'a mut RefMut<'b, ChannelState<T, N>>,
) -> (state: &'a mut ChannelState<T, N>)
    ensures
        state.wf(),
{
    core::ops::DerefMut::deref_mut(borrowed)
}

/// Performs one operation on the state in `cell` and gives the cell back.
/// The wake-ups that are due are left to the caller.
fn step_in_thread_mode<T, const N: usize>(
    cell: &RefCell<ChannelState<T, N>>,
    operation: Operation<T>,
) -> (applied: (Outcome<T>, Wakeups))
    ensures
        ChannelModel::answers(N as nat, operation, applied.0),
{
    let mut borrowed = borrow_in_thread_mode(cell);
    let state = guarded_state(&mut borrowed);
    proof {
        state.lemma_view_wf();
    }
    state.apply(operation)
}

/// What a [`CriticalSectionMutex`] holds: the state itself for its owner,
/// or the state in its cell for the handles.
#[verifier::reject_recursive_types(T)]
#[verifier::reject_recursive_types(N)]
enum CriticalSectionGuard<T, const N: usize> {
    Sole(ChannelState<T, N>),
    Shared(critical_section::Mutex<RefCell<ChannelState<T, N>>>),
}

/// Guards a channel state with critical sections.
///
/// Use it on single-core targets where the channel is shared with interrupt
/// handlers. A critical section does not exclude another core.
#[verifier::reject_recursive_types(T)]
#[verifier::reject_recursive_types(N)]
pub struct CriticalSectionMutex<T, const N: usize> {
    guarded: Option<CriticalSectionGuard<T, N>>,
}

impl<T, const N: usize> Exclusion<T, N> for CriticalSectionMutex<T, N> {
    closed spec fn sole(&self) -> Option<ChannelModel<T>> {
        match self.guarded {
            Some(CriticalSectionGuard::Sole(state)) => if state.wf() {
                Some(state@)
            } else {
                None
            },
            _ => None,
        }
    }

    closed spec fn shared(&self) -> bool {
        self.guarded matches Some(CriticalSectionGuard::Shared(_))
    }

    fn new(state: ChannelState<T, N>) -> (mutex: Self) {
        CriticalSectionMutex { guarded: Some(CriticalSectionGuard::Sole(state)) }
    }

    fn lock(&self, operation: Operation<T>) -> (outcome: Outcome<T>) {
        match &self.guarded {
            Some(CriticalSectionGuard::Shared(guarded)) => {
                let step = |cs: CriticalSection| -> (applied: (Outcome<T>, Wakeups))
                    ensures
                        ChannelModel::answers(N as nat, operation, applied.0),
                    {
                        let mut borrowed = borrow_in_critical_section(guarded, cs);
                        let state = guarded_state(&mut borrowed);
                        proof {
                            state.lemma_view_wf();
                        }
                        state.apply(operation)
                    };
                let (outcome, wakeups) = in_critical_section(step);
                wakeups.deliver();
                outcome
            },
            _ => unreached(),
        }
    }

    fn share(&mut self, operation: Operation<T>) -> (outcome: Outcome<T>) {
        match self.guarded.take() {
            Some(CriticalSectionGuard::Sole(state)) => {
                let mut state = state;
                proof {
                    state.lemma_view_wf();
                }
                let (outcome, wakeups) = state.apply(operation);
                self.guarded = Some(CriticalSectionGuard::Shared(mutex_of(cell_of(state))));
                wakeups.deliver();
                outcome
            },
            Some(CriticalSectionGuard::Shared(guarded)) => {
                self.guarded = Some(CriticalSectionGuard::Shared(guarded));
                self.lock(operation)
            },
            None => unreached(),
        }
    }
}

/// What a [`ThreadModeMutex`] holds: the state itself for its owner, or the
/// state in its cell for the handles.
#[verifier::reject_recursive_types(T)]
#[verifier::reject_recursive_types(N)]
enum ThreadModeGuard<T, const N: usize> {
    Sole(ChannelState<T, N>),
    Shared(RefCell<ChannelState<T, N>>),
}

/// Guards a channel state without any lock.
///
/// Use it where every handle of the channel lives in the same context, such
/// as the tasks of one executor that is never preempted by another user of
/// the channel. It cannot be shared across threads.
#[verifier::reject_recursive_types(T)]
#[verifier::reject_recursive_types(N)]
pub struct ThreadModeMutex<T, const N: usize> {
    guarded: Option<ThreadModeGuard<T, N>>,
}

impl<T, const N: usize> Exclusion<T, N> for ThreadModeMutex<T, N> {
    closed spec fn sole(&self) -> Option<ChannelModel<T>> {
        match self.guarded {
            Some(ThreadModeGuard::Sole(state)) => if state.wf() {
                Some(state@)
            } else {
                None
            },
            _ => None,
        }
    }

    closed spec fn shared(&self) -> bool {
        self.guarded matches Some(ThreadModeGuard::Shared(_))
    }

    fn new(state: ChannelState<T, N>) -> (mutex: Self) {
        ThreadModeMutex { guarded: Some(ThreadModeGuard::Sole(state)) }
    }

    fn lock(&self, operation: Operation<T>) -> (outcome: Outcome<T>) {
        match &self.guarded {
            Some(ThreadModeGuard::Shared(guarded)) => {
                let (outcome, wakeups) = step_in_thread_mode(guarded, operation);
                wakeups.deliver();
                outcome
            },
            _ => unreached(),
        }
    }

    fn share(&mut self, operation: Operation<T>) -> (outcome: Outcome<T>) {
        match self.guarded.take() {
            Some(ThreadModeGuard::Sole(state)) => {
                let mut state = state;
                proof {
                    state.lemma_view_wf();
                }
                let (outcome, wakeups) = state.apply(operation);
                self.guarded = Some(ThreadModeGuard::Shared(cell_of(state)));
                wakeups.deliver();
                outcome
            },
            Some(ThreadModeGuard::Shared(guarded)) => {
                self.guarded = Some(ThreadModeGuard::Shared(guarded));
                self.lock(operation)
            },
            None => unreached(),
        }
    }
}

} // verus!
