//! A single slot that holds a state until somebody is free to act on it.

use std::cell::Cell;
use std::sync::atomic::AtomicBool;
use std::sync::atomic::Ordering;
use vstd::prelude::*;

verus! {

/// Whether `try_defer` stores its state: whenever no other operation held the flag.
pub open spec fn stores(held: bool) -> bool {
    !held
}

/// How `try_execute` ends. With the flag held elsewhere it gives up; otherwise it reports
/// whether a state was pending, which is also whether the closure was called.
pub open spec fn try_execute_rule(held: bool, pending: bool) -> Result<bool, ()> {
    if held {
        Err(())
    } else {
        Ok(pending)
    }
}

/// What `try_defer` puts into the slot: its state, if no other operation held the flag, and
/// nothing at all if one did. The outcome also tells what `try_defer` returns, which is
/// whether there is something to put.
pub fn state_to_store<S>(held: bool, state: S) -> (input: Option<S>)
    ensures
        input.is_some() == stores(held),
        stores(held) ==> input == Some(state),
{
    if held {
        None
    } else {
        Some(state)
    }
}

/// Whether `try_execute` takes what is pending out of the slot: only with the flag in hand.
pub open spec fn takes(held: bool) -> bool {
    !held
}

/// Decides, for a call of `try_execute` that found the flag at `held`, whether it empties
/// the slot.
pub fn takes_state(held: bool) -> (take: bool)
    ensures
        take == takes(held),
{
    !held
}

/// Whether `try_execute` calls its closure: with the flag in hand and a state pending.
pub open spec fn hands_over(held: bool, pending: bool) -> bool {
    !held && pending
}

/// Hands the state that was taken out of the slot over to `f`, by move, and settles what
/// `try_execute` returns.
///
/// `f` is called exactly when `hands_over` says so. In every other case it is dropped
/// without being called, which is why a caller owes its precondition in that case alone.
pub fn hand_over<S, F: FnOnce(S)>(held: bool, taken: Option<S>, f: F) -> (outcome: Result<bool, ()>)
    requires
        hands_over(held, taken.is_some()) ==> f.requires((taken.unwrap(),)),
    ensures
        outcome == try_execute_rule(held, taken.is_some()),
        hands_over(held, taken.is_some()) ==> f.ensures((taken.unwrap(),), ()),
{
    if held {
        Err(())
    } else {
        match taken {
            Some(state) => {
                f(state);
                Ok(true)
            },
            None => Ok(false),
        }
    }
}

/// `std::cell::Cell`, the cell of the standard library whose value is moved in and out
/// through a shared reference. It is carried as it is: nothing of what it holds is visible
/// to a contract.
#[verifier::external_type_specification]
#[verifier::external_body]
#[verifier::reject_recursive_types(T)]
pub struct ExCell<T: ?Sized>(Cell<T>);

/// `Cell::new` makes a cell that holds `value`. Nothing is claimed of it.
pub assume_specification<T>[ Cell::<T>::new ](value: T) -> (cell: Cell<T>);

/// `Cell::replace` puts `val` into the cell and returns what the cell held before. What it
/// held depends on what happened to the cell before, so nothing is claimed of the result.
pub assume_specification<T>[ Cell::<T>::replace ](cell: &Cell<T>, val: T) -> (previous: T);

/// A simple utility designed to make it easier to deal with double-`&mut` errors: a method
/// that already borrows its owner mutably stores a state with `try_defer`, and a later call
/// of `try_execute` acts on it.
///
/// The flag turns away an operation that starts while another one on the same slot is under
/// way, as a call from inside the closure of `try_execute` is.
#[verifier::reject_recursive_types(S)]
pub struct Defer<S> {
    state: Cell<Option<S>>,
    locked: AtomicBool,
}

impl<S> Defer<S> {
    /// Constructs a new, empty `Defer`.
    pub fn new() -> Self {
        Defer { state: Cell::new(None), locked: AtomicBool::new(false) }
    }

    /// Returns true if a deferred state is stored.
    pub fn is_deferred(&self) -> bool {
        let current = self.state.replace(None);
        let pending = current.is_some();
        let _ = self.state.replace(current);
        pending
    }

    /// Stores the provided deferred state, replacing any state that was pending, unless
    /// another operation holds the flag. Returns `true` if the state was stored, `false`
    /// otherwise; the slot is then left as it was.
    pub fn try_defer(&self, state: S) -> bool {
        let held = self.locked.fetch_or(true, Ordering::SeqCst);
        match state_to_store(held, state) {
            Some(state) => {
                let _ = self.state.replace(Some(state));
                self.locked.store(false, Ordering::SeqCst);
                true
            },
            None => false,
        }
    }

    /// Runs the given closure with a deferred state if and only if one is currently stored,
    /// and empties the slot. Returns `Err(())` if the flag was held: the closure was then
    /// not run and the slot not touched. Otherwise returns `Ok(true)` if the closure was run
    /// and `Ok(false)` if not.
    ///
    /// Whether the flag was held and whether a state was pending is known only once the call
    /// has asked, so no clause says which of the three results comes. What is said is what
    /// `Ok(true)` stands for: the closure was called with a state and has returned.
    pub fn try_execute<F: FnOnce(S)>(&self, f: F) -> (outcome: Result<bool, ()>)
        requires
            forall|state: S| f.requires((state,)),
        ensures
            outcome == Ok::<bool, ()>(true) ==> exists|state: S| f.ensures((state,), ()),
    {
        let held = self.locked.fetch_or(true, Ordering::SeqCst);
        let taken = if takes_state(held) {
            self.state.replace(None)
        } else {
            None
        };
        let outcome = hand_over(held, taken, f);
        if !held {
            self.locked.store(false, Ordering::SeqCst);
        }
        proof {
            if outcome == Ok::<bool, ()>(true) {
                assert(f.ensures((taken.unwrap(),), ()));
            }
        }
        outcome
    }
}

/// What a `Defer` holds at one moment, as the rules of this module see it: the pending
/// state, if there is one, and whether some operation holds the flag.
pub struct SlotState<S> {
    pub pending: Option<S>,
    pub held: bool,
}

impl<S> SlotState<S> {
    /// A slot as `new` makes it.
    pub open spec fn empty() -> Self {
        SlotState { pending: None, held: false }
    }

    /// What `is_deferred` returns in this state.
    pub open spec fn is_deferred(self) -> bool {
        self.pending.is_some()
    }

    /// What `try_defer` returns in this state.
    pub open spec fn try_defer_result(self) -> bool {
        stores(self.held)
    }

    /// The state that `try_defer(state)` leaves: the last state stored is the one pending.
    pub open spec fn after_try_defer(self, state: S) -> Self {
        if stores(self.held) {
            SlotState { pending: Some(state), held: self.held }
        } else {
            self
        }
    }

    /// The state that `try_execute` hands to its closure, if it hands one over.
    pub open spec fn handed_over(self) -> Option<S> {
        if hands_over(self.held, self.pending.is_some()) {
            self.pending
        } else {
            None
        }
    }

    /// What `try_execute` returns in this state.
    pub open spec fn try_execute_result(self) -> Result<bool, ()> {
        try_execute_rule(self.held, self.pending.is_some())
    }

    /// The state that `try_execute` leaves.
    pub open spec fn after_try_execute(self) -> Self {
        if takes(self.held) {
            SlotState { pending: None, held: self.held }
        } else {
            self
        }
    }
}

/// A new slot has nothing pending. Once a state is stored it is pending; `try_execute` then
/// hands exactly that state to its closure, reports `Ok(true)` and leaves nothing pending.
pub proof fn deferred_state_is_handed_over_once<S>(state: S)
    ensures
        !SlotState::<S>::empty().is_deferred(),
        SlotState::<S>::empty().try_defer_result(),
        SlotState::<S>::empty().after_try_defer(state).is_deferred(),
        SlotState::<S>::empty().after_try_defer(state).handed_over() == Some(state),
        SlotState::<S>::empty().after_try_defer(state).try_execute_result() == Ok::<bool, ()>(
            true,
        ),
        !SlotState::<S>::empty().after_try_defer(state).after_try_execute().is_deferred(),
        SlotState::<S>::empty().after_try_defer(state).after_try_execute().handed_over().is_none(),
{
}

/// On a slot with nothing pending `try_execute` reports `Ok(false)`, hands nothing to its
/// closure and leaves the slot as it was.
pub proof fn nothing_pending_runs_nothing<S>(slot: SlotState<S>)
    requires
        !slot.held,
        !slot.is_deferred(),
    ensures
        slot.try_execute_result() == Ok::<bool, ()>(false),
        slot.handed_over().is_none(),
        slot.after_try_execute() == slot,
{
}

/// A state that is stored replaces the one that was pending: the last one stored is the one
/// handed over.
pub proof fn last_deferred_state_wins<S>(slot: SlotState<S>, first: S, second: S)
    requires
        !slot.held,
    ensures
        slot.after_try_defer(first).after_try_defer(second).handed_over() == Some(second),
        slot.after_try_defer(first).after_try_defer(second) == slot.after_try_defer(second),
{
}

/// While another operation holds the flag, `try_defer` stores nothing and returns `false`,
/// `try_execute` returns `Err(())` and hands nothing to its closure, and the slot stays as
/// it was.
pub proof fn held_flag_turns_away<S>(slot: SlotState<S>, state: S)
    requires
        slot.held,
    ensures
        !slot.try_defer_result(),
        slot.after_try_defer(state) == slot,
        slot.try_execute_result() == Err::<bool, ()>(()),
        slot.handed_over().is_none(),
        slot.after_try_execute() == slot,
{
}

} // verus!
