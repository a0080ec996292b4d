//! Primitives for doing something exactly once.
//!
//! `DoOnce` keeps its marker in a plain `bool` and is meant for one thread. `DoOnceSync` and
//! `InitOnce` keep theirs in an atomic flag and work through a shared reference. What such a
//! flag holds at a given moment is not something a contract can speak of, so each operation
//! is split in two: the exchange on the flag, whose result may be anything, and the rule that
//! says what follows from each result. The rules are the spec functions of this module; the
//! functions that apply them carry exact contracts.

use std::sync::atomic::AtomicBool;
use std::sync::atomic::Ordering;
use std::sync::OnceLock;
use vstd::prelude::*;

verus! {

/// Whether the call that found the marker at `marker` is the one that runs the action.
pub open spec fn lets_through(marker: bool) -> bool {
    !marker
}

/// Runs `func` for the call that found the marker unset, and reports whether it did.
///
/// A caller owes `func` its precondition only for the call that is let through: for every
/// other call `func` is dropped without being called.
pub fn run_if_first<F: FnOnce()>(marker: bool, func: F) -> (ran: bool)
    requires
        lets_through(marker) ==> func.requires(()),
    ensures
        ran == lets_through(marker),
        ran ==> func.ensures((), ()),
{
    if !marker {
        func();
        true
    } else {
        false
    }
}

/// How many actions `calls` successive calls run, the first of which finds the marker at
/// `marker`. Every call leaves the marker set.
pub open spec fn actions_run(marker: bool, calls: nat) -> nat
    decreases calls,
{
    if calls == 0 {
        0
    } else if lets_through(marker) {
        1 + actions_run(true, (calls - 1) as nat)
    } else {
        actions_run(true, (calls - 1) as nat)
    }
}

/// Once the marker is set, no number of calls runs an action.
pub proof fn set_marker_runs_nothing(calls: nat)
    ensures
        actions_run(true, calls) == 0,
    decreases calls,
{
    if calls > 0 {
        set_marker_runs_nothing((calls - 1) as nat);
    }
}

/// Any number of calls on a marker runs the action at most once, and one or more calls on a
/// fresh marker run it exactly once: the first call does, and no later one.
pub proof fn runs_exactly_once(marker: bool, calls: nat)
    ensures
        actions_run(marker, calls) <= 1,
        !marker && calls >= 1 ==> actions_run(marker, calls) == 1,
        !marker && calls >= 1 ==> lets_through(marker) && actions_run(true, (calls - 1) as nat) == 0,
{
    if calls > 0 {
        set_marker_runs_nothing((calls - 1) as nat);
    }
}

/// A simple primitive for ensuring something is done exactly once. Not thread-safe.
pub struct DoOnce(bool);

impl DoOnce {
    /// The marker: whether an action has been run through this value.
    pub closed spec fn marker(&self) -> bool {
        self.0
    }

    pub fn new() -> (task: Self)
        ensures
            !task.marker(),
    {
        DoOnce(false)
    }

    /// The passed closure is called only by the first call; after that this is a no-op.
    pub fn do_once<F: FnOnce()>(&mut self, func: F)
        requires
            lets_through(old(self).marker()) ==> func.requires(()),
        ensures
            final(self).marker(),
            lets_through(old(self).marker()) ==> func.ensures((), ()),
    {
        let _ = run_if_first(self.0, func);
        self.0 = true;
    }

    /// Returns true if the task has been run once already.
    pub fn done(&self) -> (done: bool)
        ensures
            done == self.marker(),
    {
        self.0
    }
}

/// A simple primitive for ensuring something is done exactly once. `DoOnceSync` is
/// thread-safe and works through a shared reference.
pub struct DoOnceSync(AtomicBool);

impl DoOnceSync {
    pub fn new() -> Self {
        DoOnceSync(AtomicBool::new(false))
    }

    /// The passed closure is called only by the call that turns the marker; every other call
    /// is a no-op.
    ///
    /// The marker is set and its earlier value read in one exchange, and `run_if_first`
    /// decides on that value: of any number of calls, racing or not, only the one that read
    /// `false` calls its closure.
    pub fn do_once<F: FnOnce()>(&self, func: F)
        requires
            func.requires(()),
    {
        let marker = self.0.swap(true, Ordering::SeqCst);
        let _ = run_if_first(marker, func);
    }

    /// Returns true if the task has been run once already.
    pub fn done(&self) -> bool {
        self.0.load(Ordering::SeqCst)
    }
}

/// Why an `InitOnce` refused a value or a reference.
#[derive(Clone, Copy, Debug, PartialEq, Eq, Structural)]
pub enum InitError {
    /// `initialize` found the flag held by another operation on the same cell.
    Contended,
    /// The cell already held a value.
    AlreadyInitialized,
    /// `get_or_init` found the flag held by another operation on the same cell.
    Simultaneous,
}

impl InitError {
    /// The text that describes the error.
    pub open spec fn text(self) -> Seq<char> {
        match self {
            InitError::Contended => "Tried to initialize InitOnce twice concurrently"@,
            InitError::AlreadyInitialized => "Tried to initialize InitOnce a second time"@,
            InitError::Simultaneous => "Tried to initialize InitOnce twice at the same time"@,
        }
    }

    pub fn message(&self) -> (message: String)
        ensures
            message@ == self.text(),
    {
        match self {
            InitError::Contended => "Tried to initialize InitOnce twice concurrently".to_owned(),
            InitError::AlreadyInitialized => "Tried to initialize InitOnce a second time".to_owned(),
            InitError::Simultaneous => "Tried to initialize InitOnce twice at the same time".to_owned(),
        }
    }
}

/// What `try_get` hands out: the stored value, unless another operation held the flag.
pub open spec fn try_get_rule<T>(held: bool, stored: Option<T>) -> Option<T> {
    if held {
        None
    } else {
        stored
    }
}

/// How `initialize` ends: it gives way to whoever held the flag, and never replaces a value.
pub open spec fn initialize_rule(held: bool, occupied: bool) -> Result<(), InitError> {
    if held {
        Err(InitError::Contended)
    } else if occupied {
        Err(InitError::AlreadyInitialized)
    } else {
        Ok(())
    }
}

/// Whether `get_or_init` calls its initializer: only with the flag in hand and the cell empty.
pub open spec fn calls_initializer(held: bool, occupied: bool) -> bool {
    !held && !occupied
}

/// What `get_or_init` returns. With the flag held elsewhere it gives up. Otherwise it returns
/// the value that it `found` in the cell, and on an empty cell the value that is `stored`
/// there once the initializer's value has been put in.
pub open spec fn get_or_init_rule<T>(held: bool, found: Option<T>, stored: Option<T>) -> Result<
    T,
    InitError,
> {
    if held {
        Err(InitError::Simultaneous)
    } else if found.is_some() {
        Ok(found.unwrap())
    } else {
        Ok(stored.unwrap())
    }
}

/// Whether `initialize` hands its value to the cell: only with the flag in hand.
pub open spec fn sets(held: bool) -> bool {
    !held
}

/// Applies `try_get_rule` to what a call of `try_get` found.
pub fn shown<'a, T>(held: bool, found: Option<&'a T>) -> (seen: Option<&'a T>)
    ensures
        seen == try_get_rule(held, found),
{
    if held {
        None
    } else {
        found
    }
}

/// Applies `initialize_rule` to what a call of `initialize` found.
pub fn initialize_outcome(held: bool, occupied: bool) -> (outcome: Result<(), InitError>)
    ensures
        outcome == initialize_rule(held, occupied),
{
    if held {
        Err(InitError::Contended)
    } else if occupied {
        Err(InitError::AlreadyInitialized)
    } else {
        Ok(())
    }
}

/// What `initialize` hands to the cell: its value, if no other operation held the flag, and
/// nothing at all if one did.
pub fn value_to_set<T>(held: bool, value: T) -> (input: Option<T>)
    ensures
        input.is_some() == sets(held),
        sets(held) ==> input == Some(value),
{
    if held {
        None
    } else {
        Some(value)
    }
}

/// Applies `get_or_init_rule` to what a call of `get_or_init` found: whether the flag was
/// held, the value found in the cell, and the value in the cell after the initializer's
/// value was put in, which is asked for on an empty cell only.
pub fn get_or_init_outcome<'a, T>(held: bool, found: Option<&'a T>, stored: Option<&'a T>) -> (res:
    Result<&'a T, InitError>)
    requires
        !held && found.is_none() ==> stored.is_some(),
    ensures
        res == get_or_init_rule(held, found, stored),
{
    if held {
        Err(InitError::Simultaneous)
    } else {
        match found {
            Some(value) => Ok(value),
            None => Ok(stored.unwrap()),
        }
    }
}

/// Produces the value that `get_or_init` is to store, if it is to store one.
///
/// The initializer is called exactly when `calls_initializer` says so, and what it returned
/// is handed on unchanged.
pub fn fresh_value<T, F: FnOnce() -> T>(held: bool, occupied: bool, func: F) -> (fresh: Option<T>)
    requires
        calls_initializer(held, occupied) ==> func.requires(()),
    ensures
        fresh.is_some() == calls_initializer(held, occupied),
        fresh matches Some(value) ==> func.ensures((), value),
{
    if !held && !occupied {
        Some(func())
    } else {
        None
    }
}

/// `std::sync::OnceLock`, the cell of the standard library that can be written once. It is
/// carried as it is: nothing of what it holds is visible to a contract.
#[verifier::external_type_specification]
#[verifier::external_body]
#[verifier::reject_recursive_types(T)]
pub struct ExOnceLock<T>(OnceLock<T>);

/// `OnceLock::new` makes an empty cell. Nothing is claimed of it.
pub assume_specification<T>[ OnceLock::<T>::new ]() -> (cell: OnceLock<T>);

/// `OnceLock::get` returns the value that the cell holds, or `None` while it holds none.
/// It never blocks. Which of the two comes back depends on what happened to the cell
/// before, so nothing is claimed of it.
pub assume_specification<T>[ OnceLock::<T>::get ](cell: &OnceLock<T>) -> (found: Option<&T>);

/// `OnceLock::set` stores `value` if the cell was empty and returns `Ok(())`; if the cell
/// held a value it keeps that value and gives `value` back in `Err`. Only the second part
/// is claimed: which of the two happens depends on what happened to the cell before.
pub assume_specification<T>[ OnceLock::<T>::set ](cell: &OnceLock<T>, value: T) -> (stored: Result<
    (),
    T,
>)
    ensures
        stored matches Err(back) ==> back == value,
;

/// `OnceLock::get_or_init`, called with an initializer that does nothing but hand over
/// `fresh`: it returns the value that the cell holds, and where the cell holds none it first
/// stores `fresh`. Which value comes back depends on what happened to the cell before, so
/// nothing is claimed of it. No code of a caller runs inside the call.
#[verifier::external_body]
fn store_if_empty<T>(cell: &OnceLock<T>, fresh: T) -> (value: &T) {
    cell.get_or_init(move || fresh)
}

/// A simple once-initialized immutable-ish reference, for a value that is made once and read
/// from many places.
///
/// `uninitialized` is no `const fn`, so a `static` cannot be set up with it directly: a cell
/// that is to live for the whole process is shared by reference, or kept in a `static` of a
/// type that is made on first use.
///
/// No `is_initialized` function is provided: use `get_or_init` to initialize the value if it
/// is missing, or `try_get` or `peek` to look without initializing.
#[verifier::reject_recursive_types(T)]
pub struct InitOnce<T> {
    inner: OnceLock<T>,
    lock: AtomicBool,
}

impl<T> InitOnce<T> {
    /// Creates a new empty InitOnce.
    pub fn uninitialized() -> Self {
        InitOnce { inner: OnceLock::new(), lock: AtomicBool::new(false) }
    }

    /// Attempt to get a reference to the value contained within.
    /// Returns `None` if uninitialized or if another operation holds the flag. Never blocks.
    pub fn try_get(&self) -> Option<&T> {
        let held = self.lock.swap(true, Ordering::SeqCst);
        let found = self.inner.get();
        if !held {
            self.lock.store(false, Ordering::SeqCst);
        }
        shown(held, found)
    }

    /// Looks at the value contained within without asking for the flag: `None` as long as
    /// nothing has been stored. A stored value never changes, so the reference stays good
    /// for as long as the cell lives.
    pub fn peek(&self) -> Option<&T> {
        self.inner.get()
    }

    /// Retrieves a reference to the value contained within, calling the given closure to
    /// provide the initial value if uninitialized. The closure is not called if the value
    /// has already been initialized, nor if another operation holds the flag; in the latter
    /// case the result is `Err(InitError::Simultaneous)`, since the value can neither be
    /// initialized nor safely read. The flag is held while the closure runs, so a call from
    /// inside the closure on the same cell is turned away in the same way.
    ///
    /// `fresh_value` decides whether the closure is called and `get_or_init_outcome` what is
    /// returned, each for every answer that the flag and the cell can give.
    pub fn get_or_init<F>(&self, func: F) -> (res: Result<&T, InitError>) where F: FnOnce() -> T
        requires
            func.requires(()),
        ensures
            res matches Err(error) ==> error == InitError::Simultaneous,
    {
        let held = self.lock.swap(true, Ordering::SeqCst);
        let found = self.inner.get();
        let stored = match fresh_value(held, found.is_some(), func) {
            Some(fresh) => Some(store_if_empty(&self.inner, fresh)),
            None => None,
        };
        if !held {
            self.lock.store(false, Ordering::SeqCst);
        }
        get_or_init_outcome(held, found, stored)
    }

    /// Inserts a value into this InitOnce if it's not already initialized.
    /// If already initialized, or if another operation holds the flag, the new value is
    /// dropped, the cell stays as it was and the result says which of the two it was.
    ///
    /// Whether the flag was held and whether the cell was full is known only once the call
    /// has asked, so no clause says which result comes. What is said is that the result is
    /// what `initialize_rule` gives for some answer of the two, and so never the error of
    /// `get_or_init`.
    pub fn initialize(&self, value: T) -> (res: Result<(), InitError>)
        ensures
            exists|held: bool, occupied: bool| res == #[trigger] initialize_rule(held, occupied),
            res matches Err(error) ==> error != InitError::Simultaneous,
    {
        let held = self.lock.swap(true, Ordering::SeqCst);
        let occupied = match value_to_set(held, value) {
            Some(value) => {
                let refused = self.inner.set(value).is_err();
                self.lock.store(false, Ordering::SeqCst);
                refused
            },
            None => false,
        };
        initialize_outcome(held, occupied)
    }
}

/// What an `InitOnce` holds at one moment, as the rules of this module see it: the stored
/// value, if there is one, and whether some operation holds the flag.
pub struct CellState<T> {
    pub stored: Option<T>,
    pub held: bool,
}

impl<T> CellState<T> {
    /// A cell as `uninitialized` makes it.
    pub open spec fn empty() -> Self {
        CellState { stored: None, held: false }
    }

    /// What `try_get` returns in this state.
    pub open spec fn try_get(self) -> Option<T> {
        try_get_rule(self.held, self.stored)
    }

    /// What `peek` returns in this state.
    pub open spec fn peek(self) -> Option<T> {
        self.stored
    }

    /// What `initialize` returns in this state.
    pub open spec fn initialize_result(self) -> Result<(), InitError> {
        initialize_rule(self.held, self.stored.is_some())
    }

    /// The state that `initialize(value)` leaves.
    pub open spec fn after_initialize(self, value: T) -> Self {
        if sets(self.held) && self.stored.is_none() {
            CellState { stored: Some(value), held: self.held }
        } else {
            self
        }
    }

    /// Whether `get_or_init` calls its initializer in this state.
    pub open spec fn initializes(self) -> bool {
        calls_initializer(self.held, self.stored.is_some())
    }

    /// What `get_or_init` returns in this state, `fresh` being what the initializer would
    /// return.
    pub open spec fn get_or_init_result(self, fresh: T) -> Result<T, InitError> {
        get_or_init_rule(self.held, self.stored, self.after_get_or_init(fresh).stored)
    }

    /// The state that `get_or_init` leaves.
    pub open spec fn after_get_or_init(self, fresh: T) -> Self {
        if self.initializes() {
            CellState { stored: Some(fresh), held: self.held }
        } else {
            self
        }
    }
}

/// Single assignment: a value that is stored stays, whatever `initialize` and `get_or_init`
/// are called with afterwards.
pub proof fn stored_value_stays<T>(state: CellState<T>, other: T)
    requires
        state.stored.is_some(),
    ensures
        state.after_initialize(other) == state,
        state.after_get_or_init(other) == state,
        state.initialize_result().is_err(),
        !state.initializes(),
{
}

/// On a fresh cell `initialize(value)` succeeds and `peek` then shows `value`; a second
/// `initialize` fails with `AlreadyInitialized` and leaves the cell as it was.
pub proof fn initialize_then_peek<T>(value: T, second: T)
    ensures
        CellState::<T>::empty().try_get().is_none(),
        CellState::<T>::empty().initialize_result() == Ok::<(), InitError>(()),
        CellState::<T>::empty().after_initialize(value).peek() == Some(value),
        CellState::<T>::empty().after_initialize(value).try_get() == Some(value),
        CellState::<T>::empty().after_initialize(value).initialize_result() == Err::<
            (),
            InitError,
        >(InitError::AlreadyInitialized),
        CellState::<T>::empty().after_initialize(value).after_initialize(second)
            == CellState::<T>::empty().after_initialize(value),
{
}

/// Of two calls of `get_or_init` on a fresh cell only the first calls its initializer, and
/// both return what the first initializer returned.
pub proof fn get_or_init_keeps_first<T>(first: T, second: T)
    ensures
        CellState::<T>::empty().initializes(),
        CellState::<T>::empty().get_or_init_result(first) == Ok::<T, InitError>(first),
        !CellState::<T>::empty().after_get_or_init(first).initializes(),
        CellState::<T>::empty().after_get_or_init(first).get_or_init_result(second) == Ok::<
            T,
            InitError,
        >(first),
        CellState::<T>::empty().after_get_or_init(first).after_get_or_init(second)
            == CellState::<T>::empty().after_get_or_init(first),
{
}

/// While another operation holds the flag, `try_get` shows nothing, `initialize` fails with
/// `Contended` and `get_or_init` with `Simultaneous`, the initializer is not called and the
/// cell stays as it was.
pub proof fn held_flag_turns_away<T>(state: CellState<T>, value: T)
    requires
        state.held,
    ensures
        state.try_get().is_none(),
        state.initialize_result() == Err::<(), InitError>(InitError::Contended),
        state.after_initialize(value) == state,
        !state.initializes(),
        state.get_or_init_result(value) == Err::<T, InitError>(InitError::Simultaneous),
        state.after_get_or_init(value) == state,
{
}

} // verus!
