#![allow(non_snake_case)]

use once_util::once::{fresh_value, get_or_init_outcome, initialize_outcome, run_if_first, shown};
use once_util::once::value_to_set;
use once_util::once::{DoOnce, DoOnceSync, InitError, InitOnce};

fn increment(x: &mut u32) {
    *x += 1;
}

#[test]
fn DoOnce_only_executes_once() {
    let mut task = DoOnce::new();
    let mut x = 1;
    task.do_once(|| increment(&mut x));
    task.do_once(|| increment(&mut x));
    task.do_once(|| increment(&mut x));
    assert_eq!(x, 2);
}

#[test]
fn DoOnceSync_only_executes_once() {
    let task = DoOnceSync::new();
    let mut x = 1;
    task.do_once(|| increment(&mut x));
    task.do_once(|| increment(&mut x));
    task.do_once(|| increment(&mut x));
    assert_eq!(x, 2);
}

#[test]
fn DoOnce_done() {
    let mut task = DoOnce::new();
    assert_eq!(task.done(), false);
    task.do_once(||{});
    assert_eq!(task.done(), true);
}

#[test]
fn InitOnce_uninitialized_try_get_returns_None() {
    let cell: InitOnce<u32> = InitOnce::uninitialized();
    assert!(cell.try_get().is_none());
}

#[test]
fn InitOnce_initialize_then_get_and_try_get() {
    let cell: InitOnce<u32> = InitOnce::uninitialized();
    assert!(cell.try_get().is_none());
    cell.initialize(1).unwrap();
    assert_eq!(cell.try_get(), Some(&1));
    assert_eq!(cell.peek(), Some(&1));
}

#[test]
fn InitOnce_get_or_init_then_get_and_try_get() {
    let cell: InitOnce<u32> = InitOnce::uninitialized();
    assert!(cell.try_get().is_none());
    assert_eq!(cell.get_or_init(|| 1).unwrap(), &1);
    assert_eq!(cell.get_or_init(|| 1).unwrap(), &1);
    assert_eq!(cell.try_get(), Some(&1));
    assert_eq!(cell.peek(), Some(&1));
}

#[test]
fn InitOnce_get_or_init_only_executes_once() {
    let cell: InitOnce<u32> = InitOnce::uninitialized();
    let mut x = 1;
    assert_eq!(cell.get_or_init(|| { x += 1; x }).unwrap(), &2);
    assert_eq!(cell.get_or_init(|| { x += 1; x }).unwrap(), &2);
    assert_eq!(cell.get_or_init(|| { x += 1; x }).unwrap(), &2);
    assert_eq!(cell.try_get(), Some(&2));
    assert_eq!(cell.peek(), Some(&2));
}

#[test]
#[should_panic]
fn InitOnce_reentrant_init_should_panic() {
    let cell: InitOnce<u32> = InitOnce::uninitialized();
    cell.get_or_init(|| { cell.initialize(1).unwrap(); 1 }).unwrap();
}

#[test]
fn init_error_messages() {
    assert_eq!(InitError::Contended.message(), "Tried to initialize InitOnce twice concurrently");
    assert_eq!(InitError::AlreadyInitialized.message(), "Tried to initialize InitOnce a second time");
    assert_eq!(InitError::Simultaneous.message(), "Tried to initialize InitOnce twice at the same time");
}

#[test]
fn do_once_runs_once_whatever_the_number_of_calls() {
    for calls in [1u32, 2, 100] {
        let mut task = DoOnce::new();
        let mut runs = 0u32;
        assert_eq!(task.done(), false);
        for _ in 0..calls {
            task.do_once(|| runs += 1);
            assert_eq!(task.done(), true);
        }
        assert_eq!(runs, 1);

        let shared = DoOnceSync::new();
        let mut runs = 0u32;
        assert_eq!(shared.done(), false);
        for _ in 0..calls {
            shared.do_once(|| runs += 1);
            assert_eq!(shared.done(), true);
        }
        assert_eq!(runs, 1);
    }
}

#[test]
fn run_if_first_goes_by_the_marker() {
    let mut runs = 0u32;
    assert_eq!(run_if_first(false, || runs += 1), true);
    assert_eq!(runs, 1);
    assert_eq!(run_if_first(true, || runs += 1), false);
    assert_eq!(runs, 1);
}

#[test]
fn init_once_scenario() {
    let cell: InitOnce<u32> = InitOnce::uninitialized();
    assert_eq!(cell.try_get(), None);
    assert_eq!(cell.peek(), None);
    assert_eq!(cell.initialize(7), Ok(()));
    assert_eq!(cell.try_get(), Some(&7));
    assert_eq!(cell.initialize(9), Err(InitError::AlreadyInitialized));
    assert_eq!(cell.peek(), Some(&7));
    assert_eq!(cell.try_get(), Some(&7));
    assert_eq!(cell.get_or_init(|| 11), Ok(&7));
}

#[test]
fn init_once_keeps_the_first_value_of_any_type() {
    let cell: InitOnce<String> = InitOnce::uninitialized();
    assert_eq!(cell.initialize("first".to_string()), Ok(()));
    assert_eq!(cell.initialize("second".to_string()), Err(InitError::AlreadyInitialized));
    assert_eq!(cell.peek().unwrap(), "first");
}

#[test]
fn get_or_init_returns_the_first_result() {
    let cell: InitOnce<u32> = InitOnce::uninitialized();
    let mut counter = 0u32;
    assert_eq!(cell.get_or_init(|| { counter += 1; counter }), Ok(&1));
    assert_eq!(cell.get_or_init(|| { counter += 1; counter + 40 }), Ok(&1));
    assert_eq!(cell.get_or_init(|| { counter += 1; counter + 80 }), Ok(&1));
    assert_eq!(counter, 1);
    assert_eq!(cell.initialize(5), Err(InitError::AlreadyInitialized));
    assert_eq!(cell.peek(), Some(&1));
}

#[test]
fn init_once_turns_away_calls_from_inside_the_initializer() {
    let cell: InitOnce<u32> = InitOnce::uninitialized();
    let made = cell.get_or_init(|| {
        assert_eq!(cell.initialize(1), Err(InitError::Contended));
        assert_eq!(cell.get_or_init(|| 2), Err(InitError::Simultaneous));
        assert_eq!(cell.try_get(), None);
        assert_eq!(cell.peek(), None);
        3
    });
    assert_eq!(made, Ok(&3));
    assert_eq!(cell.try_get(), Some(&3));
}

#[test]
fn init_once_rules_on_given_values() {
    assert_eq!(initialize_outcome(false, false), Ok(()));
    assert_eq!(initialize_outcome(false, true), Err(InitError::AlreadyInitialized));
    assert_eq!(initialize_outcome(true, false), Err(InitError::Contended));
    assert_eq!(initialize_outcome(true, true), Err(InitError::Contended));

    assert_eq!(shown(false, Some(&4)), Some(&4));
    assert_eq!(shown(false, None::<&u32>), None);
    assert_eq!(shown(true, Some(&4)), None);

    let mut calls = 0u32;
    assert_eq!(fresh_value(false, false, || { calls += 1; 6 }), Some(6));
    assert_eq!(fresh_value(false, true, || { calls += 1; 6 }), None);
    assert_eq!(fresh_value(true, false, || { calls += 1; 6 }), None);
    assert_eq!(fresh_value(true, true, || { calls += 1; 6 }), None);
    assert_eq!(calls, 1);
}

#[test]
fn get_or_init_outcome_on_given_values() {
    assert_eq!(get_or_init_outcome(false, Some(&4), None), Ok(&4));
    assert_eq!(get_or_init_outcome(false, Some(&4), Some(&5)), Ok(&4));
    assert_eq!(get_or_init_outcome(false, None, Some(&5)), Ok(&5));
    assert_eq!(get_or_init_outcome(true, Some(&4), None), Err(InitError::Simultaneous));
    assert_eq!(get_or_init_outcome(true, None::<&u32>, None), Err(InitError::Simultaneous));
}

#[test]
fn value_to_set_on_given_values() {
    assert_eq!(value_to_set(false, 3u32), Some(3));
    assert_eq!(value_to_set(true, 3u32), None);
}
