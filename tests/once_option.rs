use std::cell::Cell;

use onception::{OnceOption, SomeError};

#[test]
fn set_once_then_conflict() {
    let mut n = OnceOption::new();
    assert_eq!(n.set(42), Ok(()));
    assert_eq!(n.set(64), Err(SomeError));
    assert_eq!(n.as_ref(), Some(&42));
    assert_eq!(n.into_inner(), Some(42));
}

#[test]
fn new_is_empty() {
    let n: OnceOption<u8> = OnceOption::new();
    assert!(n.is_none());
    assert!(!n.is_some());
    assert_eq!(n.as_ref(), None);
    assert_eq!(n.into_inner(), None);
}

#[test]
fn only_first_of_many_writes_succeeds() {
    let mut n = OnceOption::new();
    let values = [7, 1, 7, 9, 0];
    let mut successes = 0;
    for (i, v) in values.iter().enumerate() {
        let r = n.set(*v);
        if i == 0 {
            assert_eq!(r, Ok(()));
        } else {
            assert_eq!(r, Err(SomeError));
        }
        if r.is_ok() {
            successes += 1;
        }
        assert_eq!(n.as_ref(), Some(&7));
    }
    assert_eq!(successes, 1);
    assert_eq!(n.into_inner(), Some(7));
}

#[test]
fn mixed_writes_keep_first_value() {
    let mut n = OnceOption::new();
    assert_eq!(n.set_or("first", 1u8), Ok(()));
    assert_eq!(n.set("second"), Err(SomeError));
    assert_eq!(n.set_or_else("third", || 'x'), Err('x'));
    assert_eq!(n.into_inner(), Some("first"));
}

#[test]
fn filled_slot_returns_each_given_error() {
    let mut n = OnceOption::from(5u32);
    assert_eq!(n.set_or(6, "e1"), Err("e1"));
    assert_eq!(n.set_or(7, "e2"), Err("e2"));
    assert_eq!(n.as_ref(), Some(&5));
}

#[test]
fn set_or_on_empty_succeeds() {
    let mut n = OnceOption::new();
    assert_eq!(n.set_or(String::from("v"), 3i64), Ok(()));
    assert!(n.is_some());
    assert_eq!(n.as_ref().map(|s| s.as_str()), Some("v"));
}

#[test]
fn set_or_else_does_not_call_error_on_success() {
    let calls = Cell::new(0u32);
    let mut n = OnceOption::new();
    let r = n.set_or_else(1u8, || {
        calls.set(calls.get() + 1);
        "conflict"
    });
    assert_eq!(r, Ok(()));
    assert_eq!(calls.get(), 0);
    assert_eq!(n.as_ref(), Some(&1));
}

#[test]
fn set_or_else_calls_error_once_on_conflict() {
    let calls = Cell::new(0u32);
    let mut n = OnceOption::from(1u8);
    let r = n.set_or_else(2, || {
        calls.set(calls.get() + 1);
        format!("taken {}", calls.get())
    });
    assert_eq!(r, Err(String::from("taken 1")));
    assert_eq!(calls.get(), 1);
    assert_eq!(n.into_inner(), Some(1));
}

#[test]
fn from_value_matches_new_then_set() {
    let built = OnceOption::from(11i32);
    let mut set = OnceOption::new();
    assert_eq!(set.set(11i32), Ok(()));
    assert_eq!(built.is_some(), set.is_some());
    assert_eq!(built.is_none(), set.is_none());
    assert_eq!(built, set);
    assert_eq!(built.into_inner(), set.into_inner());
}

#[test]
fn from_option_round_trip() {
    assert_eq!(OnceOption::from(Some(3u16)).into_inner(), Some(3));
    assert_eq!(OnceOption::<u16>::from(None).into_inner(), None);
    let filled: OnceOption<u16> = Some(4).into();
    assert!(filled.is_some());
    let empty: OnceOption<u16> = None.into();
    assert!(empty.is_none());
}

#[test]
fn from_empty_option_can_be_set() {
    let mut n = OnceOption::<u8>::from(None);
    assert_eq!(n.set(9), Ok(()));
    assert_eq!(n.set(10), Err(SomeError));
    assert_eq!(n.into_inner(), Some(9));
}

#[test]
fn as_mut_changes_value_not_occupancy() {
    let mut n = OnceOption::from(vec![1, 2]);
    if let Some(v) = n.as_mut() {
        v.push(3);
    }
    assert_eq!(n.as_ref(), Some(&vec![1, 2, 3]));
    assert_eq!(n.set(vec![]), Err(SomeError));
    assert_eq!(n.into_inner(), Some(vec![1, 2, 3]));
}

#[test]
fn as_mut_on_empty_gives_nothing() {
    let mut n: OnceOption<u8> = OnceOption::new();
    assert!(n.as_mut().is_none());
    assert!(n.is_none());
    assert_eq!(n.set(1), Ok(()));
}

#[test]
fn occupancy_queries_agree() {
    let mut n = OnceOption::new();
    assert_eq!(n.is_some(), !n.is_none());
    n.set('a').unwrap();
    assert!(n.is_some());
    assert_eq!(n.is_some(), !n.is_none());
}

#[test]
fn error_message_text() {
    assert_eq!(SomeError.message(), "attempt to write to a `Some` value");
    assert_eq!(SomeError, SomeError);
}
