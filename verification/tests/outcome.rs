use boolish::B;

#[test]
fn primary_is_x_and_not_y() {
    let b: B<i32, String> = B::X(42);
    assert!(b.is_x());
    assert!(!b.is_y());
}

#[test]
fn alternate_is_y_and_not_x() {
    let b: B<i32, String> = B::Y(String::from("boom"));
    assert!(b.is_y());
    assert!(!b.is_x());
}

#[test]
fn predicates_disagree_on_every_case() {
    let cases: Vec<B<u8, u8>> = vec![B::X(0), B::X(255), B::Y(0), B::Y(255)];
    for b in cases.iter() {
        assert_ne!(b.is_x(), b.is_y());
    }
}

#[test]
fn predicates_do_not_look_at_the_payload() {
    let unit: B<(), ()> = B::X(());
    assert!(unit.is_x());
    let other: B<(), ()> = B::Y(());
    assert!(other.is_y());
}

#[test]
fn map_applies_the_function_to_the_primary_payload() {
    let b: B<i32, String> = B::X(20);
    assert_eq!(b.map(|v| v * 2 + 2), B::X(42));
}

#[test]
fn map_with_identity_gives_back_an_equal_outcome() {
    let b: B<i32, String> = B::X(42);
    assert_eq!(b.map(|v| v), B::X(42));
    let c: B<i32, String> = B::Y(String::from("boom"));
    assert_eq!(c.map(|v| v), B::Y(String::from("boom")));
}

#[test]
fn map_may_change_the_primary_type() {
    let b: B<i32, u8> = B::X(7);
    let m: B<String, u8> = b.map(|v| format!("#{}", v));
    assert_eq!(m, B::X(String::from("#7")));
}

#[test]
fn map_leaves_the_alternate_payload_and_does_not_call_the_function() {
    let mut called = false;
    let b: B<i32, String> = B::Y(String::from("boom"));
    let m: B<i64, String> = b.map(|v| {
        called = true;
        i64::from(v) + 1
    });
    assert_eq!(m, B::Y(String::from("boom")));
    assert!(!called);
}

#[test]
fn map_calls_the_function_once_on_the_primary_case() {
    let mut calls = 0;
    let b: B<i32, String> = B::X(1);
    let m = b.map(|v| {
        calls += 1;
        v + 1
    });
    assert_eq!(m, B::X(2));
    assert_eq!(calls, 1);
}

#[test]
fn maps_compose() {
    let b: B<u32, ()> = B::X(3);
    assert_eq!(b.map(|v| v + 1).map(|v| v * 10), B::X(40));
}
