use boolish::{ReShape, B};

#[test]
fn ok_becomes_the_primary_case() {
    let r: Result<i32, String> = Ok(42);
    let b: B<i32, String> = r.reshape(());
    assert_eq!(b, B::X(42));
}

#[test]
fn err_becomes_the_alternate_case() {
    let r: Result<i32, String> = Err(String::from("boom"));
    let b: B<i32, String> = r.reshape(());
    assert_eq!(b, B::Y(String::from("boom")));
}

#[test]
fn primary_becomes_ok() {
    let b: B<i32, String> = B::X(42);
    let r: Result<i32, String> = b.reshape(());
    assert_eq!(r, Ok(42));
}

#[test]
fn alternate_becomes_err() {
    let b: B<i32, String> = B::Y(String::from("boom"));
    let r: Result<i32, String> = b.reshape(());
    assert_eq!(r, Err(String::from("boom")));
}

#[test]
fn result_round_trip_is_identity() {
    let cases: Vec<Result<i32, String>> =
        vec![Ok(0), Ok(-7), Ok(i32::MAX), Err(String::new()), Err(String::from("boom"))];
    for r in cases {
        let b: B<i32, String> = r.clone().reshape(());
        let back: Result<i32, String> = b.reshape(());
        assert_eq!(back, r);
    }
}

#[test]
fn outcome_round_trip_is_identity() {
    let b: B<u8, u16> = B::X(1);
    let r: Result<u8, u16> = b.reshape(());
    let back: B<u8, u16> = r.reshape(());
    assert_eq!(back, B::X(1));

    let b: B<u8, u16> = B::Y(2);
    let r: Result<u8, u16> = b.reshape(());
    let back: B<u8, u16> = r.reshape(());
    assert_eq!(back, B::Y(2));
}

#[test]
fn primary_becomes_some() {
    let b: B<i32, String> = B::X(42);
    let o: Option<i32> = b.reshape(());
    assert_eq!(o, Some(42));
}

#[test]
fn alternate_becomes_none() {
    let b: B<i32, String> = B::Y(String::from("boom"));
    let o: Option<i32> = b.reshape(());
    assert_eq!(o, None);
}

#[test]
fn option_forgets_which_alternate_it_was() {
    let one: B<i32, &str> = B::Y("one");
    let two: B<i32, &str> = B::Y("two");
    let a: Option<i32> = one.reshape(());
    let b: Option<i32> = two.reshape(());
    assert_eq!(a, b);
}

#[test]
fn some_becomes_the_primary_case_and_the_context_is_not_used() {
    let o: Option<i32> = Some(42);
    let b: B<i32, String> = o.reshape("missing field");
    assert_eq!(b, B::X(42));
}

#[test]
fn none_becomes_the_alternate_case_made_from_the_context() {
    let o: Option<i32> = None;
    let b: B<i32, String> = o.reshape("missing field");
    assert_eq!(b, B::Y(String::from("missing field")));
}

#[test]
fn none_with_a_context_of_the_alternate_type_keeps_the_context() {
    let o: Option<()> = None;
    let b: B<(), u64> = o.reshape(17u64);
    assert_eq!(b, B::Y(17));
}

#[test]
fn none_with_a_narrower_context_widens_it() {
    let o: Option<()> = None;
    let b: B<(), u32> = o.reshape(200u8);
    assert_eq!(b, B::Y(200));
}

#[test]
fn option_round_trip_is_identity() {
    let some: Option<i32> = Some(3);
    let b: B<i32, String> = some.reshape("gone");
    let back: Option<i32> = b.reshape(());
    assert_eq!(back, Some(3));

    let none: Option<i32> = None;
    let b: B<i32, String> = none.reshape("gone");
    let back: Option<i32> = b.reshape(());
    assert_eq!(back, None);
}
