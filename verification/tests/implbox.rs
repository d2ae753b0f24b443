use lockbox::implbox::ImplBox;

#[test]
fn round_trip_returns_the_boxed_value() {
    let b = ImplBox::new(7, 42u64);
    assert!(b.matches(7));
    assert_eq!(*b.borrow(7), 42);
    assert_eq!(b.with(7, |v: &u64| *v + 1), 43);
}

#[test]
fn mismatched_tag_is_reported_not_misread() {
    let b = ImplBox::new(7, String::from("payload"));
    assert!(!b.matches(8));
    assert!(b.try_borrow(8).is_none());
    assert_eq!(b.try_borrow(7).unwrap(), "payload");
}

#[test]
fn mismatched_tag_never_runs_the_accessor() {
    let b = ImplBox::new(7, 42u64);
    // On a mismatch the closure is never invoked.
    assert_eq!(b.try_with(8, |_v: &u64| panic!("must not run")), None);
    assert_eq!(b.try_with(7, |v: &u64| *v + 1), Some(43));
}

#[test]
fn writes_go_through_the_matching_tag() {
    let mut b = ImplBox::new(3, 10i32);
    *b.borrow_mut(3) = 11;
    assert_eq!(*b.borrow(3), 11);
}
