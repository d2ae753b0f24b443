use lockbox::device::{init, one, two, Dispatcher};

#[test]
fn test_basic() {
    let mut d = Dispatcher::new();
    assert_eq!(two(&mut d, "quack").err().unwrap().message(), "call init first");
    init(&mut d);
    assert_eq!(one(&mut d, 5).unwrap(), 1);
    assert_eq!(one(&mut d, 3).err().unwrap().message(), "sorry, not that one");
    assert_eq!(two(&mut d, "potato").unwrap(), "two?val=potato&seq=2");
}

#[test]
fn one_before_init_fails_with_config_error() {
    let mut d = Dispatcher::new();
    assert_eq!(one(&mut d, 5).err().unwrap().message(), "call init first");
    // The refusal left no state behind: after init, the count starts at 0.
    init(&mut d);
    assert_eq!(one(&mut d, 5).unwrap(), 1);
}

#[test]
fn reinit_resets_state() {
    let mut d = Dispatcher::new();
    init(&mut d);
    assert_eq!(one(&mut d, 5).unwrap(), 1);
    assert_eq!(one(&mut d, 7).unwrap(), 2);
    init(&mut d);
    assert_eq!(one(&mut d, 5).unwrap(), 1);
}

#[test]
fn default_dispatcher_is_uninitialized() {
    let mut d = Dispatcher::default();
    assert_eq!(two(&mut d, "quack").err().unwrap().message(), "call init first");
}
