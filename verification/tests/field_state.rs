use typesensei::FieldState;

#[test]
fn default_is_not_set() {
    assert!(FieldState::<u32>::default().is_not_set());
    assert!(FieldState::<String>::default().is_unset());
    assert!(FieldState::new(5u32).is_set());
    assert!(FieldState::new(String::from("x")).is_set());
}

#[test]
fn set_and_unset_mutate_in_place() {
    let mut state = FieldState::<u32>::default();
    assert!(state.is_not_set());
    state.set(7);
    assert!(state.is_set());
    assert_eq!(state.inner(), Some(&7));
    state.unset();
    assert!(state.is_not_set());
    assert_eq!(state.inner(), None);
}

#[test]
fn take_moves_the_value_out() {
    let mut state = FieldState::new(11u64);
    assert_eq!(state.take(), Some(11));
    assert!(state.is_not_set());
    assert_eq!(state.take(), None);
}

#[test]
fn constructors_and_accessors_agree() {
    let set_state = typesensei::field_state::set(3u8);
    assert!(set_state.is_set());
    assert_eq!(set_state.into_inner(), Some(3));

    let unset_state = typesensei::field_state::unset::<u8>();
    assert!(unset_state.is_unset());
    assert_eq!(unset_state.into_value(), None);

    let not_set = FieldState::<u8>::not_set();
    assert!(not_set.is_not_set());

    assert_eq!(FieldState::new(9i32).unwrap(), 9);
    assert_eq!(FieldState::new(2u16).value(), Some(&2));
}

#[test]
fn expect_and_inner_mut_reach_the_value() {
    assert_eq!(FieldState::new(3u32).expect("value was set"), 3);

    let mut state = FieldState::new(1u32);
    if let Some(v) = state.inner_mut() {
        *v = 10;
    }
    assert_eq!(state.inner(), Some(&10));
    let mut empty = FieldState::<u32>::not_set();
    assert!(empty.inner_mut().is_none());
}

#[test]
fn from_option_maps_presence() {
    let present: FieldState<u32> = FieldState::from(Some(4u32));
    assert!(present.is_set());
    let absent: FieldState<u32> = FieldState::from(None);
    assert!(absent.is_not_set());
}

#[test]
fn inner_option_none_covers_cleared_and_untouched() {
    let untouched = FieldState::<Option<u32>>::default();
    assert!(untouched.is_inner_option_none());

    let cleared = FieldState::new(None::<u32>);
    assert!(cleared.is_inner_option_none());

    let set = FieldState::new(Some(1u32));
    assert!(!set.is_inner_option_none());
}
