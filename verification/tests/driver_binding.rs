use falcon8::binding::{detach_wanted, reattach_needed, simulate_detach_if_bound,
    simulate_reattach_if_needed, DriverBindingState, DriverQuery};

#[test]
fn detach_wanted_only_for_active_driver() {
    assert!(detach_wanted(DriverQuery::Active));
    assert!(!detach_wanted(DriverQuery::Inactive));
    assert!(!detach_wanted(DriverQuery::Failed));
}

#[test]
fn reattach_needed_only_after_own_detach() {
    assert!(reattach_needed(DriverBindingState::DetachedByUs));
    assert!(!reattach_needed(DriverBindingState::NotBound));
    assert!(!reattach_needed(DriverBindingState::BoundByOs));
}

#[test]
fn detach_reattach_round_trip_restores_bound_driver() {
    let (after_detach, prior) = simulate_detach_if_bound(true);
    assert_eq!(after_detach, false);
    assert_eq!(prior, DriverBindingState::DetachedByUs);
    let after_reattach = simulate_reattach_if_needed(after_detach, prior);
    assert_eq!(after_reattach, true);
}

#[test]
fn detach_reattach_round_trip_leaves_unbound_driver_alone() {
    let (after_detach, prior) = simulate_detach_if_bound(false);
    assert_eq!(after_detach, false);
    assert_eq!(prior, DriverBindingState::NotBound);
    let after_reattach = simulate_reattach_if_needed(after_detach, prior);
    assert_eq!(after_reattach, false);
}

#[test]
fn reattach_is_a_no_op_without_own_detach() {
    assert_eq!(simulate_reattach_if_needed(true, DriverBindingState::BoundByOs), true);
    assert_eq!(simulate_reattach_if_needed(false, DriverBindingState::BoundByOs), false);
    assert_eq!(simulate_reattach_if_needed(false, DriverBindingState::NotBound), false);
}
