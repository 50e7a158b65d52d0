use verbosity::Registry;
use verbosity::Verbosity;

const ALL: [Verbosity; 3] = [Verbosity::Quite, Verbosity::Terse, Verbosity::Verbose];

#[test]
fn a_fresh_registry_holds_quite() {
    let registry = Registry::new();
    assert_eq!(Verbosity::level(&registry), Verbosity::Quite);
    assert!(Verbosity::is_quite(&registry));
    assert!(!Verbosity::is_terse(&registry));
    assert!(!Verbosity::is_verbose(&registry));
}

#[test]
fn the_first_set_wins() {
    let mut registry = Registry::new();
    Verbosity::Verbose.set_as_global(&mut registry);
    assert_eq!(Verbosity::level(&registry), Verbosity::Verbose);
    Verbosity::Quite.set_as_global(&mut registry);
    assert_ne!(Verbosity::level(&registry), Verbosity::Quite);
    assert_eq!(Verbosity::level(&registry), Verbosity::Verbose);
}

#[test]
fn every_later_set_is_ignored() {
    for first in ALL {
        for second in ALL {
            let mut registry = Registry::new();
            first.set_as_global(&mut registry);
            second.set_as_global(&mut registry);
            assert_eq!(Verbosity::level(&registry), first);
            for third in ALL {
                third.set_as_global(&mut registry);
                assert_eq!(Verbosity::level(&registry), first);
            }
        }
    }
}

#[test]
fn setting_quite_first_closes_the_latch() {
    let mut registry = Registry::new();
    Verbosity::Quite.set_as_global(&mut registry);
    Verbosity::Verbose.set_as_global(&mut registry);
    assert_eq!(Verbosity::level(&registry), Verbosity::Quite);
    assert!(Verbosity::is_quite(&registry));
}

#[test]
fn set_terse_then_read() {
    let mut registry = Registry::new();
    Verbosity::Terse.set_as_global(&mut registry);
    assert_eq!(Verbosity::level(&registry), Verbosity::Terse);
    assert!(Verbosity::is_terse(&registry));
    assert!(!Verbosity::is_verbose(&registry));
    assert!(!Verbosity::is_quite(&registry));
}

#[test]
fn set_verbose_then_read() {
    let mut registry = Registry::new();
    Verbosity::Verbose.set_as_global(&mut registry);
    assert_eq!(Verbosity::level(&registry), Verbosity::Verbose);
    assert!(Verbosity::is_terse(&registry));
    assert!(Verbosity::is_verbose(&registry));
    assert!(!Verbosity::is_quite(&registry));
}

#[test]
fn set_quite_then_read() {
    let mut registry = Registry::new();
    Verbosity::Quite.set_as_global(&mut registry);
    assert_eq!(Verbosity::level(&registry), Verbosity::Quite);
    assert!(!Verbosity::is_terse(&registry));
    assert!(!Verbosity::is_verbose(&registry));
    assert!(Verbosity::is_quite(&registry));
}

#[test]
fn the_predicates_follow_the_level_that_was_set() {
    for level in ALL {
        let mut registry = Registry::new();
        level.set_as_global(&mut registry);
        assert_eq!(Verbosity::level(&registry), level);
        assert_eq!(Verbosity::is_quite(&registry), level == Verbosity::Quite);
        assert_eq!(Verbosity::is_terse(&registry), level != Verbosity::Quite);
        assert_eq!(Verbosity::is_verbose(&registry), level == Verbosity::Verbose);
    }
}

#[test]
fn reading_does_not_change_the_level() {
    let mut registry = Registry::new();
    Verbosity::Terse.set_as_global(&mut registry);
    for _ in 0..100 {
        assert_eq!(Verbosity::level(&registry), Verbosity::Terse);
        assert!(Verbosity::is_terse(&registry));
    }
}

#[test]
fn registries_do_not_share_a_level() {
    let mut one = Registry::new();
    let mut other = Registry::new();
    Verbosity::Verbose.set_as_global(&mut one);
    assert_eq!(Verbosity::level(&other), Verbosity::Quite);
    Verbosity::Terse.set_as_global(&mut other);
    assert_eq!(Verbosity::level(&one), Verbosity::Verbose);
    assert_eq!(Verbosity::level(&other), Verbosity::Terse);
}

#[test]
fn the_test_setter_overwrites_and_leaves_the_latch() {
    let mut registry = Registry::new();
    Verbosity::Verbose.set_as_global_for_test(&mut registry);
    assert_eq!(Verbosity::level(&registry), Verbosity::Verbose);
    Verbosity::Terse.set_as_global(&mut registry);
    assert_eq!(Verbosity::level(&registry), Verbosity::Terse);
    Verbosity::Quite.set_as_global_for_test(&mut registry);
    assert_eq!(Verbosity::level(&registry), Verbosity::Quite);
    Verbosity::Verbose.set_as_global(&mut registry);
    assert_eq!(Verbosity::level(&registry), Verbosity::Quite);
    Verbosity::Verbose.set_as_global_for_test(&mut registry);
    assert!(Verbosity::is_verbose(&registry));
}

#[test]
fn a_shared_registry_can_be_read_by_many_holders() {
    let mut registry = Registry::new();
    Verbosity::Terse.set_as_global(&mut registry);
    let first = &registry;
    let second = &registry;
    assert_eq!(Verbosity::level(first), Verbosity::Terse);
    assert_eq!(Verbosity::level(second), Verbosity::Terse);
    assert!(Verbosity::is_terse(first));
    assert!(!Verbosity::is_verbose(second));
}

#[test]
fn the_first_to_set_is_who_found_the_latch_open() {
    assert!(Registry::first_to_set(Ok(false)));
    assert!(!Registry::first_to_set(Err(true)));
    assert!(Registry::first_to_set(Err(false)));
    assert!(!Registry::first_to_set(Ok(true)));
}
