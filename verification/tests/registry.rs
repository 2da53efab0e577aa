use bevy_mod_erased_component_registry::ErasedComponentRegistry;

#[test]
fn default_registry_is_empty() {
    let r = ErasedComponentRegistry::default();
    assert!(!r.is_registered(0));
    assert_eq!(r.get_constructor(0), None);
}

#[test]
fn registering_makes_a_token_registered() {
    let mut r = ErasedComponentRegistry::new();
    assert!(!r.is_registered(3));
    r.register(3, 30);
    assert!(r.is_registered(3));
    assert_eq!(r.get_constructor(3), Some(30));
    assert_eq!(r.get_constructor(9), None);
}

#[test]
fn registration_persists_across_other_registrations() {
    let mut r = ErasedComponentRegistry::new();
    r.register(3, 30);
    r.register(4, 40);
    r.register(5, 50);
    assert!(r.is_registered(3));
    assert_eq!(r.get_constructor(3), Some(30));
    assert_eq!(r.get_constructor(4), Some(40));
}

#[test]
fn reregistering_overwrites_the_constructor() {
    let mut r = ErasedComponentRegistry::new();
    r.register(7, 70);
    r.register(7, 71);
    assert_eq!(r.get_constructor(7), Some(71));
    assert!(r.is_registered(7));
}
