use bevy_mod_erased_component_registry::CommandQueue;
use bevy_mod_erased_component_registry::WorldModel;

#[test]
fn it_should_insert_the_correct_components() {
    let mut world = WorldModel::new();
    let token_a: u64 = 1;
    let token_b: u64 = 2;
    world.register(token_a, 100);
    world.register(token_b, 200);
    let a_component_id = world.declare_type(token_a);
    let b_component_id = world.declare_type(token_b);

    let a = world.spawn_empty();
    let b = world.spawn_empty();
    let mut commands = CommandQueue::new();
    commands.insert_component_by_type_token(a, token_a);
    commands.insert_component_by_type_token(b, token_b);
    world.apply(commands);

    assert!(
        world.has_component(a, a_component_id),
        "Component A was not inserted!"
    );
    assert!(
        !world.has_component(a, b_component_id),
        "Component B was inserted on the wrong entity!"
    );
    assert!(
        !world.has_component(b, a_component_id),
        "Component A was inserted on the wrong entity!"
    );
    assert!(
        world.has_component(b, b_component_id),
        "Component B was not inserted!"
    );
}

#[test]
fn unregistered_token_insert_is_a_noop() {
    let mut world = WorldModel::new();
    let token: u64 = 7;
    world.declare_type(token);
    let e = world.spawn_empty();
    let mut queue = CommandQueue::new();
    queue.insert_component_by_type_token(e, token);
    world.apply(queue);
    assert!(world.is_spawned(e));
    assert_eq!(world.component_count(e), 0);
    assert!(!world.has_component(e, 0));
}

#[test]
fn inserting_after_reregistration_uses_the_new_constructor() {
    let mut world = WorldModel::new();
    world.register(5, 50);
    world.register(5, 51);
    let slot = world.declare_type(5);
    let e = world.spawn_empty();
    let mut queue = CommandQueue::new();
    queue.insert_component_by_type_token(e, 5);
    world.apply(queue);
    assert_eq!(world.component_ctor(e, slot), Some(51));
    assert_eq!(world.get_constructor(5), Some(51));
}

#[test]
fn double_insert_leaves_exactly_one_component() {
    let mut world = WorldModel::new();
    world.register(9, 90);
    let slot = world.declare_type(9);
    let e = world.spawn_empty();
    let mut queue = CommandQueue::new();
    queue.insert_component_by_type_token(e, 9);
    queue.insert_component_by_type_token(e, 9);
    world.apply(queue);
    assert!(world.has_component(e, slot));
    assert_eq!(world.component_count(e), 1);
    assert_eq!(world.component_ctor(e, slot), Some(90));
}

#[test]
fn registration_survives_applying_a_batch() {
    let mut world = WorldModel::new();
    world.register(1, 10);
    world.declare_type(1);
    let e = world.spawn_empty();
    let mut queue = CommandQueue::new();
    queue.insert_component_by_type_token(e, 1);
    world.apply(queue);
    assert!(world.is_registered(1));
    assert_eq!(world.get_constructor(1), Some(10));
}

#[test]
fn declared_types_get_dense_stable_slots() {
    let mut world = WorldModel::new();
    let s0 = world.declare_type(10);
    let s1 = world.declare_type(11);
    assert_eq!(s0, 0);
    assert_eq!(s1, 1);
    assert_eq!(world.declare_type(10), 0);
    assert_eq!(world.get_slot(10), Some(0));
    assert_eq!(world.get_slot(11), Some(1));
    assert_eq!(world.get_slot(99), None);
}

#[test]
fn spawned_entities_get_fresh_ids() {
    let mut world = WorldModel::new();
    let e0 = world.spawn_empty();
    let e1 = world.spawn_empty();
    assert_eq!(e0, 0);
    assert_eq!(e1, 1);
    assert!(world.is_spawned(e0));
    assert!(world.is_spawned(e1));
    assert!(!world.is_spawned(2));
    assert_eq!(world.component_count(e0), 0);
}

#[test]
fn queue_records_requests_in_order() {
    let mut queue = CommandQueue::new();
    assert_eq!(queue.len(), 0);
    queue.insert_component_by_type_token(0, 1);
    queue.insert_component_by_type_token(0, 2);
    assert_eq!(queue.len(), 2);
}
