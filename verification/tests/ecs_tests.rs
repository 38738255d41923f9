use helium::ecs::HeliumECS;
use helium::world::World;

enum Creature {
    Health(i32),
    Name(String),
    Player,
}

const HEALTH: u64 = 0;
const NAME: u64 = 1;
const PLAYER: u64 = 2;

fn health_of(c: &Creature) -> Option<i32> {
    match c {
        Creature::Health(h) => Some(*h),
        _ => None,
    }
}

fn name_of(c: &Creature) -> Option<&str> {
    match c {
        Creature::Name(n) => Some(n.as_str()),
        _ => None,
    }
}

#[test]
fn test_ecs_struct() {
    let mut ecs: HeliumECS<Creature> = HeliumECS::new();

    let ralph = ecs.new_entity();
    let betty = ecs.new_entity();
    let player = ecs.new_entity();

    ecs.add_component(ralph, HEALTH, Creature::Health(100));
    ecs.add_component(ralph, NAME, Creature::Name(String::from("Ralph")));
    ecs.add_component(betty, HEALTH, Creature::Health(100));
    ecs.add_component(betty, NAME, Creature::Name(String::from("Betty")));
    ecs.add_component(player, HEALTH, Creature::Health(100));
    ecs.add_component(player, PLAYER, Creature::Player);

    // Every named creature fights down to zero health.
    let named: Vec<usize> = {
        let healths = ecs.query(HEALTH).unwrap();
        let names = ecs.query(NAME).unwrap();
        healths
            .entities()
            .into_iter()
            .filter(|e| names.get(*e).is_some())
            .collect()
    };
    for e in named {
        let mut health = {
            let healths = ecs.query(HEALTH).unwrap();
            health_of(healths.get(e).unwrap()).unwrap()
        };
        assert_eq!(health, 100);
        while health > 0 {
            health -= 1;
        }
        assert_eq!(health, 0);
        ecs.add_component(e, HEALTH, Creature::Health(health));
    }

    // The player never fought, so its health is untouched.
    let healths = ecs.query(HEALTH).unwrap();
    let players = ecs.query(PLAYER).unwrap();
    for e in healths.entities() {
        if players.get(e).is_some() {
            assert_eq!(health_of(healths.get(e).unwrap()), Some(100));
        }
    }
}

#[test]
fn test_ecs_basics() {
    let mut world: World<Creature> = World::new();

    let ralph = world.new_entity();
    world.add_component_to_entity(ralph, HEALTH, Creature::Health(100));
    world.add_component_to_entity(ralph, NAME, Creature::Name(String::from("Ralph")));

    let betty = world.new_entity();
    world.add_component_to_entity(betty, HEALTH, Creature::Health(100));
    world.add_component_to_entity(betty, NAME, Creature::Name(String::from("Betty")));

    let player = world.new_entity();
    world.add_component_to_entity(player, HEALTH, Creature::Health(100));
    world.add_component_to_entity(player, PLAYER, Creature::Player);

    let named: Vec<usize> = {
        let healths = world.borrow_component_map(HEALTH).unwrap();
        let names = world.borrow_component_map(NAME).unwrap();
        healths
            .entities()
            .into_iter()
            .filter(|e| names.get(*e).is_some())
            .collect()
    };
    for e in named {
        let healths = world.borrow_component_map_mut(HEALTH).unwrap();
        let mut health = health_of(healths.get(e).unwrap()).unwrap();
        assert_eq!(health, 100);
        while health > 0 {
            health -= 1;
        }
        assert_eq!(health, 0);
        healths.insert(e, Creature::Health(health));
    }

    {
        let healths = world.borrow_component_map(HEALTH).unwrap();
        let players = world.borrow_component_map(PLAYER).unwrap();
        for e in healths.entities() {
            if players.get(e).is_some() {
                assert_eq!(health_of(healths.get(e).unwrap()), Some(100));
            }
        }
    }

    world.remove_entity(ralph);

    assert_eq!(world.get_num_entities(), 2);
}

#[test]
fn test_component_returned_unchanged() {
    // A stored component is returned exactly as it went in.
    let mut world: World<Creature> = World::new();
    let e = world.new_entity();
    world.add_component_to_entity(e, HEALTH, Creature::Health(42));
    world.add_component_to_entity(e, NAME, Creature::Name(String::from("Ada")));

    let healths = world.borrow_component_map(HEALTH).unwrap();
    assert_eq!(health_of(healths.get(e).unwrap()), Some(42));
    let names = world.borrow_component_map(NAME).unwrap();
    assert_eq!(name_of(names.get(e).unwrap()), Some("Ada"));

    // Overwriting replaces the old value.
    drop(healths);
    drop(names);
    world.add_component_to_entity(e, HEALTH, Creature::Health(7));
    let healths = world.borrow_component_map(HEALTH).unwrap();
    assert_eq!(health_of(healths.get(e).unwrap()), Some(7));
}

#[test]
fn test_removed_entity_never_found() {
    let mut world: World<Creature> = World::new();
    let a = world.new_entity();
    let b = world.new_entity();
    world.add_component_to_entity(a, HEALTH, Creature::Health(1));
    world.add_component_to_entity(a, NAME, Creature::Name(String::from("Gone")));
    world.add_component_to_entity(b, HEALTH, Creature::Health(2));

    world.remove_entity(a);

    let healths = world.borrow_component_map(HEALTH).unwrap();
    assert!(healths.get(a).is_none());
    assert_eq!(health_of(healths.get(b).unwrap()), Some(2));
    let names = world.borrow_component_map(NAME).unwrap();
    assert!(names.get(a).is_none());

    // Identities are never reused.
    drop(healths);
    drop(names);
    let c = world.new_entity();
    assert!(c != a && c != b);
}

#[test]
fn test_entity_ids_are_fresh() {
    let mut ecs: HeliumECS<Creature> = HeliumECS::new();
    let a = ecs.new_entity();
    let b = ecs.new_entity();
    assert_eq!(a, 0);
    assert_eq!(b, 1);
    ecs.add_component(a, HEALTH, Creature::Health(5));
    ecs.remove_component(HEALTH, a);
    let healths = ecs.query(HEALTH).unwrap();
    assert!(healths.get(a).is_none());
    assert_eq!(healths.len(), 0);
}
