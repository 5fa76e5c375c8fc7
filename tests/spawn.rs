use bouncing_cubes::spawn::{
    initial_world, populate, random_entity, ENTITY_COUNT, SIZE_BOUND, SPEED_BOUND, WINDOW_HEIGHT,
    WINDOW_WIDTH,
};
use bouncing_cubes::world::{Cube, Entity, Velocity, World};

#[test]
fn initial_world_holds_random_squares_inside_the_window() {
    let w = initial_world();
    assert_eq!((w.width, w.height), (800, 600));
    assert_eq!((WINDOW_WIDTH, WINDOW_HEIGHT), (800, 600));
    assert_eq!(w.entities.len(), ENTITY_COUNT);
    assert_eq!(ENTITY_COUNT, 200);
    for e in &w.entities {
        let s = e.cube.size as i32;
        assert!(s < SIZE_BOUND);
        assert!(e.cube.x >= 0 && e.cube.x < 800 - s);
        assert!(e.cube.y >= 0 && e.cube.y < 600 - s);
        assert!(e.velocity.x >= 1 && e.velocity.x < SPEED_BOUND);
        assert!(e.velocity.y >= 1 && e.velocity.y < SPEED_BOUND);
    }
    let sizes: std::collections::BTreeSet<u32> = w.entities.iter().map(|e| e.cube.size).collect();
    assert!(sizes.len() > 1);
}

#[test]
fn random_entity_in_smallest_window() {
    for _ in 0..500 {
        let e = random_entity(50, 50);
        let s = e.cube.size as i32;
        assert!(e.cube.x < 50 - s && e.cube.y < 50 - s);
        assert!(e.cube.x >= 0 && e.cube.y >= 0);
    }
}

#[test]
fn populate_keeps_existing_entities() {
    let mut w = World::new(300, 200).unwrap();
    let first = Entity { cube: Cube { x: 1, y: 2, size: 3 }, velocity: Velocity { x: -1, y: 0 } };
    w.spawn(first).unwrap();
    populate(&mut w, 10);
    assert_eq!(w.entities.len(), 11);
    assert_eq!(w.entities[0], first);
    populate(&mut w, 0);
    assert_eq!(w.entities.len(), 11);
}
