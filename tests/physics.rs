use bouncing_cubes::physics::{run, step_entity};
use bouncing_cubes::world::{Cube, Entity, Velocity, World};

fn entity(x: i32, y: i32, size: u32, vx: i32, vy: i32) -> Entity {
    Entity { cube: Cube { x, y, size }, velocity: Velocity { x: vx, y: vy } }
}

#[test]
fn overshoot_at_right_edge_reverses_velocity() {
    let r = step_entity(entity(795, 100, 50, 5, 0), 800, 600);
    assert_eq!(r.cube.x, 800);
    assert_eq!(r.velocity.x, -5);
    assert_eq!(r.cube.y, 100);
    assert_eq!(r.velocity.y, 0);
}

#[test]
fn two_entities_after_one_tick() {
    let mut w = World::new(800, 600).unwrap();
    w.spawn(entity(100, 10, 50, 1, 1)).unwrap();
    w.spawn(entity(10, 50, 50, 1, 1)).unwrap();
    run(&mut w);
    assert_eq!((w.entities[0].cube.x, w.entities[0].cube.y), (101, 11));
    assert_eq!((w.entities[1].cube.x, w.entities[1].cube.y), (11, 51));
    assert_eq!(w.entities[0].velocity, Velocity { x: 1, y: 1 });
    assert_eq!(w.entities[1].velocity, Velocity { x: 1, y: 1 });
}

#[test]
fn left_and_top_edges_reflect() {
    let r = step_entity(entity(2, 1, 10, -3, -4), 100, 100);
    assert_eq!((r.cube.x, r.cube.y), (-1, -3));
    assert_eq!(r.velocity, Velocity { x: 3, y: 4 });
}

#[test]
fn axes_reflect_independently() {
    let r = step_entity(entity(95, 40, 10, 2, 2), 100, 100);
    assert_eq!((r.cube.x, r.cube.y), (97, 42));
    assert_eq!(r.velocity, Velocity { x: -2, y: 2 });
    let r = step_entity(entity(40, 95, 10, 2, 2), 100, 100);
    assert_eq!(r.velocity, Velocity { x: 2, y: -2 });
}

#[test]
fn touching_the_edge_does_not_reflect() {
    let r = step_entity(entity(745, 545, 50, 5, 5), 800, 600);
    assert_eq!((r.cube.x, r.cube.y), (750, 550));
    assert_eq!(r.velocity, Velocity { x: 5, y: 5 });
}

#[test]
fn entities_stay_near_the_window_over_many_ticks() {
    let mut w = World::new(200, 150).unwrap();
    w.spawn(entity(0, 0, 50, 7, 3)).unwrap();
    w.spawn(entity(149, 99, 1, 4, -9)).unwrap();
    w.spawn(entity(10, 10, 0, -1, 1)).unwrap();
    let mut flips = vec![(0u32, 0u32); 3];
    for _ in 0..2000 {
        let before: Vec<Entity> = w.entities.clone();
        run(&mut w);
        for (i, (b, e)) in before.iter().zip(w.entities.iter()).enumerate() {
            let s = e.cube.size as i32;
            let out_x = e.cube.x < 0 || e.cube.x + s > 200;
            let out_y = e.cube.y < 0 || e.cube.y + s > 150;
            assert_eq!(e.velocity.x == -b.velocity.x, out_x);
            assert_eq!(e.velocity.y == -b.velocity.y, out_y);
            assert!(e.cube.x >= -b.velocity.x.abs() && e.cube.x + s <= 200 + b.velocity.x.abs());
            assert!(e.cube.y >= -b.velocity.y.abs() && e.cube.y + s <= 150 + b.velocity.y.abs());
            if out_x {
                assert!(b.cube.x >= 0 && b.cube.x + s <= 200);
                flips[i].0 += 1;
            }
            if out_y {
                assert!(b.cube.y >= 0 && b.cube.y + s <= 150);
                flips[i].1 += 1;
            }
        }
    }
    assert!(flips.iter().all(|f| f.0 > 3 && f.1 > 3));
}
