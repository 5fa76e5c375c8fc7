use vstd::prelude::*;
use rand::Rng;
use crate::world::{Cube, Entity, Velocity, World, MAX_EXTENT, entity_valid};

verus! {

/// Width of the window the program opens.
pub const WINDOW_WIDTH: u32 = 800;

/// Height of the window the program opens.
pub const WINDOW_HEIGHT: u32 = 600;

/// How many squares the program starts with.
pub const ENTITY_COUNT: usize = 200;

/// Random squares are smaller than this.
pub const SIZE_BOUND: i32 = 50;

/// Random velocity components are at least 1 and below this.
pub const SPEED_BOUND: i32 = 5;

/// Relies on rand's `Rng::gen_range` on `thread_rng()`: a value from `low` up to,
/// not including, `high`; it panics unless `low < high`.
#[verifier::external_body]
fn random_in(low: i32, high: i32) -> (r: i32)
    requires
        low < high,
    ensures
        low <= r < high,
{
    rand::thread_rng().gen_range(low, high)
}

/// What holds of every entity drawn at random for a `width` by `height` window:
/// its size is below `SIZE_BOUND`, its square starts inside the window, short of
/// the right and bottom edges, and it moves right and down by at least 1 and less
/// than `SPEED_BOUND` per tick.
pub open spec fn random_start(e: Entity, width: int, height: int) -> bool {
    &&& 0 <= e.cube.size < SIZE_BOUND
    &&& 0 <= e.cube.x < width - e.cube.size
    &&& 0 <= e.cube.y < height - e.cube.size
    &&& 1 <= e.velocity.x < SPEED_BOUND
    &&& 1 <= e.velocity.y < SPEED_BOUND
}

/// Draws one entity for a `width` by `height` window.
pub fn random_entity(width: u32, height: u32) -> (r: Entity)
    requires
        SIZE_BOUND <= width <= MAX_EXTENT,
        SIZE_BOUND <= height <= MAX_EXTENT,
    ensures
        random_start(r, width as int, height as int),
        entity_valid(r, width as int, height as int),
{
    let size = random_in(0, SIZE_BOUND);
    let x = random_in(0, width as i32 - size);
    let y = random_in(0, height as i32 - size);
    let vx = random_in(1, SPEED_BOUND);
    let vy = random_in(1, SPEED_BOUND);
    Entity { cube: Cube { x, y, size: size as u32 }, velocity: Velocity { x: vx, y: vy } }
}

/// Adds `count` entities drawn at random after those already in `world`.
pub fn populate(world: &mut World, count: usize)
    requires
        old(world).wf(),
        SIZE_BOUND <= old(world).width,
        SIZE_BOUND <= old(world).height,
    ensures
        final(world).wf(),
        final(world).width == old(world).width,
        final(world).height == old(world).height,
        final(world).entities@.len() == old(world).entities@.len() + count,
        final(world).entities@.subrange(0, old(world).entities@.len() as int)
            == old(world).entities@,
        forall|i: int|
            old(world).entities@.len() <= i < final(world).entities@.len() ==> random_start(
                #[trigger] final(world).entities@[i],
                old(world).width as int,
                old(world).height as int,
            ),
{
    let ghost n0 = world.entities@.len();
    let mut k: usize = 0;
    while k < count
        invariant
            0 <= k <= count,
            world.wf(),
            SIZE_BOUND <= world.width,
            SIZE_BOUND <= world.height,
            world.width == old(world).width,
            world.height == old(world).height,
            n0 == old(world).entities@.len(),
            world.entities@.len() == n0 + k,
            world.entities@.subrange(0, n0 as int) == old(world).entities@,
            forall|i: int|
                n0 <= i < world.entities@.len() ==> random_start(
                    #[trigger] world.entities@[i],
                    old(world).width as int,
                    old(world).height as int,
                ),
        decreases count - k,
    {
        let e = random_entity(world.width, world.height);
        let ghost before = world.entities@;
        world.entities.push(e);
        assert(world.entities@.subrange(0, n0 as int) =~= before.subrange(0, n0 as int));
        assert(forall|i: int| 0 <= i < before.len() ==> world.entities@[i] == before[i]);
        k = k + 1;
    }
}

/// The program's starting world: a `WINDOW_WIDTH` by `WINDOW_HEIGHT` window
/// with `ENTITY_COUNT` entities drawn at random.
pub fn initial_world() -> (w: World)
    ensures
        w.wf(),
        w.width == WINDOW_WIDTH,
        w.height == WINDOW_HEIGHT,
        w.entities@.len() == ENTITY_COUNT,
        forall|i: int|
            0 <= i < w.entities@.len() ==> random_start(
                #[trigger] w.entities@[i],
                WINDOW_WIDTH as int,
                WINDOW_HEIGHT as int,
            ),
{
    let mut world = World { width: WINDOW_WIDTH, height: WINDOW_HEIGHT, entities: Vec::new() };
    populate(&mut world, ENTITY_COUNT);
    world
}

} // verus!
