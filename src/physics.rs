use vstd::prelude::*;
use crate::world::{
    Cube, Entity, Velocity, World, MAX_EXTENT, entity_valid, fits_span,
};

verus! {

/// One axis of a tick: the position advances by the velocity, and the velocity
/// is reversed when the advanced span leaves `0 ..= extent`. Returns the new
/// position and velocity.
pub open spec fn axis_step(pos: int, size: int, vel: int, extent: int) -> (int, int) {
    let p = pos + vel;
    if fits_span(p, size, extent) {
        (p, vel)
    } else {
        (p, -vel)
    }
}

/// The entity after one tick in a `width` by `height` window; the two axes do not
/// influence each other.
pub open spec fn stepped(e: Entity, width: int, height: int) -> Entity {
    let (x, vx) = axis_step(e.cube.x as int, e.cube.size as int, e.velocity.x as int, width);
    let (y, vy) = axis_step(e.cube.y as int, e.cube.size as int, e.velocity.y as int, height);
    Entity {
        cube: Cube { x: x as i32, y: y as i32, size: e.cube.size },
        velocity: Velocity { x: vx as i32, y: vy as i32 },
    }
}

/// On one axis, the values are small enough that a tick computes in `i32`.
pub open spec fn axis_in_limits(pos: int, size: int, vel: int, extent: int) -> bool {
    let m = MAX_EXTENT as int;
    &&& 0 <= extent <= m
    &&& 0 <= size <= m
    &&& -m <= vel <= m
    &&& -2 * m <= pos <= 2 * m
}

pub open spec fn step_in_limits(e: Entity, width: int, height: int) -> bool {
    &&& axis_in_limits(e.cube.x as int, e.cube.size as int, e.velocity.x as int, width)
    &&& axis_in_limits(e.cube.y as int, e.cube.size as int, e.velocity.y as int, height)
}

pub open spec fn abs(v: int) -> int {
    if v < 0 {
        -v
    } else {
        v
    }
}

proof fn lemma_valid_in_limits(e: Entity, width: int, height: int)
    requires
        0 <= width <= MAX_EXTENT,
        0 <= height <= MAX_EXTENT,
        entity_valid(e, width, height),
    ensures
        step_in_limits(e, width, height),
{
}

/// Reflection keeps an entity near its window: after a tick a valid entity is
/// still valid, and on each axis it either lies inside the window or has just
/// crossed an edge, in which case its velocity on that axis was reversed, it
/// overshoots the edge by no more than its speed, and the following tick moves
/// it back inside.
pub proof fn lemma_step_stays_near_window(e: Entity, width: int, height: int)
    requires
        0 <= width <= MAX_EXTENT,
        0 <= height <= MAX_EXTENT,
        entity_valid(e, width, height),
    ensures
        entity_valid(stepped(e, width, height), width, height),
        ({
            let s = stepped(e, width, height);
            let size = e.cube.size as int;
            &&& fits_span(s.cube.x as int, size, width) || {
                &&& s.velocity.x == -e.velocity.x
                &&& -abs(e.velocity.x as int) <= s.cube.x
                &&& s.cube.x + size <= width + abs(e.velocity.x as int)
                &&& fits_span(s.cube.x + s.velocity.x, size, width)
            }
            &&& fits_span(s.cube.y as int, size, height) || {
                &&& s.velocity.y == -e.velocity.y
                &&& -abs(e.velocity.y as int) <= s.cube.y
                &&& s.cube.y + size <= height + abs(e.velocity.y as int)
                &&& fits_span(s.cube.y + s.velocity.y, size, height)
            }
        }),
{
}

/// Reflection happens per axis and once per contact: a tick reverses the
/// horizontal velocity exactly when the moved square leaves the window
/// horizontally, whatever happens vertically, and likewise for the vertical
/// velocity; and the tick after a reversal does not reverse that axis again.
pub proof fn lemma_reflect_once_per_contact(e: Entity, width: int, height: int)
    requires
        0 <= width <= MAX_EXTENT,
        0 <= height <= MAX_EXTENT,
        entity_valid(e, width, height),
    ensures
        ({
            let s = stepped(e, width, height);
            let size = e.cube.size as int;
            &&& s.velocity.x == if fits_span(e.cube.x + e.velocity.x, size, width) {
                e.velocity.x as int
            } else {
                -e.velocity.x
            }
            &&& s.velocity.y == if fits_span(e.cube.y + e.velocity.y, size, height) {
                e.velocity.y as int
            } else {
                -e.velocity.y
            }
        }),
        ({
            let s = stepped(e, width, height);
            let t = stepped(s, width, height);
            &&& (s.velocity.x != e.velocity.x ==> t.velocity.x == s.velocity.x)
            &&& (s.velocity.y != e.velocity.y ==> t.velocity.y == s.velocity.y)
        }),
{
    lemma_step_stays_near_window(e, width, height);
}

/// Advances one entity by one tick in a `width` by `height` window.
pub fn step_entity(e: Entity, width: u32, height: u32) -> (r: Entity)
    requires
        step_in_limits(e, width as int, height as int),
    ensures
        r == stepped(e, width as int, height as int),
{
    let mut cube = e.cube;
    let mut vel = e.velocity;
    cube.x = cube.x + vel.x;
    cube.y = cube.y + vel.y;
    if cube.x < 0 || cube.x + cube.size as i32 > width as i32 {
        vel.x = -vel.x;
    }
    if cube.y < 0 || cube.y + cube.size as i32 > height as i32 {
        vel.y = -vel.y;
    }
    Entity { cube, velocity: vel }
}

/// One physics tick: every entity moves by its velocity and reflects off the
/// window's edges. No entity interacts with another.
pub fn run(world: &mut World)
    requires
        old(world).wf(),
    ensures
        final(world).wf(),
        final(world).width == old(world).width,
        final(world).height == old(world).height,
        final(world).entities@ == old(world).entities@.map_values(
            |e: Entity| stepped(e, old(world).width as int, old(world).height as int),
        ),
{
    let n = world.entities.len();
    let ghost w = world.width as int;
    let ghost h = world.height as int;
    let mut i: usize = 0;
    while i < n
        invariant
            0 <= i <= n,
            n == world.entities@.len(),
            n == old(world).entities@.len(),
            world.width == old(world).width,
            world.height == old(world).height,
            w == world.width as int,
            h == world.height as int,
            old(world).wf(),
            forall|j: int|
                0 <= j < i ==> world.entities@[j] == stepped(old(world).entities@[j], w, h),
            forall|j: int| i <= j < n ==> world.entities@[j] == old(world).entities@[j],
        decreases n - i,
    {
        let e = world.entities[i];
        proof {
            assert(entity_valid(old(world).entities@[i as int], w, h));
            lemma_valid_in_limits(e, w, h);
        }
        let s = step_entity(e, world.width, world.height);
        world.entities.set(i, s);
        i = i + 1;
    }
    assert forall|j: int| 0 <= j < n implies #[trigger] entity_valid(world.entities@[j], w, h) by {
        assert(entity_valid(old(world).entities@[j], w, h));
        lemma_step_stays_near_window(old(world).entities@[j], w, h);
    }
    assert(world.entities@ =~= old(world).entities@.map_values(
        |e: Entity| stepped(e, w, h),
    ));
}

} // verus!
