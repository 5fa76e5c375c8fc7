use vstd::prelude::*;

verus! {

/// The largest window extent, entity size and speed the world accepts; it keeps
/// every coordinate the physics step computes far inside `i32`.
pub const MAX_EXTENT: u32 = 1048576;

/// A square: its top-left corner in window pixels and its edge length.
#[derive(Clone, Copy, Debug, PartialEq, Eq)]
pub struct Cube {
    pub x: i32,
    pub y: i32,
    pub size: u32,
}

/// Pixels moved per tick on each axis.
#[derive(Clone, Copy, Debug, PartialEq, Eq)]
pub struct Velocity {
    pub x: i32,
    pub y: i32,
}

/// One bouncing square together with its velocity.
#[derive(Clone, Copy, Debug, PartialEq, Eq)]
pub struct Entity {
    pub cube: Cube,
    pub velocity: Velocity,
}

/// Why the world refused a request.
#[derive(Clone, Copy, Debug, PartialEq, Eq)]
pub enum WorldError {
    /// A window extent above `MAX_EXTENT`.
    ExtentTooLarge,
    /// A square that does not lie wholly inside the window.
    OutsideWindow,
    /// A velocity component of magnitude above `MAX_EXTENT`.
    TooFast,
}

/// The window's extents and the entities in it; an entity is named by its index.
#[derive(Debug)]
pub struct World {
    pub width: u32,
    pub height: u32,
    pub entities: Vec<Entity>,
}

/// A span of `size` pixels starting at `pos` lies within `0 ..= extent`.
pub open spec fn fits_span(pos: int, size: int, extent: int) -> bool {
    0 <= pos && pos + size <= extent
}

/// On one axis: inside the window now, or brought back inside by the next move.
pub open spec fn axis_settled(pos: int, size: int, vel: int, extent: int) -> bool {
    fits_span(pos, size, extent) || fits_span(pos + vel, size, extent)
}

pub open spec fn speed_ok(v: Velocity) -> bool {
    -(MAX_EXTENT as int) <= v.x <= MAX_EXTENT && -(MAX_EXTENT as int) <= v.y <= MAX_EXTENT
}

/// The square lies wholly inside a `width` by `height` window.
pub open spec fn inside_window(c: Cube, width: int, height: int) -> bool {
    fits_span(c.x as int, c.size as int, width) && fits_span(c.y as int, c.size as int, height)
}

/// What every entity of a world satisfies between physics steps.
pub open spec fn entity_valid(e: Entity, width: int, height: int) -> bool {
    &&& speed_ok(e.velocity)
    &&& axis_settled(e.cube.x as int, e.cube.size as int, e.velocity.x as int, width)
    &&& axis_settled(e.cube.y as int, e.cube.size as int, e.velocity.y as int, height)
}

impl World {
    pub open spec fn wf(&self) -> bool {
        &&& self.width <= MAX_EXTENT
        &&& self.height <= MAX_EXTENT
        &&& forall|i: int|
            0 <= i < self.entities@.len() ==> #[trigger] entity_valid(
                self.entities@[i],
                self.width as int,
                self.height as int,
            )
    }

    /// An empty world for a `width` by `height` window.
    pub fn new(width: u32, height: u32) -> (r: Result<World, WorldError>)
        ensures
            (width <= MAX_EXTENT && height <= MAX_EXTENT) <==> r is Ok,
            r is Err ==> r == Err::<World, WorldError>(WorldError::ExtentTooLarge),
            r matches Ok(w) ==> w.wf() && w.width == width && w.height == height
                && w.entities@.len() == 0,
    {
        if width > MAX_EXTENT || height > MAX_EXTENT {
            return Err(WorldError::ExtentTooLarge);
        }
        Ok(World { width, height, entities: Vec::new() })
    }

    /// Adds an entity whose square lies inside the window and returns its index.
    pub fn spawn(&mut self, entity: Entity) -> (r: Result<usize, WorldError>)
        requires
            old(self).wf(),
        ensures
            final(self).wf(),
            final(self).width == old(self).width,
            final(self).height == old(self).height,
            r == Err::<usize, WorldError>(WorldError::OutsideWindow) <==> !inside_window(
                entity.cube,
                old(self).width as int,
                old(self).height as int,
            ),
            r == Err::<usize, WorldError>(WorldError::TooFast) <==> (inside_window(
                entity.cube,
                old(self).width as int,
                old(self).height as int,
            ) && !speed_ok(entity.velocity)),
            r is Ok <==> inside_window(entity.cube, old(self).width as int, old(self).height as int)
                && speed_ok(entity.velocity),
            r matches Ok(i) ==> i == old(self).entities@.len() && final(self).entities@ == old(
                self,
            ).entities@.push(entity),
            r is Err ==> final(self).entities@ == old(self).entities@,
    {
        let c = entity.cube;
        if c.x < 0 || c.y < 0 || c.size > self.width || c.size > self.height || c.x as u32
            > self.width - c.size || c.y as u32 > self.height - c.size {
            return Err(WorldError::OutsideWindow);
        }
        let v = entity.velocity;
        let limit = MAX_EXTENT as i32;
        if v.x < -limit || v.x > limit || v.y < -limit || v.y > limit {
            return Err(WorldError::TooFast);
        }
        let i = self.entities.len();
        self.entities.push(entity);
        assert(forall|j: int| 0 <= j < i ==> self.entities@[j] == old(self).entities@[j]);
        Ok(i)
    }
}

} // verus!
