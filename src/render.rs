use vstd::prelude::*;
use crate::world::{Cube, Entity, World};

verus! {

#[derive(Clone, Copy, Debug, PartialEq, Eq)]
pub struct Color {
    pub r: u8,
    pub g: u8,
    pub b: u8,
}

/// An axis-aligned rectangle: top-left corner and extents, in window pixels.
#[derive(Clone, Copy, Debug, PartialEq, Eq)]
pub struct Rect {
    pub x: i32,
    pub y: i32,
    pub width: u32,
    pub height: u32,
}

/// One operation on the frame buffer.
#[derive(Clone, Copy, Debug, PartialEq, Eq)]
pub enum DrawCommand {
    /// Choose the colour of the following `Clear` and `FillRect` commands.
    SetColor(Color),
    /// Fill the whole frame buffer.
    Clear,
    FillRect(Rect),
    /// Show the frame buffer on screen.
    Present,
}

/// The colour a frame is cleared to: black.
pub open spec fn background() -> Color {
    Color { r: 0, g: 0, b: 0 }
}

/// The colour squares are drawn in: white.
pub open spec fn foreground() -> Color {
    Color { r: 255, g: 255, b: 255 }
}

/// The rectangle that shows a square.
pub open spec fn rect_of(c: Cube) -> Rect {
    Rect { x: c.x, y: c.y, width: c.size, height: c.size }
}

/// A frame: clear to black, then draw each entity's square in white, in order,
/// then present.
pub open spec fn frame_commands(entities: Seq<Entity>) -> Seq<DrawCommand> {
    seq![DrawCommand::SetColor(background()), DrawCommand::Clear, DrawCommand::SetColor(foreground())]
        + entities.map_values(|e: Entity| DrawCommand::FillRect(rect_of(e.cube)))
        + seq![DrawCommand::Present]
}

/// A frame draws exactly one rectangle per entity, the `i`-th at the `i`-th
/// entity's position and with its size, and presents once, at the end.
pub proof fn lemma_one_rect_per_entity(entities: Seq<Entity>)
    ensures
        frame_commands(entities).len() == entities.len() + 4,
        forall|k: int|
            0 <= k < frame_commands(entities).len() ==> (#[trigger] frame_commands(entities)[k] is FillRect
                <==> 3 <= k < 3 + entities.len()),
        forall|i: int|
            0 <= i < entities.len() ==> #[trigger] frame_commands(entities)[3 + i]
                == DrawCommand::FillRect(rect_of(entities[i].cube)),
        frame_commands(entities).last() == DrawCommand::Present,
{
}

/// The rectangle that shows a square.
pub fn rect_for(c: &Cube) -> (r: Rect)
    ensures
        r == rect_of(*c),
{
    Rect { x: c.x, y: c.y, width: c.size, height: c.size }
}

/// The draw commands of one frame of `world`.
pub fn run(world: &World) -> (r: Vec<DrawCommand>)
    ensures
        r@ == frame_commands(world.entities@),
{
    let mut cmds: Vec<DrawCommand> = Vec::new();
    cmds.push(DrawCommand::SetColor(Color { r: 0, g: 0, b: 0 }));
    cmds.push(DrawCommand::Clear);
    cmds.push(DrawCommand::SetColor(Color { r: 255, g: 255, b: 255 }));
    let n = world.entities.len();
    let mut i: usize = 0;
    while i < n
        invariant
            0 <= i <= n,
            n == world.entities@.len(),
            cmds@ == seq![
                DrawCommand::SetColor(background()),
                DrawCommand::Clear,
                DrawCommand::SetColor(foreground()),
            ] + world.entities@.subrange(0, i as int).map_values(
                |e: Entity| DrawCommand::FillRect(rect_of(e.cube)),
            ),
        decreases n - i,
    {
        cmds.push(DrawCommand::FillRect(rect_for(&world.entities[i].cube)));
        proof {
            assert(world.entities@.subrange(0, i + 1) =~= world.entities@.subrange(0, i as int).push(
                world.entities@[i as int],
            ));
        }
        i = i + 1;
        proof {
            assert(cmds@ =~= seq![
                DrawCommand::SetColor(background()),
                DrawCommand::Clear,
                DrawCommand::SetColor(foreground()),
            ] + world.entities@.subrange(0, i as int).map_values(
                |e: Entity| DrawCommand::FillRect(rect_of(e.cube)),
            ));
        }
    }
    cmds.push(DrawCommand::Present);
    assert(world.entities@.subrange(0, n as int) =~= world.entities@);
    assert(cmds@ =~= frame_commands(world.entities@));
    cmds
}

} // verus!
