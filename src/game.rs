use vstd::prelude::*;
use crate::physics;
use crate::physics::stepped;
use crate::render;
use crate::render::{DrawCommand, frame_commands};
use crate::world::{Entity, World};

verus! {

/// Pause between frames, in nanoseconds: a cap of sixty frames per second.
pub const FRAME_NANOS: u32 = 16666666;

/// The keys the loop tells apart.
#[derive(Clone, Copy, Debug, PartialEq, Eq)]
pub enum Key {
    Escape,
    Other,
}

/// An input event, as far as the loop cares.
#[derive(Clone, Copy, Debug, PartialEq, Eq)]
pub enum InputEvent {
    /// The window was asked to close.
    Quit,
    /// A key went down; `None` when the key has no known code.
    KeyDown(Option<Key>),
    Other,
}

#[derive(Clone, Copy, Debug, PartialEq, Eq, Structural)]
pub enum LoopState {
    Running,
    Stopped,
}

/// What the loop does with the current frame.
#[derive(Debug)]
pub enum Frame {
    /// Leave the loop; nothing more is stepped or drawn.
    Stop,
    /// Carry out these draw commands, pause, and go on.
    Draw(Vec<DrawCommand>),
}

/// The events that end the loop: a quit request or the escape key going down.
pub open spec fn ends_loop(e: InputEvent) -> bool {
    e == InputEvent::Quit || e == InputEvent::KeyDown(Some(Key::Escape))
}

pub open spec fn state_after(s: LoopState, e: InputEvent) -> LoopState {
    if s == LoopState::Stopped || ends_loop(e) {
        LoopState::Stopped
    } else {
        LoopState::Running
    }
}

pub open spec fn stop_requested(events: Seq<InputEvent>) -> bool {
    exists|i: int| 0 <= i < events.len() && #[trigger] ends_loop(events[i])
}

/// The loop's transition on one event.
pub fn next_state(s: LoopState, e: InputEvent) -> (r: LoopState)
    ensures
        r == state_after(s, e),
{
    match (s, e) {
        (LoopState::Stopped, _) => LoopState::Stopped,
        (_, InputEvent::Quit) => LoopState::Stopped,
        (_, InputEvent::KeyDown(Some(Key::Escape))) => LoopState::Stopped,
        _ => LoopState::Running,
    }
}

/// A quit request and the escape key going down both stop a running loop, and
/// a stopped loop stays stopped whatever comes.
pub proof fn lemma_escape_and_quit_stop(s: LoopState, e: InputEvent)
    ensures
        state_after(LoopState::Running, InputEvent::KeyDown(Some(Key::Escape)))
            == LoopState::Stopped,
        state_after(s, InputEvent::Quit) == state_after(s, InputEvent::KeyDown(Some(Key::Escape))),
        state_after(LoopState::Stopped, e) == LoopState::Stopped,
{
}

/// Any batch of events that holds a quit request or an escape key-down asks the
/// loop to stop, wherever in the batch it comes.
pub proof fn lemma_stop_anywhere(events: Seq<InputEvent>, i: int)
    requires
        0 <= i < events.len(),
        ends_loop(events[i]),
    ensures
        stop_requested(events),
{
}

/// One pass of the loop over the events polled for this frame: if one of them
/// ends the loop, the world is left as it is and nothing is drawn; otherwise the
/// world takes one physics step and the new frame is drawn.
pub fn tick(world: &mut World, events: &Vec<InputEvent>) -> (r: Frame)
    requires
        old(world).wf(),
    ensures
        final(world).wf(),
        stop_requested(events@) ==> r is Stop && *final(world) == *old(world),
        !stop_requested(events@) ==> {
            &&& final(world).width == old(world).width
            &&& final(world).height == old(world).height
            &&& final(world).entities@ == old(world).entities@.map_values(
                |e: Entity| stepped(e, old(world).width as int, old(world).height as int),
            )
            &&& r matches Frame::Draw(cmds) && cmds@ == frame_commands(final(world).entities@)
        },
{
    let mut state = LoopState::Running;
    let n = events.len();
    let mut i: usize = 0;
    while i < n
        invariant
            0 <= i <= n,
            n == events@.len(),
            state == LoopState::Stopped <==> exists|j: int|
                0 <= j < i && #[trigger] ends_loop(events@[j]),
        decreases n - i,
    {
        state = next_state(state, events[i]);
        i = i + 1;
    }
    if state == LoopState::Stopped {
        return Frame::Stop;
    }
    physics::run(world);
    Frame::Draw(render::run(world))
}

} // verus!
