//! The frame controller: what the viewer does about each event of its window,
//! and what one redraw consists of.
//!
//! The controller owns the input record, the frame-rate clock and the volume.
//! It never touches the window or the renderer: for every event it says what
//! is to be done, and the event loop does it. A redraw goes in three parts.
//! `begin_frame` hands out the steps to apply to the camera's position, in
//! order, and after them the pointer motion that turns the camera; the
//! renderer then draws with the camera and the volume's texture; `end_frame`
//! counts the frame and gives the number to show.

use crate::clock::after_frame;
use crate::clock::nanos_between;
use crate::clock::ClockModel;
use crate::clock::FPS;
use crate::input::CursorAction;
use crate::input::InputModel;
use crate::input::InputState;
use crate::input::Key;
use crate::input::spec_held;
use crate::input::NO_MOTION;
use crate::motion::held_directions;
use crate::motion::movement_steps;
use crate::motion::Direction;
use crate::volume::TexelFormat;
use crate::volume::TextureDescriptor;
use crate::volume::VoxelData;
use crate::volume::HEIGHT;
use crate::volume::LENGTH;
use crate::volume::SAMPLES;
use crate::volume::WIDTH;
use vstd::prelude::*;

verus! {

/// An event of the viewer's window, reduced to what the controller reads.
#[derive(Clone, Copy, Debug, PartialEq, Eq, Structural)]
pub enum Event {
    /// The user asked to close the window.
    CloseRequested,
    /// The window is to be drawn again.
    RedrawRequested,
    /// The event queue is empty.
    AboutToWait,
    /// The pointer moved to `(dx, dy)` from the window's centre, as bit
    /// patterns of single-precision numbers; `focused` tells whether the
    /// window has the input focus.
    CursorMoved { focused: bool, dx: u32, dy: u32 },
    /// A key went down (`pressed`) or came up.
    KeyboardInput { key: Key, pressed: bool },
    /// Anything else.
    Other,
}

/// What the event loop is to do after an event.
#[derive(Clone, Copy, Debug, PartialEq, Eq, Structural)]
pub enum Action {
    /// Leave the event loop.
    Exit,
    /// Ask the window for a redraw.
    RequestRedraw,
    /// Draw one frame: `begin_frame`, render, `end_frame`.
    Render,
    /// Show the pointer, or hide and recentre it.
    Cursor(CursorAction),
    /// Nothing.
    Nothing,
}

/// What the controller asks of the event loop for `event`.
pub open spec fn action_for(event: Event) -> Action {
    match event {
        Event::CloseRequested => Action::Exit,
        Event::RedrawRequested => Action::Render,
        Event::AboutToWait => Action::RequestRedraw,
        Event::CursorMoved { focused, dx, dy } => Action::Cursor(
            if focused {
                CursorAction::HideAndRecentre
            } else {
                CursorAction::Show
            },
        ),
        Event::KeyboardInput { key, pressed } => Action::Nothing,
        Event::Other => Action::Nothing,
    }
}

/// The input record after `event`: a key event records the key, a pointer
/// motion replaces the stored one while the window has focus, and nothing
/// else leaves a trace.
pub open spec fn input_after(input: InputModel, event: Event) -> InputModel {
    match event {
        Event::KeyboardInput { key, pressed } => InputModel {
            keys: input.keys.insert(key, pressed),
            ..input
        },
        Event::CursorMoved { focused, dx, dy } => if focused {
            InputModel { mouse_delta: (dx, dy), ..input }
        } else {
            input
        },
        _ => input,
    }
}

/// The camera's part of one frame.
pub struct Frame {
    /// The steps to apply to the camera's position, in this order. The
    /// look-at point is recomputed after the last of them.
    pub steps: Vec<Direction>,
    /// The pointer motion that turns the camera once the look-at point has
    /// been recomputed: the first part goes to the yaw, the second to the
    /// pitch.
    pub mouse_delta: (u32, u32),
}

/// What a `FrameController` stands for.
pub ghost struct ControllerModel {
    pub input: InputModel,
    pub clock: ClockModel,
    pub volume: Seq<u32>,
}

/// The state of the viewer between events.
pub struct FrameController {
    input: InputState,
    clock: FPS,
    volume: VoxelData,
}

impl View for FrameController {
    type V = ControllerModel;

    closed spec fn view(&self) -> ControllerModel {
        ControllerModel { input: self.input@, clock: self.clock@, volume: self.volume@ }
    }
}

impl FrameController {
    /// A controller for `volume` with no key held, no pointer motion and a
    /// clock that starts now.
    pub fn new(volume: VoxelData) -> (controller: FrameController)
        ensures
            controller@.volume == volume@,
            controller@.input.keys == Map::<Key, bool>::empty(),
            controller@.input.mouse_delta == (NO_MOTION, NO_MOTION),
            controller@.clock.frame_count == 0,
            controller@.clock.fps.frames == 0,
            controller@.clock.fps.nanos == 0,
    {
        FrameController { input: InputState::new(), clock: FPS::new(), volume }
    }

    /// Takes note of `event` and says what the event loop is to do about it.
    /// Only the input record can change, and only by a key event or by a
    /// pointer motion.
    pub fn handle(&mut self, event: Event) -> (action: Action)
        ensures
            action == action_for(event),
            final(self)@.input == input_after(old(self)@.input, event),
            final(self)@.clock == old(self)@.clock,
            final(self)@.volume == old(self)@.volume,
    {
        match event {
            Event::CloseRequested => Action::Exit,
            Event::RedrawRequested => Action::Render,
            Event::AboutToWait => Action::RequestRedraw,
            Event::CursorMoved { focused, dx, dy } => {
                let moved = self.input.cursor_moved(focused, dx, dy);
                Action::Cursor(moved)
            },
            Event::KeyboardInput { key, pressed } => {
                self.input.set_pressed(key, pressed);
                Action::Nothing
            },
            Event::Other => Action::Nothing,
        }
    }

    /// Starts a frame: the steps that the held keys ask for, and the pointer
    /// motion since the last frame, which is handed out once and then
    /// forgotten.
    pub fn begin_frame(&mut self) -> (frame: Frame)
        ensures
            frame.steps@ == held_directions(old(self)@.input.keys),
            frame.mouse_delta == old(self)@.input.mouse_delta,
            final(self)@.input.keys == old(self)@.input.keys,
            final(self)@.input.mouse_delta == (NO_MOTION, NO_MOTION),
            final(self)@.clock == old(self)@.clock,
            final(self)@.volume == old(self)@.volume,
    {
        let steps = movement_steps(&self.input);
        let mouse_delta = self.input.take_mouse_delta();
        Frame { steps, mouse_delta }
    }

    /// Describes the volume for upload as a 3D texture.
    pub fn texture(&self) -> (desc: TextureDescriptor<'_>)
        ensures
            desc.data@ == self@.volume,
            desc.width == WIDTH,
            desc.height == HEIGHT,
            desc.depth == LENGTH,
            desc.format == TexelFormat::FloatRgba,
            desc.data@.len() == SAMPLES,
    {
        self.volume.texture()
    }

    /// Whether a key is held.
    pub fn is_pressed(&self, key: Key) -> (pressed: bool)
        ensures
            pressed == spec_held(self@.input.keys, key),
    {
        self.input.is_pressed(key)
    }

    /// Frames counted since the rate was last measured. `end_frame` needs
    /// room for one more.
    pub fn frame_count(&self) -> (count: u32)
        ensures
            count == self@.clock.frame_count,
    {
        self.clock.frame_count()
    }

    /// Ends a frame: counts it on the clock and gives the whole frames per
    /// second to show, as last measured.
    pub fn end_frame(&mut self) -> (shown: u64)
        requires
            old(self)@.clock.frame_count < u32::MAX,
        ensures
            exists|now: std::time::Instant|
                final(self)@.clock == #[trigger] after_frame(
                    old(self)@.clock,
                    now,
                    nanos_between(now, old(self)@.clock.last_fps_update),
                ),
            shown == final(self)@.clock.fps.spec_floor(),
            final(self)@.input == old(self)@.input,
            final(self)@.volume == old(self)@.volume,
    {
        self.clock.calculate();
        self.clock.fps().floor()
    }
}

/// A key that is pressed and then released is not held afterwards, whatever
/// happened before and whatever event comes in between, so long as that one
/// is no key event of the same key. Until the release the key is held.
pub proof fn lemma_release_wins(input: InputModel, key: Key, between: Event)
    requires
        !(between matches Event::KeyboardInput { key: k, pressed } && k == key),
    ensures
        !spec_held(
            input_after(
                input_after(
                    input_after(input, Event::KeyboardInput { key, pressed: true }),
                    between,
                ),
                Event::KeyboardInput { key, pressed: false },
            ).keys,
            key,
        ),
        spec_held(
            input_after(
                input_after(input, Event::KeyboardInput { key, pressed: true }),
                between,
            ).keys,
            key,
        ),
{
}

/// A pointer motion without focus leaves no trace: the frame that follows
/// turns the camera by what was stored before.
pub proof fn lemma_unfocused_motion_is_ignored(input: InputModel, dx: u32, dy: u32)
    ensures
        input_after(input, Event::CursorMoved { focused: false, dx, dy }) == input,
        input_after(input, Event::CursorMoved { focused: true, dx, dy }).mouse_delta == (dx, dy),
        input_after(input, Event::CursorMoved { focused: true, dx, dy }).keys == input.keys,
{
}

} // verus!
