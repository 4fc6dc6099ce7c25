//! What one frame does to the camera: which way the held keys move it, in
//! which order, and by what fraction of the view vectors.
//!
//! The arithmetic on the camera's position is the renderer's business. This
//! module decides the steps: for each movement key that is held, one step
//! along the camera's front vector, along its right vector or straight up,
//! forwards or backwards, always a `CAMERA_SPEED`-th of that vector.

use crate::input::spec_held;
use crate::input::InputState;
use crate::input::Key;
use crate::volume::HEIGHT;
use vstd::prelude::*;

verus! {

/// A step moves the camera by the chosen vector divided by this.
pub const CAMERA_SPEED: u32 = 10;

/// A pointer motion turns the camera by the motion divided by this, in
/// radians: the horizontal motion is added to the yaw, the vertical one to
/// the pitch.
pub const MOUSE_SENSITIVITY: u32 = 800;

/// Height at which the camera starts, over the grid's corner at the origin:
/// three units above the top layer.
pub const START_HEIGHT: usize = HEIGHT + 3;

/// Width of the rendered image, in pixels.
pub const RESOLUTION_X: u32 = 1280;

/// Height of the rendered image, in pixels.
pub const RESOLUTION_Y: u32 = 720;

/// The vector a step goes along.
#[derive(Clone, Copy, Debug, PartialEq, Eq, Structural)]
pub enum Axis {
    /// The direction the camera looks in.
    Front,
    /// The cross product of the world's up vector with the front vector, in
    /// this order and not normalised afterwards.
    Right,
    /// The world's up vector: a step changes the height only.
    Vertical,
}

/// One of the six ways the keys move the camera.
#[derive(Clone, Copy, Debug, PartialEq, Eq, Structural)]
pub enum Direction {
    Forward,
    Left,
    Back,
    Right,
    Up,
    Down,
}

impl Direction {
    /// The key that is bound to this direction.
    pub open spec fn spec_key(self) -> Key {
        match self {
            Direction::Forward => Key::W,
            Direction::Left => Key::A,
            Direction::Back => Key::S,
            Direction::Right => Key::D,
            Direction::Up => Key::Space,
            Direction::Down => Key::ShiftLeft,
        }
    }

    /// The key that is bound to this direction.
    pub fn key(self) -> (key: Key)
        ensures
            key == self.spec_key(),
    {
        match self {
            Direction::Forward => Key::W,
            Direction::Left => Key::A,
            Direction::Back => Key::S,
            Direction::Right => Key::D,
            Direction::Up => Key::Space,
            Direction::Down => Key::ShiftLeft,
        }
    }

    /// The vector a step in this direction goes along.
    pub open spec fn spec_axis(self) -> Axis {
        match self {
            Direction::Forward | Direction::Back => Axis::Front,
            Direction::Left | Direction::Right => Axis::Right,
            Direction::Up | Direction::Down => Axis::Vertical,
        }
    }

    /// The vector a step in this direction goes along.
    pub fn axis(self) -> (axis: Axis)
        ensures
            axis == self.spec_axis(),
    {
        match self {
            Direction::Forward | Direction::Back => Axis::Front,
            Direction::Left | Direction::Right => Axis::Right,
            Direction::Up | Direction::Down => Axis::Vertical,
        }
    }

    /// Whether a step in this direction adds the vector to the position
    /// (forward, right, up) or subtracts it (back, left, down).
    pub open spec fn spec_adds(self) -> bool {
        match self {
            Direction::Forward | Direction::Right | Direction::Up => true,
            Direction::Back | Direction::Left | Direction::Down => false,
        }
    }

    /// Whether a step in this direction adds the vector to the position or
    /// subtracts it.
    pub fn adds(self) -> (adds: bool)
        ensures
            adds == self.spec_adds(),
    {
        match self {
            Direction::Forward | Direction::Right | Direction::Up => true,
            Direction::Back | Direction::Left | Direction::Down => false,
        }
    }
}

/// The step that `direction` contributes to a frame: one step where its key
/// is held, none where it is not.
pub open spec fn step_if_held(keys: Map<Key, bool>, direction: Direction) -> Seq<Direction> {
    if spec_held(keys, direction.spec_key()) {
        seq![direction]
    } else {
        Seq::empty()
    }
}

/// The steps of one frame, in the order in which they are applied: forward,
/// left, back, right, up, down, each only where its key is held.
pub open spec fn held_directions(keys: Map<Key, bool>) -> Seq<Direction> {
    step_if_held(keys, Direction::Forward) + step_if_held(keys, Direction::Left) + step_if_held(
        keys,
        Direction::Back,
    ) + step_if_held(keys, Direction::Right) + step_if_held(keys, Direction::Up) + step_if_held(
        keys,
        Direction::Down,
    )
}

/// Appends the step of `direction` where its key is held.
fn push_if_held(steps: &mut Vec<Direction>, input: &InputState, direction: Direction)
    ensures
        final(steps)@ == old(steps)@ + step_if_held(input@.keys, direction),
{
    if input.is_pressed(direction.key()) {
        steps.push(direction);
    }
}

/// The steps that the held keys ask for in this frame, in the order in which
/// they are to be applied to the camera's position.
pub fn movement_steps(input: &InputState) -> (steps: Vec<Direction>)
    ensures
        steps@ == held_directions(input@.keys),
{
    let mut steps: Vec<Direction> = Vec::new();
    push_if_held(&mut steps, input, Direction::Forward);
    push_if_held(&mut steps, input, Direction::Left);
    push_if_held(&mut steps, input, Direction::Back);
    push_if_held(&mut steps, input, Direction::Right);
    push_if_held(&mut steps, input, Direction::Up);
    push_if_held(&mut steps, input, Direction::Down);
    assert(Seq::<Direction>::empty() + step_if_held(input@.keys, Direction::Forward)
        =~= step_if_held(input@.keys, Direction::Forward));
    steps
}

/// Every step of a frame belongs to a held key, no direction steps twice,
/// and a direction whose key is held does step.
pub proof fn lemma_steps_follow_keys(keys: Map<Key, bool>, direction: Direction)
    ensures
        held_directions(keys).contains(direction) <==> spec_held(keys, direction.spec_key()),
        held_directions(keys).len() <= 6,
        held_directions(keys).no_duplicates(),
{
    let f = step_if_held(keys, Direction::Forward);
    let l = step_if_held(keys, Direction::Left);
    let b = step_if_held(keys, Direction::Back);
    let r = step_if_held(keys, Direction::Right);
    let u = step_if_held(keys, Direction::Up);
    let d = step_if_held(keys, Direction::Down);
    let all = held_directions(keys);
    assert(all == f + l + b + r + u + d);
    lemma_single_steps_chain(f, l, b, r, u, d, direction);
    lemma_step_membership(keys, Direction::Forward, direction);
    lemma_step_membership(keys, Direction::Left, direction);
    lemma_step_membership(keys, Direction::Back, direction);
    lemma_step_membership(keys, Direction::Right, direction);
    lemma_step_membership(keys, Direction::Up, direction);
    lemma_step_membership(keys, Direction::Down, direction);
}

/// The step of one direction holds that direction, where its key is held,
/// and nothing else.
proof fn lemma_step_membership(keys: Map<Key, bool>, part: Direction, direction: Direction)
    ensures
        step_if_held(keys, part).contains(direction) <==> (part == direction && spec_held(
            keys,
            part.spec_key(),
        )),
{
    let step = step_if_held(keys, part);
    if spec_held(keys, part.spec_key()) {
        assert(step[0] == part);
    }
}

/// Membership and distinctness in a chain of at most one-element sequences
/// of distinct directions.
proof fn lemma_single_steps_chain(
    f: Seq<Direction>,
    l: Seq<Direction>,
    b: Seq<Direction>,
    r: Seq<Direction>,
    u: Seq<Direction>,
    d: Seq<Direction>,
    direction: Direction,
)
    requires
        f == seq![Direction::Forward] || f == Seq::<Direction>::empty(),
        l == seq![Direction::Left] || l == Seq::<Direction>::empty(),
        b == seq![Direction::Back] || b == Seq::<Direction>::empty(),
        r == seq![Direction::Right] || r == Seq::<Direction>::empty(),
        u == seq![Direction::Up] || u == Seq::<Direction>::empty(),
        d == seq![Direction::Down] || d == Seq::<Direction>::empty(),
    ensures
        (f + l + b + r + u + d).len() <= 6,
        (f + l + b + r + u + d).no_duplicates(),
        (f + l + b + r + u + d).contains(direction) <==> (f.contains(direction) || l.contains(
            direction,
        ) || b.contains(direction) || r.contains(direction) || u.contains(direction) || d.contains(
            direction,
        )),
{
    let all = f + l + b + r + u + d;
    assert forall|i: int, j: int| 0 <= i < all.len() && 0 <= j < all.len() && i != j implies all[i]
        != all[j] by {
        lemma_chain_element(f, l, b, r, u, d, i);
        lemma_chain_element(f, l, b, r, u, d, j);
    }
    if all.contains(direction) {
        let i = choose|i: int| 0 <= i < all.len() && all[i] == direction;
        lemma_chain_element(f, l, b, r, u, d, i);
    }
    if f.contains(direction) {
        assert(all[0] == direction);
    }
    if l.contains(direction) {
        assert(all[f.len() as int] == direction);
    }
    if b.contains(direction) {
        assert(all[(f.len() + l.len()) as int] == direction);
    }
    if r.contains(direction) {
        assert(all[(f.len() + l.len() + b.len()) as int] == direction);
    }
    if u.contains(direction) {
        assert(all[(f.len() + l.len() + b.len() + r.len()) as int] == direction);
    }
    if d.contains(direction) {
        assert(all[(f.len() + l.len() + b.len() + r.len() + u.len()) as int] == direction);
    }
}

/// Where element `k` of a chain of six sequences comes from: the part that
/// `k` falls into, at `k` less the lengths of the parts before it.
proof fn lemma_chain_element(
    f: Seq<Direction>,
    l: Seq<Direction>,
    b: Seq<Direction>,
    r: Seq<Direction>,
    u: Seq<Direction>,
    d: Seq<Direction>,
    k: int,
)
    requires
        0 <= k < (f + l + b + r + u + d).len(),
    ensures
        (f + l + b + r + u + d)[k] == (if k < f.len() {
            f[k]
        } else if k < f.len() + l.len() {
            l[k - f.len()]
        } else if k < f.len() + l.len() + b.len() {
            b[k - f.len() - l.len()]
        } else if k < f.len() + l.len() + b.len() + r.len() {
            r[k - f.len() - l.len() - b.len()]
        } else if k < f.len() + l.len() + b.len() + r.len() + u.len() {
            u[k - f.len() - l.len() - b.len() - r.len()]
        } else {
            d[k - f.len() - l.len() - b.len() - r.len() - u.len()]
        }),
{
}

/// A key that is bound to no direction moves nothing, held or not.
pub proof fn lemma_unbound_key_moves_nothing(keys: Map<Key, bool>, code: u32, pressed: bool)
    ensures
        held_directions(keys.insert(Key::Other(code), pressed)) == held_directions(keys),
{
}

} // verus!
