use vstd::prelude::*;

verus! {

/// The logical movement keys that are held during one frame.
#[derive(Clone, Copy, Debug, PartialEq, Eq, Structural)]
pub struct HeldKeys {
    pub forward: bool,
    pub back: bool,
    pub left: bool,
    pub right: bool,
    pub up: bool,
    pub down: bool,
    pub run: bool,
}

/// A movement direction in camera-local terms, one step per axis.
///
/// `x` runs left (-1) to right (+1), `y` down (-1) to up (+1) in world space,
/// and `z` forward (-1) to back (+1), the camera looking down its local -Z.
#[derive(Clone, Copy, Debug, PartialEq, Eq, Structural)]
pub struct MoveAxis {
    pub x: i8,
    pub y: i8,
    pub z: i8,
}

/// The contribution of a pair of opposing keys: +1, -1, or 0 when both or
/// neither are held.
pub open spec fn axis_value(neg: bool, pos: bool) -> int {
    (if pos { 1int } else { 0int }) - (if neg { 1int } else { 0int })
}

/// The movement direction that a set of held keys asks for.
pub open spec fn axis_of(keys: HeldKeys) -> MoveAxis {
    MoveAxis {
        x: axis_value(keys.left, keys.right) as i8,
        y: axis_value(keys.down, keys.up) as i8,
        z: axis_value(keys.forward, keys.back) as i8,
    }
}

impl HeldKeys {
    /// No key held at all.
    pub fn none() -> (r: HeldKeys)
        ensures
            !r.forward && !r.back && !r.left && !r.right && !r.up && !r.down && !r.run,
    {
        HeldKeys {
            forward: false,
            back: false,
            left: false,
            right: false,
            up: false,
            down: false,
            run: false,
        }
    }
}

impl MoveAxis {
    /// Each component is one of -1, 0 and +1.
    pub open spec fn unit_steps(self) -> bool {
        &&& -1 <= self.x <= 1
        &&& -1 <= self.y <= 1
        &&& -1 <= self.z <= 1
    }

    /// The number of axes that are not zero, which for unit steps is the
    /// squared length.
    pub open spec fn len_sq_spec(self) -> int {
        (if self.x != 0 { 1int } else { 0int }) + (if self.y != 0 { 1int } else { 0int }) + (
        if self.z != 0 { 1int } else { 0int })
    }

    /// The direction of no movement.
    pub fn zero() -> (r: MoveAxis)
        ensures
            r.x == 0 && r.y == 0 && r.z == 0,
    {
        MoveAxis { x: 0, y: 0, z: 0 }
    }

    /// The squared length of a direction of unit steps. The host divides by
    /// its square root to normalise the direction.
    pub fn len_sq(&self) -> (r: u8)
        ensures
            r == self.len_sq_spec(),
            r <= 3,
    {
        let mut n: u8 = 0;
        if self.x != 0 {
            n = n + 1;
        }
        if self.y != 0 {
            n = n + 1;
        }
        if self.z != 0 {
            n = n + 1;
        }
        n
    }

    /// Whether the direction is zero, in which case it must not be normalised.
    pub fn is_zero(&self) -> (r: bool)
        ensures
            r == (self.x == 0 && self.y == 0 && self.z == 0),
    {
        self.x == 0 && self.y == 0 && self.z == 0
    }
}

fn pair_step(neg: bool, pos: bool) -> (r: i8)
    ensures
        r == axis_value(neg, pos),
{
    if pos == neg {
        0
    } else if pos {
        1
    } else {
        -1
    }
}

/// Turns the held keys into a movement direction: forward and back map to
/// local -Z and +Z, left and right to local -X and +X, up and down to world
/// +Y and -Y. Opposing keys held together cancel.
pub fn axis_from_keys(keys: &HeldKeys) -> (r: MoveAxis)
    ensures
        r == axis_of(*keys),
        r.unit_steps(),
{
    MoveAxis {
        x: pair_step(keys.left, keys.right),
        y: pair_step(keys.down, keys.up),
        z: pair_step(keys.forward, keys.back),
    }
}

/// Holding both keys of an opposing pair gives that axis no movement, and
/// holding both keys of every pair gives no movement at all.
pub proof fn lemma_opposing_keys_cancel(keys: HeldKeys)
    ensures
        keys.forward && keys.back ==> axis_of(keys).z == 0,
        keys.left && keys.right ==> axis_of(keys).x == 0,
        keys.up && keys.down ==> axis_of(keys).y == 0,
        (keys.forward == keys.back && keys.left == keys.right && keys.up == keys.down)
            ==> axis_of(keys).len_sq_spec() == 0,
{
}

} // verus!
