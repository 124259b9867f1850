//! Keyboard and mouse signals, as the host reports them: the set of virtual
//! key codes held down, and the cursor position.
use vstd::prelude::*;

verus! {

/// Move forward.
pub const VK_I: i32 = 0x49;
/// Move left.
pub const VK_J: i32 = 0x4A;
/// Move backward.
pub const VK_K: i32 = 0x4B;
/// Move right.
pub const VK_L: i32 = 0x4C;
/// Move up.
pub const VK_U: i32 = 0x55;
/// Move down.
pub const VK_O: i32 = 0x4F;
/// Toggle mouse look.
pub const VK_M: i32 = 0x4D;
/// Toggle the camera-write patch.
pub const VK_P: i32 = 0x50;
/// Page Up: faster.
pub const VK_PRIOR: i32 = 0x21;
/// Page Down: slower.
pub const VK_NEXT: i32 = 0x22;

/// Whether `vk_code` is among the keys held down.
pub fn is_key_pressed(pressed: &[i32], vk_code: i32) -> (r: bool)
    ensures
        r == pressed@.contains(vk_code),
{
    let mut i: usize = 0;
    while i < pressed.len()
        invariant
            i <= pressed@.len(),
            forall|k: int| 0 <= k < i ==> pressed@[k] != vk_code,
        decreases pressed@.len() - i,
    {
        if pressed[i] == vk_code {
            assert(pressed@[i as int] == vk_code);
            return true;
        }
        i += 1;
    }
    false
}

/// The speed signal of the held keys: `1` to speed up (Page Up wins when both
/// are held), `-1` to slow down, `0` for neither.
pub open spec fn speed_delta_of(pressed: Seq<i32>) -> int {
    if pressed.contains(VK_PRIOR) {
        1
    } else if pressed.contains(VK_NEXT) {
        -1
    } else {
        0
    }
}

pub fn get_speed_delta(pressed: &[i32]) -> (r: i32)
    ensures
        r == speed_delta_of(pressed@),
{
    if is_key_pressed(pressed, VK_PRIOR) {
        1
    } else if is_key_pressed(pressed, VK_NEXT) {
        -1
    } else {
        0
    }
}

/// `speed` along an axis with a key for each way: one key gives its sign,
/// both or neither cancel out.
pub open spec fn axis(positive: bool, negative: bool, speed: int) -> int {
    (if positive { speed } else { 0 }) - (if negative { speed } else { 0 })
}

fn axis_exec(positive: bool, negative: bool, speed: u32) -> (r: i64)
    ensures
        r == axis(positive, negative, speed as int),
{
    let mut d: i64 = 0;
    if positive {
        d = d + speed as i64;
    }
    if negative {
        d = d - speed as i64;
    }
    d
}

/// Which movement keys are held.
#[derive(Clone, Copy, Debug, PartialEq, Eq, Structural)]
pub struct MovementInput {
    pub forward: bool,
    pub backward: bool,
    pub left: bool,
    pub right: bool,
    pub up: bool,
    pub down: bool,
}

impl MovementInput {
    pub fn new() -> (r: MovementInput)
        ensures
            !r.forward && !r.backward && !r.left && !r.right && !r.up && !r.down,
    {
        MovementInput {
            forward: false,
            backward: false,
            left: false,
            right: false,
            up: false,
            down: false,
        }
    }

    /// Takes the movement keys from the keys held: I and K forward and back,
    /// J and L left and right, U and O up and down.
    pub fn read_input(&mut self, pressed: &[i32])
        ensures
            final(self).forward == pressed@.contains(VK_I),
            final(self).backward == pressed@.contains(VK_K),
            final(self).left == pressed@.contains(VK_J),
            final(self).right == pressed@.contains(VK_L),
            final(self).up == pressed@.contains(VK_U),
            final(self).down == pressed@.contains(VK_O),
    {
        self.forward = is_key_pressed(pressed, VK_I);
        self.backward = is_key_pressed(pressed, VK_K);
        self.left = is_key_pressed(pressed, VK_J);
        self.right = is_key_pressed(pressed, VK_L);
        self.up = is_key_pressed(pressed, VK_U);
        self.down = is_key_pressed(pressed, VK_O);
    }

    pub open spec fn any(&self) -> bool {
        self.forward || self.backward || self.left || self.right || self.up || self.down
    }

    pub fn has_movement(&self) -> (r: bool)
        ensures
            r == self.any(),
    {
        self.forward || self.backward || self.left || self.right || self.up || self.down
    }

    /// The camera-local movement for `speed`, as (right, up, forward)
    /// components: J moves along the positive right axis, L along the negative.
    pub fn get_movement_vector(&self, speed: u32) -> (r: (i64, i64, i64))
        ensures
            r.0 == axis(self.left, self.right, speed as int),
            r.1 == axis(self.up, self.down, speed as int),
            r.2 == axis(self.forward, self.backward, speed as int),
    {
        (
            axis_exec(self.left, self.right, speed),
            axis_exec(self.up, self.down, speed),
            axis_exec(self.forward, self.backward, speed),
        )
    }

    /// The world-axis movement for `speed`, as (x, y, z) components: L moves
    /// along positive x, J along negative x.
    pub fn world_offset(&self, speed: u32) -> (r: (i64, i64, i64))
        ensures
            r.0 == axis(self.right, self.left, speed as int),
            r.1 == axis(self.up, self.down, speed as int),
            r.2 == axis(self.forward, self.backward, speed as int),
    {
        (
            axis_exec(self.right, self.left, speed),
            axis_exec(self.up, self.down, speed),
            axis_exec(self.forward, self.backward, speed),
        )
    }
}

/// One sample of mouse look: the cursor's offset from the screen centre in
/// pixels, and whether the cursor is to be put back at the centre.
#[derive(Clone, Copy, Debug, PartialEq, Eq, Structural)]
pub struct MouseSample {
    pub dx: i64,
    pub dy: i64,
    pub recenter: bool,
}

/// Mouse look: the cursor is kept near the screen centre and its offset from
/// there is the look delta.
#[derive(Clone, Copy, Debug)]
pub struct MouseHandler {
    screen_center_x: i32,
    screen_center_y: i32,
    enabled: bool,
}

/// Absolute value, as an integer.
pub open spec fn abs(v: int) -> int {
    if v < 0 {
        -v
    } else {
        v
    }
}

/// Half of `v`, rounded toward zero.
pub open spec fn half(v: int) -> int {
    if v >= 0 {
        v / 2
    } else {
        -((-v) / 2)
    }
}

impl MouseHandler {
    pub closed spec fn center(&self) -> (int, int) {
        (self.screen_center_x as int, self.screen_center_y as int)
    }

    pub closed spec fn enabled(&self) -> bool {
        self.enabled
    }

    /// A disabled handler for a screen of the given size.
    pub fn new(screen_width: i32, screen_height: i32) -> (r: MouseHandler)
        ensures
            r.center() == (half(screen_width as int), half(screen_height as int)),
            !r.enabled(),
    {
        MouseHandler {
            screen_center_x: screen_width / 2,
            screen_center_y: screen_height / 2,
            enabled: false,
        }
    }

    /// Turns mouse look on; the host puts the cursor at `screen_center`.
    pub fn enable(&mut self)
        ensures
            final(self).enabled(),
            final(self).center() == old(self).center(),
    {
        self.enabled = true;
    }

    pub fn disable(&mut self)
        ensures
            !final(self).enabled(),
            final(self).center() == old(self).center(),
    {
        self.enabled = false;
    }

    pub fn is_enabled(&self) -> (r: bool)
        ensures
            r == self.enabled(),
    {
        self.enabled
    }

    pub fn screen_center(&self) -> (r: (i32, i32))
        ensures
            (r.0 as int, r.1 as int) == self.center(),
    {
        (self.screen_center_x, self.screen_center_y)
    }

    /// The look delta for the cursor at `cursor` (`None` when the host could
    /// not read it). Nothing moves while mouse look is off or the cursor is
    /// unknown; the cursor is put back when it strayed more than a pixel.
    pub fn get_delta(&self, cursor: Option<(i32, i32)>) -> (r: MouseSample)
        ensures
            match cursor {
                Some((x, y)) if self.enabled() => {
                    &&& r.dx == x - self.center().0
                    &&& r.dy == y - self.center().1
                    &&& r.recenter == (abs(r.dx as int) > 1 || abs(r.dy as int) > 1)
                },
                _ => r == (MouseSample { dx: 0, dy: 0, recenter: false }),
            },
    {
        if !self.enabled {
            return MouseSample { dx: 0, dy: 0, recenter: false };
        }
        match cursor {
            None => MouseSample { dx: 0, dy: 0, recenter: false },
            Some((x, y)) => {
                let dx = x as i64 - self.screen_center_x as i64;
                let dy = y as i64 - self.screen_center_y as i64;
                let recenter = dx > 1 || dx < -1 || dy > 1 || dy < -1;
                MouseSample { dx, dy, recenter }
            },
        }
    }
}

} // verus!
