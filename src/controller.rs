//! The camera controllers' own state: movement speed, mouse look, movement
//! keys, and the last position known. Speeds are in thousandths of a game
//! unit per tick. The full controller adds a yaw and pitch that the host
//! keeps, since they need trigonometry; the position-only controller moves
//! along world axes.
use vstd::prelude::*;
use crate::camera::CameraPosition;
use crate::input::{get_speed_delta, speed_delta_of, MovementInput, MouseHandler};

verus! {

/// Slowest movement speed, in thousandths of a unit.
pub const MIN_SPEED: u32 = 100;

/// Fastest movement speed, in thousandths of a unit.
pub const MAX_SPEED: u32 = 100_000;

/// Speed change per signal of the full controller.
pub const CAMERA_SPEED_STEP: u32 = 500;

/// Speed change per signal of the position-only controller.
pub const BASIC_SPEED_STEP: u32 = 1_000;

/// The speed after one step up: capped at `max`.
pub open spec fn raised(speed: int, step: int, max: int) -> int {
    if speed + step < max {
        speed + step
    } else {
        max
    }
}

/// The speed after one step down: floored at `min`.
pub open spec fn lowered(speed: int, step: int, min: int) -> int {
    if speed - step > min {
        speed - step
    } else {
        min
    }
}

/// The speed after one speed signal: up when positive, down when negative.
pub open spec fn adjusted(speed: int, signal: int, step: int, min: int, max: int) -> int {
    if signal > 0 {
        raised(speed, step, max)
    } else if signal < 0 {
        lowered(speed, step, min)
    } else {
        speed
    }
}

/// The speed after a sequence of signals, in order.
pub open spec fn speed_after(speed: int, signals: Seq<int>, step: int, min: int, max: int) -> int
    decreases signals.len(),
{
    if signals.len() == 0 {
        speed
    } else {
        adjusted(
            speed_after(speed, signals.drop_last(), step, min, max),
            signals.last(),
            step,
            min,
            max,
        )
    }
}

/// However many speed signals arrive, in whatever order, a speed that starts
/// within `[min, max]` stays there.
pub proof fn lemma_speed_stays_in_bounds(
    speed: int,
    signals: Seq<int>,
    step: int,
    min: int,
    max: int,
)
    requires
        0 <= step,
        min <= speed <= max,
    ensures
        min <= speed_after(speed, signals, step, min, max) <= max,
    decreases signals.len(),
{
    if signals.len() > 0 {
        lemma_speed_stays_in_bounds(speed, signals.drop_last(), step, min, max);
    }
}

/// A full controller whose speed starts within its bounds keeps it there
/// through any sequence of speed signals.
pub proof fn lemma_controller_speed_stays_in_bounds(c: CameraController, signals: Seq<int>)
    requires
        c.wf(),
        c.speed_in_bounds(),
    ensures
        MIN_SPEED <= speed_after(
            c.speed(),
            signals,
            CAMERA_SPEED_STEP as int,
            MIN_SPEED as int,
            MAX_SPEED as int,
        ) <= MAX_SPEED,
{
    lemma_speed_stays_in_bounds(
        c.speed(),
        signals,
        CAMERA_SPEED_STEP as int,
        MIN_SPEED as int,
        MAX_SPEED as int,
    );
}

/// The same for a position-only controller.
pub proof fn lemma_basic_speed_stays_in_bounds(c: BasicCameraController, signals: Seq<int>)
    requires
        c.wf(),
        c.speed_in_bounds(),
    ensures
        MIN_SPEED <= speed_after(
            c.speed(),
            signals,
            BASIC_SPEED_STEP as int,
            MIN_SPEED as int,
            MAX_SPEED as int,
        ) <= MAX_SPEED,
{
    lemma_speed_stays_in_bounds(
        c.speed(),
        signals,
        BASIC_SPEED_STEP as int,
        MIN_SPEED as int,
        MAX_SPEED as int,
    );
}

fn raise(speed: u32, step: u32, max: u32) -> (r: u32)
    ensures
        r == raised(speed as int, step as int, max as int),
{
    if (speed as u64) + (step as u64) < max as u64 {
        speed + step
    } else {
        max
    }
}

fn lower(speed: u32, step: u32, min: u32) -> (r: u32)
    ensures
        r == lowered(speed as int, step as int, min as int),
{
    if speed > step && speed - step > min {
        speed - step
    } else {
        min
    }
}

/// The controller that moves the full transform: mouse look turns it, and
/// movement follows its axes.
pub struct CameraController {
    move_speed: u32,
    mouse_handler: MouseHandler,
    last_position: Option<CameraPosition>,
    min_speed: u32,
    max_speed: u32,
    speed_step: u32,
    movement_input: MovementInput,
}

impl CameraController {
    pub closed spec fn speed(&self) -> int {
        self.move_speed as int
    }

    pub closed spec fn mouse(&self) -> MouseHandler {
        self.mouse_handler
    }

    pub closed spec fn last_known(&self) -> Option<CameraPosition> {
        self.last_position
    }

    pub closed spec fn movement(&self) -> MovementInput {
        self.movement_input
    }

    pub closed spec fn bounds(&self) -> (int, int, int) {
        (self.min_speed as int, self.max_speed as int, self.speed_step as int)
    }

    /// The speed bounds and step are those the controller was made with.
    pub open spec fn wf(&self) -> bool {
        self.bounds() == (MIN_SPEED as int, MAX_SPEED as int, CAMERA_SPEED_STEP as int)
    }

    /// Whether the speed lies within its bounds.
    pub open spec fn speed_in_bounds(&self) -> bool {
        self.bounds().0 <= self.speed() <= self.bounds().1
    }

    pub fn new(move_speed: u32, mouse_handler: MouseHandler) -> (r: CameraController)
        ensures
            r.wf(),
            r.speed() == move_speed,
            r.mouse() == mouse_handler,
            r.last_known() is None,
            !r.movement().any(),
            r.bounds() == (MIN_SPEED as int, MAX_SPEED as int, CAMERA_SPEED_STEP as int),
    {
        CameraController {
            move_speed,
            mouse_handler,
            last_position: None,
            min_speed: MIN_SPEED,
            max_speed: MAX_SPEED,
            speed_step: CAMERA_SPEED_STEP,
            movement_input: MovementInput::new(),
        }
    }

    pub fn increase_speed(&mut self)
        ensures
            final(self).speed() == raised(old(self).speed(), old(self).bounds().2, old(self).bounds().1),
            final(self).speed() <= old(self).bounds().1,
            old(self).wf() && old(self).speed_in_bounds() ==> final(self).speed_in_bounds(),
            final(self).bounds() == old(self).bounds(),
            old(self).wf() ==> final(self).wf(),
            final(self).mouse() == old(self).mouse(),
            final(self).last_known() == old(self).last_known(),
            final(self).movement() == old(self).movement(),
    {
        self.move_speed = raise(self.move_speed, self.speed_step, self.max_speed);
    }

    pub fn decrease_speed(&mut self)
        ensures
            final(self).speed() == lowered(old(self).speed(), old(self).bounds().2, old(self).bounds().0),
            final(self).speed() >= old(self).bounds().0,
            old(self).wf() && old(self).speed_in_bounds() ==> final(self).speed_in_bounds(),
            final(self).bounds() == old(self).bounds(),
            old(self).wf() ==> final(self).wf(),
            final(self).mouse() == old(self).mouse(),
            final(self).last_known() == old(self).last_known(),
            final(self).movement() == old(self).movement(),
    {
        self.move_speed = lower(self.move_speed, self.speed_step, self.min_speed);
    }

    /// Applies the speed signal of the held keys.
    pub fn apply_speed_keys(&mut self, pressed: &[i32])
        ensures
            final(self).speed() == adjusted(
                old(self).speed(),
                speed_delta_of(pressed@),
                old(self).bounds().2,
                old(self).bounds().0,
                old(self).bounds().1,
            ),
            old(self).wf() && old(self).speed_in_bounds() ==> final(self).speed_in_bounds(),
            final(self).bounds() == old(self).bounds(),
            old(self).wf() ==> final(self).wf(),
            final(self).mouse() == old(self).mouse(),
            final(self).last_known() == old(self).last_known(),
            final(self).movement() == old(self).movement(),
    {
        let delta = get_speed_delta(pressed);
        if delta > 0 {
            self.increase_speed();
        } else if delta < 0 {
            self.decrease_speed();
        }
    }

    pub fn get_speed(&self) -> (r: u32)
        ensures
            r == self.speed(),
    {
        self.move_speed
    }

    pub fn enable_mouse(&mut self)
        ensures
            final(self).mouse().enabled(),
            final(self).mouse().center() == old(self).mouse().center(),
            final(self).speed() == old(self).speed(),
            final(self).bounds() == old(self).bounds(),
            old(self).wf() ==> final(self).wf(),
            final(self).last_known() == old(self).last_known(),
            final(self).movement() == old(self).movement(),
    {
        self.mouse_handler.enable();
    }

    pub fn disable_mouse(&mut self)
        ensures
            !final(self).mouse().enabled(),
            final(self).mouse().center() == old(self).mouse().center(),
            final(self).speed() == old(self).speed(),
            final(self).bounds() == old(self).bounds(),
            old(self).wf() ==> final(self).wf(),
            final(self).last_known() == old(self).last_known(),
            final(self).movement() == old(self).movement(),
    {
        self.mouse_handler.disable();
    }

    pub fn is_mouse_enabled(&self) -> (r: bool)
        ensures
            r == self.mouse().enabled(),
    {
        self.mouse_handler.is_enabled()
    }

    pub fn mouse_handler(&self) -> (r: &MouseHandler)
        ensures
            *r == self.mouse(),
    {
        &self.mouse_handler
    }

    /// Takes the position of a transform just read. Returns whether it was the
    /// first read, on which the host seeds yaw and pitch from the transform.
    pub fn observe(&mut self, pos: CameraPosition) -> (first: bool)
        ensures
            first == old(self).last_known() is None,
            final(self).last_known() == if first {
                Some(pos)
            } else {
                old(self).last_known()
            },
            final(self).speed() == old(self).speed(),
            final(self).bounds() == old(self).bounds(),
            old(self).wf() ==> final(self).wf(),
            final(self).mouse() == old(self).mouse(),
            final(self).movement() == old(self).movement(),
    {
        if self.last_position.is_none() {
            self.last_position = Some(pos);
            true
        } else {
            false
        }
    }

    /// Records the position just written.
    pub fn record_position(&mut self, pos: CameraPosition)
        ensures
            final(self).last_known() == Some(pos),
            final(self).speed() == old(self).speed(),
            final(self).bounds() == old(self).bounds(),
            old(self).wf() ==> final(self).wf(),
            final(self).mouse() == old(self).mouse(),
            final(self).movement() == old(self).movement(),
    {
        self.last_position = Some(pos);
    }

    pub fn last_position(&self) -> (r: Option<CameraPosition>)
        ensures
            r == self.last_known(),
    {
        self.last_position
    }

    /// Reads the movement keys and returns the camera-local movement at the
    /// current speed, or `None` when no movement key is held.
    pub fn read_movement(&mut self, pressed: &[i32]) -> (r: Option<(i64, i64, i64)>)
        ensures
            final(self).movement().forward == pressed@.contains(crate::input::VK_I),
            final(self).movement().backward == pressed@.contains(crate::input::VK_K),
            final(self).movement().left == pressed@.contains(crate::input::VK_J),
            final(self).movement().right == pressed@.contains(crate::input::VK_L),
            final(self).movement().up == pressed@.contains(crate::input::VK_U),
            final(self).movement().down == pressed@.contains(crate::input::VK_O),
            match r {
                None => !final(self).movement().any(),
                Some(v) => {
                    let m = final(self).movement();
                    &&& m.any()
                    &&& v.0 == crate::input::axis(m.left, m.right, old(self).speed())
                    &&& v.1 == crate::input::axis(m.up, m.down, old(self).speed())
                    &&& v.2 == crate::input::axis(m.forward, m.backward, old(self).speed())
                },
            },
            final(self).speed() == old(self).speed(),
            final(self).bounds() == old(self).bounds(),
            old(self).wf() ==> final(self).wf(),
            final(self).mouse() == old(self).mouse(),
            final(self).last_known() == old(self).last_known(),
    {
        self.movement_input.read_input(pressed);
        if self.movement_input.has_movement() {
            Some(self.movement_input.get_movement_vector(self.move_speed))
        } else {
            None
        }
    }
}

/// The position-only controller: no orientation; movement keys move the
/// position along the world axes.
pub struct BasicCameraController {
    move_speed: u32,
    last_position: Option<CameraPosition>,
    min_speed: u32,
    max_speed: u32,
    speed_step: u32,
    movement_input: MovementInput,
}

impl BasicCameraController {
    pub closed spec fn speed(&self) -> int {
        self.move_speed as int
    }

    pub closed spec fn last_known(&self) -> Option<CameraPosition> {
        self.last_position
    }

    pub closed spec fn bounds(&self) -> (int, int, int) {
        (self.min_speed as int, self.max_speed as int, self.speed_step as int)
    }

    /// The speed bounds and step are those the controller was made with.
    pub open spec fn wf(&self) -> bool {
        self.bounds() == (MIN_SPEED as int, MAX_SPEED as int, BASIC_SPEED_STEP as int)
    }

    /// Whether the speed lies within its bounds.
    pub open spec fn speed_in_bounds(&self) -> bool {
        self.bounds().0 <= self.speed() <= self.bounds().1
    }

    pub fn new(move_speed: u32) -> (r: BasicCameraController)
        ensures
            r.wf(),
            r.speed() == move_speed,
            r.last_known() is None,
            r.bounds() == (MIN_SPEED as int, MAX_SPEED as int, BASIC_SPEED_STEP as int),
    {
        BasicCameraController {
            move_speed,
            last_position: None,
            min_speed: MIN_SPEED,
            max_speed: MAX_SPEED,
            speed_step: BASIC_SPEED_STEP,
            movement_input: MovementInput::new(),
        }
    }

    pub fn increase_speed(&mut self)
        ensures
            final(self).speed() == raised(old(self).speed(), old(self).bounds().2, old(self).bounds().1),
            final(self).speed() <= old(self).bounds().1,
            old(self).wf() && old(self).speed_in_bounds() ==> final(self).speed_in_bounds(),
            final(self).bounds() == old(self).bounds(),
            old(self).wf() ==> final(self).wf(),
            final(self).last_known() == old(self).last_known(),
    {
        self.move_speed = raise(self.move_speed, self.speed_step, self.max_speed);
    }

    pub fn decrease_speed(&mut self)
        ensures
            final(self).speed() == lowered(old(self).speed(), old(self).bounds().2, old(self).bounds().0),
            final(self).speed() >= old(self).bounds().0,
            old(self).wf() && old(self).speed_in_bounds() ==> final(self).speed_in_bounds(),
            final(self).bounds() == old(self).bounds(),
            old(self).wf() ==> final(self).wf(),
            final(self).last_known() == old(self).last_known(),
    {
        self.move_speed = lower(self.move_speed, self.speed_step, self.min_speed);
    }

    /// Applies the speed signal of the held keys.
    pub fn apply_speed_keys(&mut self, pressed: &[i32])
        ensures
            final(self).speed() == adjusted(
                old(self).speed(),
                speed_delta_of(pressed@),
                old(self).bounds().2,
                old(self).bounds().0,
                old(self).bounds().1,
            ),
            old(self).wf() && old(self).speed_in_bounds() ==> final(self).speed_in_bounds(),
            final(self).bounds() == old(self).bounds(),
            old(self).wf() ==> final(self).wf(),
            final(self).last_known() == old(self).last_known(),
    {
        let delta = get_speed_delta(pressed);
        if delta > 0 {
            self.increase_speed();
        } else if delta < 0 {
            self.decrease_speed();
        }
    }

    pub fn get_speed(&self) -> (r: u32)
        ensures
            r == self.speed(),
    {
        self.move_speed
    }

    /// Takes the position just read; remembers it when it is the first.
    pub fn observe(&mut self, pos: CameraPosition) -> (first: bool)
        ensures
            first == old(self).last_known() is None,
            final(self).last_known() == if first {
                Some(pos)
            } else {
                old(self).last_known()
            },
            final(self).speed() == old(self).speed(),
            final(self).bounds() == old(self).bounds(),
            old(self).wf() ==> final(self).wf(),
    {
        if self.last_position.is_none() {
            self.last_position = Some(pos);
            true
        } else {
            false
        }
    }

    /// Records the position just written.
    pub fn record_position(&mut self, pos: CameraPosition)
        ensures
            final(self).last_known() == Some(pos),
            final(self).speed() == old(self).speed(),
            final(self).bounds() == old(self).bounds(),
            old(self).wf() ==> final(self).wf(),
    {
        self.last_position = Some(pos);
    }

    pub fn last_position(&self) -> (r: Option<CameraPosition>)
        ensures
            r == self.last_known(),
    {
        self.last_position
    }

    /// Reads the movement keys and returns the world-axis movement at the
    /// current speed, or `None` when no movement key is held.
    pub fn read_movement(&mut self, pressed: &[i32]) -> (r: Option<(i64, i64, i64)>)
        ensures
            match r {
                None => !(pressed@.contains(crate::input::VK_I) || pressed@.contains(
                    crate::input::VK_K,
                ) || pressed@.contains(crate::input::VK_J) || pressed@.contains(
                    crate::input::VK_L,
                ) || pressed@.contains(crate::input::VK_U) || pressed@.contains(
                    crate::input::VK_O,
                )),
                Some(v) => {
                    &&& (pressed@.contains(crate::input::VK_I) || pressed@.contains(
                        crate::input::VK_K,
                    ) || pressed@.contains(crate::input::VK_J) || pressed@.contains(
                        crate::input::VK_L,
                    ) || pressed@.contains(crate::input::VK_U) || pressed@.contains(
                        crate::input::VK_O,
                    ))
                    &&& v.0 == crate::input::axis(
                        pressed@.contains(crate::input::VK_L),
                        pressed@.contains(crate::input::VK_J),
                        old(self).speed(),
                    )
                    &&& v.1 == crate::input::axis(
                        pressed@.contains(crate::input::VK_U),
                        pressed@.contains(crate::input::VK_O),
                        old(self).speed(),
                    )
                    &&& v.2 == crate::input::axis(
                        pressed@.contains(crate::input::VK_I),
                        pressed@.contains(crate::input::VK_K),
                        old(self).speed(),
                    )
                },
            },
            final(self).speed() == old(self).speed(),
            final(self).bounds() == old(self).bounds(),
            old(self).wf() ==> final(self).wf(),
            final(self).last_known() == old(self).last_known(),
    {
        self.movement_input.read_input(pressed);
        if self.movement_input.has_movement() {
            Some(self.movement_input.world_offset(self.move_speed))
        } else {
            None
        }
    }
}

} // verus!
