use vstd::prelude::*;

verus! {

// Angles are kept in tenths of a degree and distances in tenths of a world
// unit, so that every step of the camera is exact.

/// Azimuth after a reset: 45 degrees.
pub const DEFAULT_ANGLE_X: i64 = 450;

/// Elevation after a reset: -30 degrees.
pub const DEFAULT_ANGLE_Y: i64 = -300;

/// Distance after a reset: 25 units.
pub const DEFAULT_DISTANCE: i64 = 250;

/// Closest the camera may come to its target: 5 units.
pub const MIN_DISTANCE: i64 = 50;

/// Farthest the camera may go from its target: 50 units.
pub const MAX_DISTANCE: i64 = 500;

/// Largest elevation either way: 89 degrees, short of the poles.
pub const ELEVATION_LIMIT: i64 = 890;

/// Largest distance, or distance bound, that a camera may hold before an
/// update: far beyond any scene, and small enough that no step overflows.
pub const DISTANCE_BOUND: i64 = 0x1000_0000_0000_0000;

/// Largest azimuth either way that a camera may hold before an update, so
/// that one more frame of turning cannot overflow.
pub const ANGLE_BOUND: i64 = 0x1000_0000_0000_0000;

/// Rotation per pixel of drag: 0.3 degrees.
pub const DRAG_STEP: i64 = 3;

/// Zoom per tenth of a wheel notch: 0.2 units, i.e. 2 units per notch.
pub const SCROLL_STEP: i64 = 2;

/// Zoom per frame while a forward or backward key is held: 0.5 units.
pub const KEY_ZOOM_STEP: i64 = 5;

/// Turn per frame while a left or right key is held: 2 degrees.
pub const KEY_TURN_STEP: i64 = 20;

/// A point, each coordinate in tenths of a unit.
#[derive(Clone, Copy, Debug, PartialEq, Eq, Hash, Structural)]
pub struct Point3 {
    pub x: i64,
    pub y: i64,
    pub z: i64,
}

/// What the user did during one frame.
#[derive(Clone, Copy, Debug, PartialEq, Eq, Hash, Structural)]
pub struct CameraInput {
    /// The rotate button is held.
    pub rotate_held: bool,
    /// Pointer movement this frame, in pixels.
    pub drag_x: i32,
    pub drag_y: i32,
    /// Wheel movement this frame, in tenths of a notch; positive zooms in.
    pub scroll: i32,
    /// Movement keys held this frame.
    pub forward: bool,
    pub backward: bool,
    pub left: bool,
    pub right: bool,
    /// The reset key went down this frame.
    pub reset_pressed: bool,
}

/// A camera on a sphere around a target: `angle_x` is the azimuth and
/// `angle_y` the elevation, both in tenths of a degree, and `distance` the
/// radius in tenths of a unit.
#[derive(Clone, Copy, Debug, PartialEq, Eq, Hash, Structural)]
pub struct OrbitCamera {
    pub target: Point3,
    pub distance: i64,
    pub angle_x: i64,
    pub angle_y: i64,
    pub min_distance: i64,
    pub max_distance: i64,
}

/// `v` brought into `[lo, hi]`.
pub open spec fn clamped(v: int, lo: int, hi: int) -> int {
    if v < lo {
        lo
    } else if v > hi {
        hi
    } else {
        v
    }
}

/// The azimuth change that the pointer and the side keys ask for.
pub open spec fn turn_of(input: CameraInput) -> int {
    (if input.rotate_held { DRAG_STEP * input.drag_x } else { 0 })
        + (if input.right { KEY_TURN_STEP } else { 0 })
        - (if input.left { KEY_TURN_STEP } else { 0 })
}

/// The distance change that the forward and backward keys ask for.
pub open spec fn key_zoom_of(input: CameraInput) -> int {
    (if input.backward { KEY_ZOOM_STEP } else { 0 }) - (if input.forward { KEY_ZOOM_STEP } else { 0 })
}

/// Brings `v` into `[lo, hi]`.
pub fn clamp(v: i64, lo: i64, hi: i64) -> (r: i64)
    requires
        lo <= hi,
    ensures
        r == clamped(v as int, lo as int, hi as int),
{
    if v < lo {
        lo
    } else if v > hi {
        hi
    } else {
        v
    }
}

impl OrbitCamera {
    /// What every frame keeps: the distance lies between its bounds and the
    /// elevation stays off the poles.
    pub open spec fn limits_hold(&self) -> bool {
        &&& self.min_distance <= self.distance <= self.max_distance
        &&& -ELEVATION_LIMIT <= self.angle_y <= ELEVATION_LIMIT
    }

    /// The camera can take a frame of input: its distance bounds are ordered
    /// and positive, its elevation is off the poles, and its distance and
    /// azimuth lie far enough from the machine limits that no step overflows.
    pub open spec fn wf(&self) -> bool {
        &&& 0 < self.min_distance <= self.max_distance <= DISTANCE_BOUND
        &&& -DISTANCE_BOUND <= self.distance <= DISTANCE_BOUND
        &&& -ELEVATION_LIMIT <= self.angle_y <= ELEVATION_LIMIT
        &&& -ANGLE_BOUND <= self.angle_x <= ANGLE_BOUND
    }

    /// The distance after the wheel has been applied, before the keys.
    pub open spec fn scrolled_distance(&self, input: CameraInput) -> int {
        if input.scroll != 0 {
            clamped(
                self.distance - SCROLL_STEP * input.scroll,
                self.min_distance as int,
                self.max_distance as int,
            )
        } else {
            self.distance as int
        }
    }

    /// The camera after one frame of input.
    pub open spec fn after(&self, input: CameraInput) -> OrbitCamera {
        let angle_x = if input.reset_pressed {
            DEFAULT_ANGLE_X as int
        } else {
            self.angle_x + turn_of(input)
        };
        let angle_y = if input.reset_pressed {
            DEFAULT_ANGLE_Y as int
        } else if input.rotate_held {
            clamped(self.angle_y + DRAG_STEP * input.drag_y, -ELEVATION_LIMIT, ELEVATION_LIMIT as int)
        } else {
            self.angle_y as int
        };
        let distance = if input.reset_pressed {
            DEFAULT_DISTANCE as int
        } else {
            self.scrolled_distance(input) + key_zoom_of(input)
        };
        OrbitCamera {
            target: self.target,
            distance: clamped(distance, self.min_distance as int, self.max_distance as int) as i64,
            angle_x: angle_x as i64,
            angle_y: angle_y as i64,
            min_distance: self.min_distance,
            max_distance: self.max_distance,
        }
    }

    /// Whether the camera stands at the reset pose.
    pub open spec fn at_defaults(&self) -> bool {
        &&& self.angle_x == DEFAULT_ANGLE_X
        &&& self.angle_y == DEFAULT_ANGLE_Y
        &&& self.distance == DEFAULT_DISTANCE
    }

    /// A camera looking at `target` from `distance`, at the reset angles,
    /// with distance bounds of 5 and 50 units. The distance is kept as given:
    /// the first update brings it within the bounds.
    pub fn new(target: Point3, distance: i64) -> (r: OrbitCamera)
        ensures
            r.target == target,
            r.distance == distance,
            r.angle_x == DEFAULT_ANGLE_X,
            r.angle_y == DEFAULT_ANGLE_Y,
            r.min_distance == MIN_DISTANCE,
            r.max_distance == MAX_DISTANCE,
            -DISTANCE_BOUND <= distance <= DISTANCE_BOUND ==> r.wf(),
    {
        OrbitCamera {
            target,
            distance,
            angle_x: DEFAULT_ANGLE_X,
            angle_y: DEFAULT_ANGLE_Y,
            min_distance: MIN_DISTANCE,
            max_distance: MAX_DISTANCE,
        }
    }

    /// Applies one frame of input: drag rotates (elevation clamped), the wheel
    /// zooms (clamped), held keys zoom and turn by fixed steps, the reset key
    /// restores the default pose, and the distance is clamped at the end.
    pub fn update(&mut self, input: &CameraInput)
        requires
            old(self).wf(),
        ensures
            *final(self) == old(self).after(*input),
            final(self).limits_hold(),
            -ANGLE_BOUND <= final(self).angle_x <= ANGLE_BOUND ==> final(self).wf(),
    {
        let mut turn: i64 = 0;
        if input.rotate_held {
            turn = DRAG_STEP * input.drag_x as i64;
            self.angle_y = clamp(
                self.angle_y + DRAG_STEP * input.drag_y as i64,
                -ELEVATION_LIMIT,
                ELEVATION_LIMIT,
            );
        }
        if input.scroll != 0 {
            self.distance = clamp(
                self.distance - SCROLL_STEP * input.scroll as i64,
                self.min_distance,
                self.max_distance,
            );
        }
        if input.forward {
            self.distance = self.distance - KEY_ZOOM_STEP;
        }
        if input.backward {
            self.distance = self.distance + KEY_ZOOM_STEP;
        }
        if input.left {
            turn = turn - KEY_TURN_STEP;
        }
        if input.right {
            turn = turn + KEY_TURN_STEP;
        }
        self.angle_x = self.angle_x + turn;
        if input.reset_pressed {
            self.angle_x = DEFAULT_ANGLE_X;
            self.angle_y = DEFAULT_ANGLE_Y;
            self.distance = DEFAULT_DISTANCE;
        }
        self.distance = clamp(self.distance, self.min_distance, self.max_distance);
    }
}

/// The camera after a run of frames, applied in order.
pub open spec fn after_all(c: OrbitCamera, inputs: Seq<CameraInput>) -> OrbitCamera
    decreases inputs.len(),
{
    if inputs.len() == 0 {
        c
    } else {
        after_all(c, inputs.drop_last()).after(inputs.last())
    }
}

/// One frame of any input leaves the distance within its bounds and the
/// elevation within the limit, and keeps the target and the bounds.
pub proof fn lemma_update_keeps_limits(c: OrbitCamera, input: CameraInput)
    requires
        c.min_distance <= c.max_distance,
        -ELEVATION_LIMIT <= c.angle_y <= ELEVATION_LIMIT,
    ensures
        c.after(input).limits_hold(),
        c.after(input).target == c.target,
        c.after(input).min_distance == c.min_distance,
        c.after(input).max_distance == c.max_distance,
{
}

/// However many frames run, with whatever drag, wheel and key input, the
/// distance lies within its bounds and the elevation within the limit after
/// each of them, and the target and the bounds never change.
pub proof fn lemma_run_keeps_limits(c: OrbitCamera, inputs: Seq<CameraInput>)
    requires
        c.min_distance <= c.max_distance,
        -ELEVATION_LIMIT <= c.angle_y <= ELEVATION_LIMIT,
    ensures
        inputs.len() > 0 ==> after_all(c, inputs).limits_hold(),
        -ELEVATION_LIMIT <= after_all(c, inputs).angle_y <= ELEVATION_LIMIT,
        after_all(c, inputs).target == c.target,
        after_all(c, inputs).min_distance == c.min_distance,
        after_all(c, inputs).max_distance == c.max_distance,
    decreases inputs.len(),
{
    if inputs.len() > 0 {
        lemma_run_keeps_limits(c, inputs.drop_last());
        lemma_update_keeps_limits(after_all(c, inputs.drop_last()), inputs.last());
    }
}

/// Whatever frames came before, a frame in which the reset key goes down
/// leaves the camera exactly at the default pose, still looking at its target.
pub proof fn lemma_reset_restores_defaults(
    c: OrbitCamera,
    inputs: Seq<CameraInput>,
    reset: CameraInput,
)
    requires
        c.min_distance <= DEFAULT_DISTANCE <= c.max_distance,
        -ELEVATION_LIMIT <= c.angle_y <= ELEVATION_LIMIT,
        reset.reset_pressed,
    ensures
        after_all(c, inputs.push(reset)).at_defaults(),
        after_all(c, inputs.push(reset)).target == c.target,
{
    lemma_run_keeps_limits(c, inputs);
    assert(inputs.push(reset).drop_last() =~= inputs);
}

/// A zoom that would bring the camera closer than allowed, however far,
/// leaves it exactly at the minimum radius.
pub proof fn lemma_zoom_stops_at_min(c: OrbitCamera, input: CameraInput)
    requires
        c.min_distance <= c.max_distance,
        !input.reset_pressed,
        c.scrolled_distance(input) + key_zoom_of(input) <= c.min_distance,
    ensures
        c.after(input).distance == c.min_distance,
{
}

} // verus!
