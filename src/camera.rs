//! First-person camera in fixed point, and the controller that moves it from
//! held keys and mouse motion.
//!
//! Positions are in millionths of a world unit, angles in microradians, times
//! in microseconds, and sines and cosines in millionths.
use vstd::prelude::*;
use vstd::arithmetic::div_mod::lemma_fundamental_div_mod_converse_mod;

verus! {

/// One full turn, in microradians.
pub const TURN: i64 = 6_283_185;

/// Largest pitch magnitude, in microradians (89 degrees): looking straight up
/// or down would flip the view.
pub const PITCH_LIMIT: i64 = 1_553_343;

/// Fixed-point one for sines and cosines, and microseconds in a second.
pub const ONE: i64 = 1_000_000;

/// Bound on the mouse motion accumulated between two updates.
pub const MOTION_LIMIT: i64 = 1_099_511_627_776;

/// Keys the controller reacts to.
#[derive(Clone, Copy, PartialEq, Eq, Structural, Debug)]
pub enum KeyCode {
    W,
    A,
    S,
    D,
    Up,
    Down,
    Left,
    Right,
    Space,
    LShift,
    Other,
}

#[derive(Clone, Copy, PartialEq, Eq, Structural, Debug)]
pub struct Camera {
    pub x: i64,
    pub y: i64,
    pub z: i64,
    /// Heading, kept in `[0, TURN)`.
    pub yaw: i64,
    /// Elevation, kept in `[-PITCH_LIMIT, PITCH_LIMIT]`.
    pub pitch: i64,
}

#[derive(Clone, Copy, PartialEq, Eq, Structural, Debug)]
pub struct CameraController {
    /// Distance moved per second along a held direction, in millionths of a unit.
    pub speed: u32,
    /// Microradians turned for each unit of accumulated motion.
    pub sensitivity: u32,
    pub forward: bool,
    pub backward: bool,
    pub left: bool,
    pub right: bool,
    pub up: bool,
    pub down: bool,
    pub rotate_horizontal: i64,
    pub rotate_vertical: i64,
}

pub open spec fn clamp(v: int, lo: int, hi: int) -> int {
    if v < lo {
        lo
    } else if v > hi {
        hi
    } else {
        v
    }
}

pub open spec fn wrap_angle(a: int) -> int {
    a % (TURN as int)
}

pub open spec fn clamp_pitch(p: int) -> int {
    clamp(p, -PITCH_LIMIT, PITCH_LIMIT as int)
}

pub open spec fn saturate(v: int) -> i64 {
    clamp(v, i64::MIN as int, i64::MAX as int) as i64
}

/// `a / b` rounded toward zero.
pub open spec fn div_trunc(a: int, b: int) -> int {
    if a >= 0 {
        a / b
    } else {
        -((-a) / b)
    }
}

/// `+1`, `-1` or `0` for a pair of opposite keys.
pub open spec fn axis(pos: bool, neg: bool) -> int {
    (if pos { 1int } else { 0int }) - (if neg { 1int } else { 0int })
}

/// Distance covered in `dt` microseconds along a direction component `c`.
pub open spec fn travel(speed: int, dt: int, c: int) -> int {
    div_trunc(speed * dt * c, ONE * ONE)
}

/// Angle turned for accumulated motion `m`.
pub open spec fn turn(m: int, sensitivity: int) -> int {
    m * sensitivity
}

impl Camera {
    pub open spec fn wf(&self) -> bool {
        &&& 0 <= self.yaw < TURN
        &&& -PITCH_LIMIT <= self.pitch <= PITCH_LIMIT
    }

    /// Places a camera; the heading is wrapped into one turn and the pitch
    /// clamped to its limit.
    pub fn new(x: i64, y: i64, z: i64, yaw: i64, pitch: i64) -> (r: Camera)
        ensures
            r.wf(),
            r == (Camera { x, y, z, yaw: wrap_angle(yaw as int) as i64, pitch: clamp_pitch(pitch as int) as i64 }),
    {
        let w = wrap_add(0, yaw as i128);
        let p = if pitch < -PITCH_LIMIT {
            -PITCH_LIMIT
        } else if pitch > PITCH_LIMIT {
            PITCH_LIMIT
        } else {
            pitch
        };
        Camera { x, y, z, yaw: w, pitch: p }
    }
}

/// `(yaw + d) mod TURN`, for a heading already in range.
fn wrap_add(yaw: i64, d: i128) -> (r: i64)
    requires
        0 <= yaw < TURN,
    ensures
        r == wrap_angle(yaw + d),
        0 <= r < TURN,
{
    let t = TURN as u128;
    let mag: u128 = if d >= 0 { d as u128 } else { (-(d + 1)) as u128 + 1 };
    let q = mag / t;
    let m = mag % t;
    let mut r = if d >= 0 { yaw as i128 + m as i128 } else { yaw as i128 - m as i128 };
    let ghost mut k: int = if d >= 0 { q as int } else { -(q as int) };
    proof {
        assert(mag == q * t + m) by (nonlinear_arith) requires q == mag / t, m == mag % t, t > 0;
        assert(yaw + d == k * TURN + r) by (nonlinear_arith)
            requires
                mag == q * t + m,
                t == TURN,
                d >= 0 ==> mag == d && r == yaw + m && k == q,
                d < 0 ==> mag == -d && r == yaw - m && k == -q;
    }
    if r >= TURN as i128 {
        r = r - TURN as i128;
        proof { k = k + 1; }
    } else if r < 0 {
        r = r + TURN as i128;
        proof { k = k - 1; }
    }
    proof {
        assert(yaw + d == k * TURN + r) by (nonlinear_arith)
            requires yaw + d == (k - 1) * TURN + (r + TURN) || yaw + d == (k + 1) * TURN + (r - TURN)
                || yaw + d == k * TURN + r;
        lemma_fundamental_div_mod_converse_mod(yaw + d, TURN as int, k, r as int);
    }
    r as i64
}

/// `a / b` rounded toward zero, for a non-negative divisor.
fn div_toward_zero(a: i128, b: u64) -> (r: i128)
    requires
        b > 0,
        a > i128::MIN,
    ensures
        r == div_trunc(a as int, b as int),
{
    if a >= 0 {
        (a as u128 / b as u128) as i128
    } else {
        let q = ((-a) as u128) / (b as u128);
        proof {
            assert(q <= (-a) as int) by (nonlinear_arith) requires q == (-a) as int / (b as int), b > 0, -a > 0;
        }
        -(q as i128)
    }
}

impl CameraController {
    pub open spec fn wf(&self) -> bool {
        &&& -MOTION_LIMIT <= self.rotate_horizontal <= MOTION_LIMIT
        &&& -MOTION_LIMIT <= self.rotate_vertical <= MOTION_LIMIT
    }

    pub open spec fn new_spec(speed: u32, sensitivity: u32) -> CameraController {
        CameraController {
            speed,
            sensitivity,
            forward: false,
            backward: false,
            left: false,
            right: false,
            up: false,
            down: false,
            rotate_horizontal: 0,
            rotate_vertical: 0,
        }
    }

    /// The controller after one mouse motion.
    pub open spec fn moved(self, dx: i32, dy: i32) -> CameraController {
        CameraController {
            rotate_horizontal: clamp(self.rotate_horizontal + dx, -MOTION_LIMIT, MOTION_LIMIT as int) as i64,
            rotate_vertical: clamp(self.rotate_vertical + dy, -MOTION_LIMIT, MOTION_LIMIT as int) as i64,
            ..self
        }
    }

    pub fn new(speed: u32, sensitivity: u32) -> (r: CameraController)
        ensures
            r.wf(),
            r == CameraController::new_spec(speed, sensitivity),
            r == (CameraController {
                speed,
                sensitivity,
                forward: false,
                backward: false,
                left: false,
                right: false,
                up: false,
                down: false,
                rotate_horizontal: 0,
                rotate_vertical: 0,
            }),
    {
        CameraController {
            speed,
            sensitivity,
            forward: false,
            backward: false,
            left: false,
            right: false,
            up: false,
            down: false,
            rotate_horizontal: 0,
            rotate_vertical: 0,
        }
    }

    /// The controller after a key goes down (`pressed`) or up.
    pub open spec fn keyed(self, key: KeyCode, pressed: bool) -> CameraController {
        match key {
            KeyCode::W | KeyCode::Up => CameraController { forward: pressed, ..self },
            KeyCode::S | KeyCode::Down => CameraController { backward: pressed, ..self },
            KeyCode::A | KeyCode::Left => CameraController { left: pressed, ..self },
            KeyCode::D | KeyCode::Right => CameraController { right: pressed, ..self },
            KeyCode::Space => CameraController { up: pressed, ..self },
            KeyCode::LShift => CameraController { down: pressed, ..self },
            KeyCode::Other => self,
        }
    }

    /// Sets the movement direction of a recognised key while it is held; says
    /// whether the key was one of them.
    pub fn process_keyboard(&mut self, key: KeyCode, pressed: bool) -> (r: bool)
        ensures
            *final(self) == old(self).keyed(key, pressed),
            r == (key != KeyCode::Other),
    {
        match key {
            KeyCode::W | KeyCode::Up => {
                self.forward = pressed;
                true
            },
            KeyCode::S | KeyCode::Down => {
                self.backward = pressed;
                true
            },
            KeyCode::A | KeyCode::Left => {
                self.left = pressed;
                true
            },
            KeyCode::D | KeyCode::Right => {
                self.right = pressed;
                true
            },
            KeyCode::Space => {
                self.up = pressed;
                true
            },
            KeyCode::LShift => {
                self.down = pressed;
                true
            },
            KeyCode::Other => false,
        }
    }

    /// Adds one mouse motion to what the next update will turn by; the total
    /// is held within `MOTION_LIMIT`.
    pub fn process_mouse(&mut self, dx: i32, dy: i32)
        requires
            old(self).wf(),
        ensures
            final(self).wf(),
            *final(self) == old(self).moved(dx, dy),
    {
        self.rotate_horizontal = accumulate(self.rotate_horizontal, dx);
        self.rotate_vertical = accumulate(self.rotate_vertical, dy);
    }

    /// Where `update_camera` leaves the camera.
    pub open spec fn stepped(self, c: Camera, dt: u32, cos: i32, sin: i32) -> Camera {
        let f = axis(self.forward, self.backward);
        let s = axis(self.right, self.left);
        let v = axis(self.up, self.down);
        let sp = self.speed as int;
        Camera {
            x: saturate(c.x + f * travel(sp, dt as int, cos as int) + s * travel(sp, dt as int, -sin)),
            y: saturate(c.y + v * travel(sp, dt as int, ONE as int)),
            z: saturate(c.z + f * travel(sp, dt as int, sin as int) + s * travel(sp, dt as int, cos as int)),
            yaw: wrap_angle(c.yaw + turn(self.rotate_horizontal as int, self.sensitivity as int)) as i64,
            pitch: clamp_pitch(c.pitch - turn(self.rotate_vertical as int, self.sensitivity as int)) as i64,
        }
    }

    /// Moves the camera for `dt` microseconds along the held directions at
    /// `speed`, forward being `(cos, 0, sin)` and right `(-sin, 0, cos)` for the
    /// cosine and sine of the camera's heading; then turns it by the
    /// accumulated mouse motion times the sensitivity, wrapping the heading and
    /// clamping the pitch, and clears that motion.
    pub fn update_camera(&mut self, camera: &mut Camera, dt: u32, cos: i32, sin: i32)
        requires
            old(self).wf(),
            old(camera).wf(),
            -ONE <= cos <= ONE,
            -ONE <= sin <= ONE,
        ensures
            final(camera).wf(),
            *final(camera) == old(self).stepped(*old(camera), dt, cos, sin),
            *final(self) == (CameraController { rotate_horizontal: 0, rotate_vertical: 0, ..*old(self) }),
            final(self).wf(),
    {
        let sp = self.speed;
        let dx = along(self.forward, self.backward, travel_of(sp, dt, cos as i64)) + along(
            self.right,
            self.left,
            travel_of(sp, dt, -(sin as i64)),
        );
        let dy = along(self.up, self.down, travel_of(sp, dt, ONE));
        let dz = along(self.forward, self.backward, travel_of(sp, dt, sin as i64)) + along(
            self.right,
            self.left,
            travel_of(sp, dt, cos as i64),
        );
        camera.x = saturate_add(camera.x, dx);
        camera.y = saturate_add(camera.y, dy);
        camera.z = saturate_add(camera.z, dz);
        let h = turn_of(self.rotate_horizontal, self.sensitivity);
        let p = turn_of(self.rotate_vertical, self.sensitivity);
        camera.yaw = wrap_add(camera.yaw, h);
        let np = camera.pitch as i128 - p;
        camera.pitch = if np < -PITCH_LIMIT as i128 {
            -PITCH_LIMIT
        } else if np > PITCH_LIMIT as i128 {
            PITCH_LIMIT
        } else {
            np as i64
        };
        self.rotate_horizontal = 0;
        self.rotate_vertical = 0;
    }
}

fn accumulate(total: i64, d: i32) -> (r: i64)
    requires
        -MOTION_LIMIT <= total <= MOTION_LIMIT,
    ensures
        r == clamp(total + d, -MOTION_LIMIT, MOTION_LIMIT as int),
{
    let s = total + d as i64;
    if s < -MOTION_LIMIT {
        -MOTION_LIMIT
    } else if s > MOTION_LIMIT {
        MOTION_LIMIT
    } else {
        s
    }
}

/// `t` signed by a pair of opposite keys.
fn along(pos: bool, neg: bool, t: i128) -> (r: i128)
    requires
        -0x1_0000_0000_0000 <= t <= 0x1_0000_0000_0000,
    ensures
        r == axis(pos, neg) * t,
        -0x1_0000_0000_0000 <= r <= 0x1_0000_0000_0000,
{
    if pos && !neg {
        assert(axis(pos, neg) == 1);
        t
    } else if neg && !pos {
        assert(axis(pos, neg) == -1);
        -t
    } else {
        assert(axis(pos, neg) == 0);
        0
    }
}

fn travel_of(speed: u32, dt: u32, c: i64) -> (r: i128)
    requires
        -ONE <= c <= ONE,
    ensures
        r == travel(speed as int, dt as int, c as int),
        -0x1_0000_0000_0000 <= r <= 0x1_0000_0000_0000,
{
    proof {
        assert(0 <= speed as int * dt as int <= 0xffff_ffff * 0xffff_ffff) by (nonlinear_arith)
            requires 0 <= speed <= 0xffff_ffff, 0 <= dt <= 0xffff_ffff;
    }
    let p: u64 = speed as u64 * dt as u64;
    proof {
        assert(-(p * ONE) <= p * c <= p * ONE) by (nonlinear_arith) requires p >= 0, -ONE <= c <= ONE;
        assert(p * ONE <= 0xffff_ffff * 0xffff_ffff * ONE) by (nonlinear_arith)
            requires 0 <= p <= 0xffff_ffff * 0xffff_ffff;
    }
    let a: i128 = p as i128 * c as i128;
    assert(a == speed * dt * c) by (nonlinear_arith) requires a == p * c, p == speed * dt;
    let r = div_toward_zero(a, 1_000_000_000_000);
    proof {
        let m: int = if a >= 0 { a as int } else { -a };
        assert(m <= 0xffff_ffff * 0xffff_ffff * ONE);
        assert(m / 1_000_000_000_000 <= 0x1_0000_0000_0000) by (nonlinear_arith)
            requires m <= 0xffff_ffff * 0xffff_ffff * ONE, m >= 0;
    }
    r
}

fn turn_of(m: i64, sensitivity: u32) -> (r: i128)
    requires
        -MOTION_LIMIT <= m <= MOTION_LIMIT,
    ensures
        r == turn(m as int, sensitivity as int),
        -0x4000_0000_0000_0000_0000_0000_0000 <= r <= 0x4000_0000_0000_0000_0000_0000_0000,
{
    proof {
        assert(-(MOTION_LIMIT * 0xffff_ffff) <= m * sensitivity <= MOTION_LIMIT * 0xffff_ffff) by (nonlinear_arith)
            requires -MOTION_LIMIT <= m <= MOTION_LIMIT, 0 <= sensitivity <= 0xffff_ffff;
    }
    m as i128 * sensitivity as i128
}

fn saturate_add(v: i64, d: i128) -> (r: i64)
    requires
        -0x1_0000_0000_0000_0000 <= d <= 0x1_0000_0000_0000_0000,
    ensures
        r == saturate(v + d),
{
    let s = v as i128 + d;
    if s < i64::MIN as i128 {
        i64::MIN
    } else if s > i64::MAX as i128 {
        i64::MAX
    } else {
        s as i64
    }
}

/// With no time elapsed and no mouse motion pending, the camera neither moves
/// nor turns, whatever keys are held.
pub proof fn lemma_zero_dt_keeps_camera(ctrl: CameraController, c: Camera, cos: i32, sin: i32)
    requires
        c.wf(),
        ctrl.rotate_horizontal == 0,
        ctrl.rotate_vertical == 0,
    ensures
        ctrl.stepped(c, 0, cos, sin) == c,
{
    let sp = ctrl.speed as int;
    assert forall|k: int| #[trigger] (sp * 0 * k) == 0 by {
        assert(sp * 0 * k == 0) by (nonlinear_arith);
    }
    assert(travel(sp, 0, cos as int) == 0);
    assert(travel(sp, 0, sin as int) == 0);
    assert(travel(sp, 0, -sin) == 0);
    assert(travel(sp, 0, ONE as int) == 0);
    assert(turn(0, ctrl.sensitivity as int) == 0);
    lemma_fundamental_div_mod_converse_mod(c.yaw as int, TURN as int, 0, c.yaw as int);
}

/// However large the pending mouse motion, an update
/// leaves the pitch within its limit.
pub proof fn lemma_pitch_stays_clamped(ctrl: CameraController, c: Camera, dt: u32, cos: i32, sin: i32)
    ensures
        -PITCH_LIMIT <= ctrl.stepped(c, dt, cos, sin).pitch <= PITCH_LIMIT,
{
}

} // verus!
