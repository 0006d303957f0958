//! The renderer's state between frames and how events change it.
use vstd::prelude::*;
use crate::camera::{Camera, CameraController, KeyCode, ONE};
use crate::frame::{FrameStep, SurfaceError, frame_plan, frame_steps};
use crate::target::with_size;
use crate::binding::{composite_layout, group_matches};
use crate::target_set::{NamedTarget, TargetId, TargetSet, SKYBOX_SIZE};

verus! {

/// Camera speed: two world units per second, in millionths of a unit.
pub const CAMERA_SPEED: u32 = 2_000_000;

/// Mouse-look rate: microradians for each thousandth of a pixel of motion
/// (0.002 radians per pixel).
pub const CAMERA_SENSITIVITY: u32 = 2;

#[derive(Clone, Copy, PartialEq, Eq, Structural, Debug)]
pub enum MouseButton {
    Left,
    Right,
    Middle,
    Other,
}

/// An input event, with mouse motion in thousandths of a pixel.
#[derive(Clone, Copy, PartialEq, Eq, Structural, Debug)]
pub enum InputEvent {
    MouseMotion { dx: i32, dy: i32 },
    Key { key: KeyCode, pressed: bool },
    MouseButton { button: MouseButton, pressed: bool },
    Other,
}

pub struct State {
    pub targets: TargetSet,
    pub camera: Camera,
    pub controller: CameraController,
    /// Whether the look button is held: mouse motion turns the camera only then.
    pub mouse_pressed: bool,
    /// Frames rendered so far; uploaded for time-varying effects.
    pub frame_count: u64,
}

pub open spec fn next_frame_count(c: u64) -> u64 {
    if c < u64::MAX {
        (c + 1) as u64
    } else {
        c
    }
}

/// The frame counter after `n` frames rendered from zero.
pub open spec fn count_after(n: nat) -> u64
    decreases n,
{
    if n == 0 {
        0
    } else {
        next_frame_count(count_after((n - 1) as nat))
    }
}

impl State {
    pub open spec fn wf(&self) -> bool {
        &&& self.targets.wf()
        &&& self.camera.wf()
        &&& self.controller.wf()
    }

    /// Width and height the projection's aspect ratio is taken from.
    pub open spec fn aspect(&self) -> (u32, u32) {
        (self.targets.width, self.targets.height)
    }

    /// The state at startup for a surface of `width` x `height`: camera at the
    /// origin looking along +x, nothing held, no frame rendered.
    pub fn new(width: u32, height: u32) -> (r: State)
        ensures
            r.wf(),
            r.targets.width == if width == 0 { 1 } else { width },
            r.targets.height == if height == 0 { 1 } else { height },
            r.targets.skybox_size == SKYBOX_SIZE,
            r.camera == (Camera { x: 0, y: 0, z: 0, yaw: 0, pitch: 0 }),
            r.controller == CameraController::new_spec(CAMERA_SPEED, CAMERA_SENSITIVITY),
            !r.mouse_pressed,
            r.frame_count == 0,
    {
        let camera = Camera::new(0, 0, 0, 0, 0);
        assert(0int % (crate::camera::TURN as int) == 0);
        State {
            targets: TargetSet::new(width, height),
            camera,
            controller: CameraController::new(CAMERA_SPEED, CAMERA_SENSITIVITY),
            mouse_pressed: false,
            frame_count: 0,
        }
    }

    /// Follows a resize of the surface: for a non-empty size the textures that
    /// track the surface are reallocated (their names are returned) and the
    /// aspect ratio follows; a size with a zero side changes nothing. The camera
    /// is never moved.
    pub fn resize(&mut self, width: u32, height: u32) -> (r: Vec<TargetId>)
        requires
            old(self).wf(),
        ensures
            final(self).wf(),
            final(self).camera == old(self).camera,
            final(self).controller == old(self).controller,
            final(self).mouse_pressed == old(self).mouse_pressed,
            final(self).frame_count == old(self).frame_count,
            group_matches(composite_layout(), final(self).targets.composite_group()),
            width > 0 && height > 0 ==> {
                &&& final(self).aspect() == (width, height)
                &&& forall|i: int| 0 <= i < final(self).targets.targets@.len()
                    && (#[trigger] final(self).targets.targets@[i]).target.tracks_surface
                    ==> final(self).targets.targets@[i].target.extent.width == width
                    && final(self).targets.targets@[i].target.extent.height == height
                &&& final(self).targets.skybox_size == old(self).targets.skybox_size
                &&& forall|i: int| 0 <= i < old(self).targets.targets@.len() ==> {
                    let before = #[trigger] old(self).targets.targets@[i];
                    let after = final(self).targets.targets@[i];
                    &&& after.id == before.id
                    &&& before.target.tracks_surface ==> after.target == with_size(before.target, width, height)
                    &&& !before.target.tracks_surface ==> after.target == before.target
                }
                &&& r@ == old(self).targets.targets@.filter(|n: NamedTarget| n.target.tracks_surface).map_values(
                    |n: NamedTarget| n.id,
                )
            },
            !(width > 0 && height > 0) ==> final(self).targets == old(self).targets && r@.len() == 0,
    {
        self.targets.resize(width, height)
    }

    /// The state after an input event, and whether the event was consumed.
    pub open spec fn handled(self, e: InputEvent) -> (State, bool) {
        match e {
            InputEvent::MouseMotion { dx, dy } => {
                if self.mouse_pressed {
                    (State { controller: self.controller.moved(dx, dy), ..self }, true)
                } else {
                    (self, true)
                }
            },
            InputEvent::Key { key, pressed } => (
                State { controller: self.controller.keyed(key, pressed), ..self },
                key != KeyCode::Other,
            ),
            InputEvent::MouseButton { button, pressed } => {
                if button == MouseButton::Left {
                    (State { mouse_pressed: pressed, ..self }, true)
                } else {
                    (self, false)
                }
            },
            InputEvent::Other => (self, false),
        }
    }

    /// Applies an input event. Keys set the movement directions while held;
    /// mouse motion is kept for the next update only while the left button is
    /// held, and dropped otherwise; the left button starts and ends that look
    /// mode. Says whether the event was one of these.
    pub fn input(&mut self, event: InputEvent) -> (r: bool)
        requires
            old(self).wf(),
        ensures
            final(self).wf(),
            (*final(self), r) == old(self).handled(event),
    {
        match event {
            InputEvent::MouseMotion { dx, dy } => {
                if self.mouse_pressed {
                    self.controller.process_mouse(dx, dy);
                }
                true
            },
            InputEvent::Key { key, pressed } => self.controller.process_keyboard(key, pressed),
            InputEvent::MouseButton { button, pressed } => {
                if button == MouseButton::Left {
                    self.mouse_pressed = pressed;
                    true
                } else {
                    false
                }
            },
            InputEvent::Other => false,
        }
    }

    /// Advances the camera by `dt` microseconds; `cos` and `sin` are those of
    /// the camera's current heading, in millionths.
    pub fn update(&mut self, dt: u32, cos: i32, sin: i32)
        requires
            old(self).wf(),
            -ONE <= cos <= ONE,
            -ONE <= sin <= ONE,
        ensures
            final(self).wf(),
            final(self).camera == old(self).controller.stepped(old(self).camera, dt, cos, sin),
            final(self).controller == (CameraController {
                rotate_horizontal: 0,
                rotate_vertical: 0,
                ..old(self).controller
            }),
            final(self).targets == old(self).targets,
            final(self).mouse_pressed == old(self).mouse_pressed,
            final(self).frame_count == old(self).frame_count,
    {
        self.controller.update_camera(&mut self.camera, dt, cos, sin);
    }

    /// Plans one frame once the surface image has been acquired. On success the
    /// steps to record are returned and the frame counter goes up by one; a
    /// failed acquisition is handed back and changes nothing.
    pub fn render(&mut self, acquired: Result<(), SurfaceError>) -> (r: Result<Vec<FrameStep>, SurfaceError>)
        requires
            old(self).wf(),
        ensures
            final(self).wf(),
            final(self).targets == old(self).targets,
            final(self).camera == old(self).camera,
            final(self).controller == old(self).controller,
            final(self).mouse_pressed == old(self).mouse_pressed,
            acquired is Ok ==> r is Ok && r->Ok_0@ == frame_plan()
                && final(self).frame_count == next_frame_count(old(self).frame_count),
            acquired matches Err(e) ==> r == Err::<Vec<FrameStep>, SurfaceError>(e)
                && final(self).frame_count == old(self).frame_count,
    {
        match acquired {
            Ok(()) => {
                let steps = frame_steps();
                self.frame_count = if self.frame_count < u64::MAX {
                    self.frame_count + 1
                } else {
                    self.frame_count
                };
                Ok(steps)
            },
            Err(e) => Err(e),
        }
    }
}

/// Counting from zero, `n` successfully rendered frames leave the counter at
/// `n`.
pub proof fn lemma_frame_count(n: nat)
    requires
        n <= u64::MAX,
    ensures
        count_after(n) == n,
    decreases n,
{
    if n > 0 {
        lemma_frame_count((n - 1) as nat);
    }
}

/// Frame counters observed along a run that starts from `State::new`: each
/// successful `render` takes the counter from one entry to the next, and the
/// calls in between (`input`, `update`, `resize`, a failed `render`) leave it as
/// it is. After `n` successful renders the counter is `n`.
pub proof fn lemma_counter_after_renders(counts: Seq<u64>)
    requires
        counts.len() >= 1,
        counts.len() - 1 <= u64::MAX,
        counts[0] == 0,
        forall|i: int| 0 <= i < counts.len() - 1 ==> #[trigger] counts[i + 1] == next_frame_count(counts[i]),
    ensures
        forall|n: int| 0 <= n < counts.len() ==> #[trigger] counts[n] == n,
    decreases counts.len(),
{
    if counts.len() > 1 {
        let init = counts.drop_last();
        assert forall|i: int| 0 <= i < init.len() - 1 implies #[trigger] init[i + 1] == next_frame_count(init[i]) by {
            assert(init[i + 1] == counts[i + 1] && init[i] == counts[i]);
        }
        lemma_counter_after_renders(init);
        assert forall|n: int| 0 <= n < counts.len() implies #[trigger] counts[n] == n by {
            if n < init.len() {
                assert(init[n] == counts[n]);
            } else {
                let k = counts.len() - 2;
                assert(counts[k + 1] == next_frame_count(counts[k]));
                assert(init[k] == counts[k]);
            }
        }
    }
}

} // verus!
