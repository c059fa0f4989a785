use vstd::prelude::*;

verus! {

/// Largest magnitude, in degrees, that the pitch may take.
pub const PITCH_LIMIT: i64 = 89;

/// Yaw, in degrees, of a new camera: its front then points along -Z.
pub const DEFAULT_YAW: i64 = -90;

/// Pitch, in degrees, of a new camera.
pub const DEFAULT_PITCH: i64 = 0;

/// Degrees turned by one rotation command unless configured otherwise.
pub const DEFAULT_ANGLE_STEP: u32 = 1;

/// A camera command: four moves and four rotations.
#[derive(Clone, Copy, Debug, PartialEq, Eq, Structural)]
pub enum CameraKey {
    Forward,
    Back,
    Left,
    Right,
    PitchUp,
    PitchDown,
    YawLeft,
    YawRight,
}

/// Camera-relative axis along which a move translates the position.
#[derive(Clone, Copy, Debug, PartialEq, Eq, Structural)]
pub enum Axis {
    Front,
    Right,
}

/// What the holder of the camera's position and basis must do after a command.
#[derive(Clone, Copy, Debug, PartialEq, Eq, Structural)]
pub enum Motion {
    /// Translate the position by `speed * dt` along `axis`, backwards if `!forward`.
    Translate { axis: Axis, forward: bool },
    /// The angles may have changed: derive the front/right/up basis again.
    Reorient,
}

/// The orientation state of a camera, in whole degrees.
pub ghost struct CameraView {
    pub yaw: int,
    pub pitch: int,
    pub angle_step: int,
}

/// The commands that turn the camera rather than move it.
pub open spec fn is_rotation(k: CameraKey) -> bool {
    match k {
        CameraKey::PitchUp | CameraKey::PitchDown | CameraKey::YawLeft | CameraKey::YawRight => true,
        _ => false,
    }
}

/// Pitch clamped to the closed interval `[-PITCH_LIMIT, PITCH_LIMIT]`.
pub open spec fn clamp_pitch(p: int) -> int {
    if p > PITCH_LIMIT {
        PITCH_LIMIT as int
    } else if p < -PITCH_LIMIT {
        -PITCH_LIMIT as int
    } else {
        p
    }
}

/// The pitch lies within `[-PITCH_LIMIT, PITCH_LIMIT]`.
pub open spec fn pitch_in_range(p: int) -> bool {
    -PITCH_LIMIT <= p <= PITCH_LIMIT
}

/// The motion that a command asks of the position and basis.
pub open spec fn motion_of(k: CameraKey) -> Motion {
    match k {
        CameraKey::Forward => Motion::Translate { axis: Axis::Front, forward: true },
        CameraKey::Back => Motion::Translate { axis: Axis::Front, forward: false },
        CameraKey::Right => Motion::Translate { axis: Axis::Right, forward: true },
        CameraKey::Left => Motion::Translate { axis: Axis::Right, forward: false },
        _ => Motion::Reorient,
    }
}

/// `n` copies of one command.
pub open spec fn repeat_key(k: CameraKey, n: nat) -> Seq<CameraKey> {
    Seq::new(n, |_i: int| k)
}

impl CameraView {
    /// The orientation after one command: pitch moves by the step and is clamped,
    /// yaw moves by the step unclamped, a move leaves both as they are.
    pub open spec fn after_key(self, k: CameraKey) -> CameraView {
        match k {
            CameraKey::PitchUp => CameraView { pitch: clamp_pitch(self.pitch + self.angle_step), ..self },
            CameraKey::PitchDown => CameraView { pitch: clamp_pitch(self.pitch - self.angle_step), ..self },
            CameraKey::YawLeft => CameraView { yaw: self.yaw - self.angle_step, ..self },
            CameraKey::YawRight => CameraView { yaw: self.yaw + self.angle_step, ..self },
            _ => self,
        }
    }

    /// The orientation after a sequence of commands, applied first to last.
    pub open spec fn after_keys(self, keys: Seq<CameraKey>) -> CameraView
        decreases keys.len(),
    {
        if keys.len() == 0 {
            self
        } else {
            self.after_keys(keys.drop_last()).after_key(keys.last())
        }
    }

    /// The yaw of the next state fits a machine integer.
    pub open spec fn key_fits(self, k: CameraKey) -> bool {
        i64::MIN <= self.after_key(k).yaw <= i64::MAX
    }
}

/// Orientation state of a roll-free camera: yaw and pitch in whole degrees,
/// with the pitch kept within `[-PITCH_LIMIT, PITCH_LIMIT]`.
pub struct Camera {
    yaw: i64,
    pitch: i64,
    angle_step: u32,
}

impl View for Camera {
    type V = CameraView;

    closed spec fn view(&self) -> CameraView {
        CameraView { yaw: self.yaw as int, pitch: self.pitch as int, angle_step: self.angle_step as int }
    }
}

impl Camera {
    #[verifier::type_invariant]
    spec fn inv(self) -> bool {
        pitch_in_range(self.pitch as int)
    }

    /// A camera with the default orientation and the default angle step.
    pub fn new() -> (c: Camera)
        ensures
            c@ == (CameraView { yaw: DEFAULT_YAW as int, pitch: DEFAULT_PITCH as int, angle_step: DEFAULT_ANGLE_STEP as int }),
    {
        Camera::with_angle_step(DEFAULT_ANGLE_STEP)
    }

    /// A camera with the default orientation that turns `angle_step` degrees per rotation command.
    pub fn with_angle_step(angle_step: u32) -> (c: Camera)
        ensures
            c@ == (CameraView { yaw: DEFAULT_YAW as int, pitch: DEFAULT_PITCH as int, angle_step: angle_step as int }),
    {
        Camera { yaw: DEFAULT_YAW, pitch: DEFAULT_PITCH, angle_step }
    }

    /// The current yaw and pitch, in degrees.
    pub fn yaw_pitch(&self) -> (r: (i64, i64))
        ensures
            r.0 == self@.yaw,
            r.1 == self@.pitch,
            pitch_in_range(r.1 as int),
    {
        proof {
            use_type_invariant(self);
        }
        (self.yaw, self.pitch)
    }

    /// Degrees turned by one rotation command.
    pub fn angle_step(&self) -> (r: u32)
        ensures
            r == self@.angle_step,
    {
        self.angle_step
    }

    /// Applies one command to the orientation and returns what the position
    /// and basis must do in turn.
    pub fn process_key(&mut self, key: CameraKey) -> (m: Motion)
        requires
            old(self)@.key_fits(key),
        ensures
            final(self)@ == old(self)@.after_key(key),
            pitch_in_range(final(self)@.pitch),
            m == motion_of(key),
    {
        proof {
            use_type_invariant(&*self);
        }
        let step = self.angle_step as i64;
        match key {
            CameraKey::Forward => Motion::Translate { axis: Axis::Front, forward: true },
            CameraKey::Back => Motion::Translate { axis: Axis::Front, forward: false },
            CameraKey::Right => Motion::Translate { axis: Axis::Right, forward: true },
            CameraKey::Left => Motion::Translate { axis: Axis::Right, forward: false },
            CameraKey::PitchUp => {
                self.pitch = clamp_pitch_exec(self.pitch + step);
                Motion::Reorient
            },
            CameraKey::PitchDown => {
                self.pitch = clamp_pitch_exec(self.pitch - step);
                Motion::Reorient
            },
            CameraKey::YawLeft => {
                self.yaw = self.yaw - step;
                Motion::Reorient
            },
            CameraKey::YawRight => {
                self.yaw = self.yaw + step;
                Motion::Reorient
            },
        }
    }
}

/// Clamps a pitch, in degrees, to the allowed interval.
pub fn clamp_pitch_exec(p: i64) -> (r: i64)
    ensures
        r == clamp_pitch(p as int),
        pitch_in_range(r as int),
{
    if p > PITCH_LIMIT {
        PITCH_LIMIT
    } else if p < -PITCH_LIMIT {
        -PITCH_LIMIT
    } else {
        p
    }
}

/// From a pitch within the limits, every sequence of commands leaves the
/// pitch within the limits at every step along the way.
pub proof fn lemma_pitch_stays_in_range(v: CameraView, keys: Seq<CameraKey>)
    requires
        pitch_in_range(v.pitch),
    ensures
        forall|i: int| 0 <= i <= keys.len() ==> #[trigger] pitch_in_range(v.after_keys(keys.take(i)).pitch),
{
    assert forall|i: int| 0 <= i <= keys.len() implies #[trigger] pitch_in_range(v.after_keys(keys.take(i)).pitch) by {
        lemma_pitch_in_range_after_keys(v, keys.take(i));
    }
}

proof fn lemma_pitch_in_range_after_keys(v: CameraView, keys: Seq<CameraKey>)
    requires
        pitch_in_range(v.pitch),
    ensures
        pitch_in_range(v.after_keys(keys).pitch),
    decreases keys.len(),
{
    if keys.len() > 0 {
        lemma_pitch_in_range_after_keys(v, keys.drop_last());
    }
}

proof fn lemma_after_keys_keeps_step(v: CameraView, keys: Seq<CameraKey>)
    ensures
        v.after_keys(keys).angle_step == v.angle_step,
    decreases keys.len(),
{
    if keys.len() > 0 {
        lemma_after_keys_keeps_step(v, keys.drop_last());
    }
}

/// A rotation command asks for the basis to be derived again, and it changes
/// the yaw or the pitch unless the pitch already rests on the limit it pushes toward.
pub proof fn lemma_rotation_changes_orientation(v: CameraView, k: CameraKey)
    requires
        is_rotation(k),
        pitch_in_range(v.pitch),
        v.angle_step > 0,
    ensures
        motion_of(k) == Motion::Reorient,
        (v.after_key(k).yaw == v.yaw && v.after_key(k).pitch == v.pitch) <==> ((k == CameraKey::PitchUp
            && v.pitch == PITCH_LIMIT) || (k == CameraKey::PitchDown && v.pitch == -PITCH_LIMIT)),
{
}

/// `n` consecutive PitchUp commands raise the pitch by `n` steps, but no
/// further than `PITCH_LIMIT`.
pub proof fn lemma_pitch_up_saturates(v: CameraView, n: nat)
    requires
        pitch_in_range(v.pitch),
        v.angle_step >= 0,
    ensures
        v.after_keys(repeat_key(CameraKey::PitchUp, n)).pitch == if v.pitch + n * v.angle_step
            > PITCH_LIMIT {
            PITCH_LIMIT as int
        } else {
            v.pitch + n * v.angle_step
        },
    decreases n,
{
    let keys = repeat_key(CameraKey::PitchUp, n);
    if n == 0 {
        assert(n * v.angle_step == 0);
    } else {
        let m = (n - 1) as nat;
        assert(keys.drop_last() =~= repeat_key(CameraKey::PitchUp, m));
        assert(keys.last() == CameraKey::PitchUp);
        lemma_pitch_up_saturates(v, m);
        let prev = v.after_keys(keys.drop_last());
        assert(v.after_keys(keys) == prev.after_key(CameraKey::PitchUp));
        assert(m * v.angle_step + v.angle_step == n * v.angle_step) by (nonlinear_arith)
            requires
                m + 1 == n,
        ;
        assert(0 <= m * v.angle_step) by (nonlinear_arith)
            requires
                v.angle_step >= 0,
        ;
        lemma_after_keys_keeps_step(v, keys.drop_last());
    }
}

/// `n` consecutive YawRight commands turn the yaw by `n` steps, with no clamp,
/// and leave the pitch as it was.
pub proof fn lemma_yaw_right_accumulates(v: CameraView, n: nat)
    ensures
        v.after_keys(repeat_key(CameraKey::YawRight, n)).yaw == v.yaw + n * v.angle_step,
        v.after_keys(repeat_key(CameraKey::YawRight, n)).pitch == v.pitch,
    decreases n,
{
    let keys = repeat_key(CameraKey::YawRight, n);
    if n == 0 {
        assert(n * v.angle_step == 0);
    } else {
        let m = (n - 1) as nat;
        assert(keys.drop_last() =~= repeat_key(CameraKey::YawRight, m));
        assert(keys.last() == CameraKey::YawRight);
        lemma_yaw_right_accumulates(v, m);
        lemma_after_keys_keeps_step(v, keys.drop_last());
        assert(m * v.angle_step + v.angle_step == n * v.angle_step) by (nonlinear_arith)
            requires
                m + 1 == n,
        ;
    }
}

} // verus!
