//! The warp transition machine.
//!
//! A warp is a timed, animated camera relocation: `Idle` until
//! `start_warp`, then `Warping` while the eye travels along an
//! ease-in-out cubic from the start to the target, then a short
//! `Arriving` hold pinned exactly on the target, then `Idle` again.
//! `update` both advances the machine and yields the eye position for
//! the frame; its whole effect is the spec transition `warp_step`.

use vstd::prelude::*;

verus! {

use crate::fixed::{
    fx_div, fx_div_s, fx_min, fx_mul, fx_mul_s, lemma_fx_div_ge_one, lemma_fx_div_nonneg,
    lemma_fx_mul_mono, FX_HALF, FX_ONE, FX_WORLD,
};
use crate::vec3::{v3_in, v3_lerp, Vec3};
use vstd::math::min;

/// How long the machine holds on the target after travel, in
/// fixed-point seconds (0.3 s).
pub const ARRIVAL_HOLD: i64 = 19661;

/// The three phases of a warp.
#[derive(Clone, Copy, PartialEq, Eq, Structural, Debug)]
pub enum WarpState {
    /// No warp in progress; `update` has no effect.
    Idle,
    /// Animated travel from the start toward the target.
    Warping,
    /// Settle hold, pinned exactly on the target.
    Arriving,
}

/// The mathematical state of the machine: what a `WarpEffect` means.
pub struct WarpModel {
    pub state: WarpState,
    pub progress: int,
    pub duration: int,
    pub start: (int, int, int),
    pub target: (int, int, int),
    pub time: int,
}

/// The animated teleport effect.
pub struct WarpEffect {
    /// Current phase.
    pub state: WarpState,
    /// Fraction of the current phase elapsed, in [0, FX_ONE].
    pub progress: i64,
    /// Travel time of the `Warping` phase, fixed-point seconds.
    pub duration: i64,
    /// Eye position when the warp began.
    pub start_position: Vec3,
    /// Eye position the warp travels to.
    pub target_position: Vec3,
    /// Time since the current phase was entered, fixed-point seconds.
    pub current_time: i64,
}

impl View for WarpEffect {
    type V = WarpModel;

    open spec fn view(&self) -> WarpModel {
        WarpModel {
            state: self.state,
            progress: self.progress as int,
            duration: self.duration as int,
            start: self.start_position@,
            target: self.target_position@,
            time: self.current_time as int,
        }
    }
}

/// A well-formed machine: positive travel time, a phase fraction within
/// one unit, world-sized endpoints, and a phase timer that has not yet
/// crossed the phase's own deadline.
pub open spec fn warp_wf(w: WarpModel) -> bool {
    &&& 0 < w.duration <= FX_WORLD
    &&& 0 <= w.progress <= FX_ONE
    &&& v3_in(w.start, FX_WORLD as int)
    &&& v3_in(w.target, FX_WORLD as int)
    &&& match w.state {
        WarpState::Idle => 0 <= w.time <= 2 * FX_WORLD,
        WarpState::Warping => 0 <= w.time < w.duration,
        WarpState::Arriving => 0 <= w.time < ARRIVAL_HOLD,
    }
}

/// The cubic ease-in-out curve on [0, FX_ONE]: `4 t^3` on the first
/// half, `1 - (-2t + 2)^3 / 2` on the second.
pub open spec fn ease_s(t: int) -> int {
    if t < FX_HALF {
        4 * fx_mul_s(fx_mul_s(t, t), t)
    } else {
        let u = 2 * (FX_ONE - t);
        FX_ONE - fx_mul_s(fx_mul_s(u, u), u) / 2
    }
}

/// One `update` call: the next machine state and the eye position the
/// call yields, as functions of the state before the call and the
/// frame's time step.
pub open spec fn warp_step(w: WarpModel, dt: int) -> (WarpModel, Option<(int, int, int)>) {
    match w.state {
        WarpState::Idle => (w, None::<(int, int, int)>),
        WarpState::Warping => {
            let t = w.time + dt;
            let p = min(fx_div_s(t, w.duration), FX_ONE as int);
            let pos = v3_lerp(w.start, w.target, ease_s(p));
            if p >= FX_ONE {
                (WarpModel { state: WarpState::Arriving, progress: 0, time: 0, ..w }, Some(pos))
            } else {
                (WarpModel { state: WarpState::Warping, progress: p, time: t, ..w }, Some(pos))
            }
        },
        WarpState::Arriving => {
            let t = w.time + dt;
            let p = min(fx_div_s(t, ARRIVAL_HOLD as int), FX_ONE as int);
            if p >= FX_ONE {
                (WarpModel { state: WarpState::Idle, progress: p, time: t, ..w }, Some(w.target))
            } else {
                (
                    WarpModel { state: WarpState::Arriving, progress: p, time: t, ..w },
                    Some(w.target),
                )
            }
        },
    }
}

/// The visual distortion the machine reports: zero when idle, a
/// triangular peak at half progress while warping, a linear decay while
/// arriving.
pub open spec fn distortion_s(w: WarpModel) -> int {
    match w.state {
        WarpState::Idle => 0,
        WarpState::Warping => FX_ONE - 2 * (if w.progress >= FX_HALF {
            w.progress - FX_HALF
        } else {
            FX_HALF - w.progress
        }),
        WarpState::Arriving => FX_ONE - w.progress,
    }
}

impl WarpEffect {
    /// A fresh machine: idle, with a one-second travel time.
    pub fn new() -> (r: WarpEffect)
        ensures
            r@ == (WarpModel {
                state: WarpState::Idle,
                progress: 0,
                duration: FX_ONE as int,
                start: (0int, 0int, 0int),
                target: (0int, 0int, 0int),
                time: 0,
            }),
            warp_wf(r@),
    {
        WarpEffect {
            state: WarpState::Idle,
            progress: 0,
            duration: FX_ONE,
            start_position: Vec3::zeros(),
            target_position: Vec3::zeros(),
            current_time: 0,
        }
    }

    /// Begins (or restarts) a warp from `from` to `to`: the machine is
    /// forced into `Warping` with both timers cleared.
    pub fn start_warp(&mut self, from: Vec3, to: Vec3)
        requires
            warp_wf(old(self)@),
            v3_in(from@, FX_WORLD as int),
            v3_in(to@, FX_WORLD as int),
        ensures
            final(self)@ == (WarpModel {
                state: WarpState::Warping,
                progress: 0,
                time: 0,
                start: from@,
                target: to@,
                duration: old(self)@.duration,
            }),
            warp_wf(final(self)@),
    {
        self.state = WarpState::Warping;
        self.progress = 0;
        self.current_time = 0;
        self.start_position = from;
        self.target_position = to;
    }

    /// Advances the machine by one frame and yields the eye position
    /// for the frame, exactly as `warp_step` describes; `None` only
    /// when idle.
    pub fn update(&mut self, delta_time: i64) -> (r: Option<Vec3>)
        requires
            warp_wf(old(self)@),
            0 <= delta_time <= FX_WORLD,
        ensures
            final(self)@ == warp_step(old(self)@, delta_time as int).0,
            warp_wf(final(self)@),
            match r {
                Some(p) => warp_step(old(self)@, delta_time as int).1 == Some(p@),
                None => warp_step(old(self)@, delta_time as int).1 is None,
            },
            r is Some <==> old(self)@.state != WarpState::Idle,
    {
        match self.state {
            WarpState::Idle => None,
            WarpState::Warping => {
                let t = self.current_time + delta_time;
                proof {
                    lemma_fx_div_nonneg(t as int, self.duration as int);
                }
                let p = fx_min(fx_div(t, self.duration), FX_ONE);
                let eased = ease_in_out_cubic(p);
                let pos = interpolate(&self.start_position, &self.target_position, eased);
                if p >= FX_ONE {
                    self.state = WarpState::Arriving;
                    self.progress = 0;
                    self.current_time = 0;
                } else {
                    proof {
                        if t as int >= self.duration as int {
                            lemma_fx_div_ge_one(t as int, self.duration as int);
                        }
                    }
                    self.progress = p;
                    self.current_time = t;
                }
                Some(pos)
            },
            WarpState::Arriving => {
                let t = self.current_time + delta_time;
                proof {
                    lemma_fx_div_nonneg(t as int, ARRIVAL_HOLD as int);
                }
                let p = fx_min(fx_div(t, ARRIVAL_HOLD), FX_ONE);
                if p >= FX_ONE {
                    self.state = WarpState::Idle;
                } else {
                    proof {
                        if t as int >= ARRIVAL_HOLD as int {
                            lemma_fx_div_ge_one(t as int, ARRIVAL_HOLD as int);
                        }
                    }
                }
                self.progress = p;
                self.current_time = t;
                Some(self.target_position)
            },
        }
    }

    /// The visual distortion for the frame, exactly as `distortion_s`:
    /// zero when idle, peaking at one unit at half progress while
    /// warping, decaying linearly to zero while arriving.
    pub fn get_distortion_factor(&self) -> (r: i64)
        requires
            warp_wf(self@),
        ensures
            r == distortion_s(self@),
            0 <= r <= FX_ONE,
    {
        match self.state {
            WarpState::Idle => 0,
            WarpState::Warping => {
                let d = if self.progress >= FX_HALF {
                    self.progress - FX_HALF
                } else {
                    FX_HALF - self.progress
                };
                FX_ONE - 2 * d
            },
            WarpState::Arriving => FX_ONE - self.progress,
        }
    }

    /// Whether a warp is in progress; while true, no other mechanism
    /// may drive the camera eye.
    pub fn is_active(&self) -> (r: bool)
        ensures
            r == (self@.state != WarpState::Idle),
    {
        !matches!(self.state, WarpState::Idle)
    }
}

impl Default for WarpEffect {
    /// Same as `new`: a fresh idle machine.
    fn default() -> (r: WarpEffect)
        ensures
            r@ == (WarpModel {
                state: WarpState::Idle,
                progress: 0,
                duration: FX_ONE as int,
                start: (0int, 0int, 0int),
                target: (0int, 0int, 0int),
                time: 0,
            }),
            warp_wf(r@),
    {
        WarpEffect::new()
    }
}

/// The cubic ease-in-out curve, exactly as `ease_s`; a fraction in
/// maps to a fraction out, with the endpoints fixed.
fn ease_in_out_cubic(t: i64) -> (r: i64)
    requires
        0 <= t <= FX_ONE,
    ensures
        r == ease_s(t as int),
        0 <= r <= FX_ONE,
{
    if t < FX_HALF {
        let t2 = fx_mul(t, t);
        proof {
            lemma_fx_mul_mono(t as int, t as int, FX_HALF as int, FX_HALF as int);
        }
        let t3 = fx_mul(t2, t);
        proof {
            lemma_fx_mul_mono(t2 as int, t as int, 16384, FX_HALF as int);
        }
        4 * t3
    } else {
        let u = 2 * (FX_ONE - t);
        let u2 = fx_mul(u, u);
        proof {
            lemma_fx_mul_mono(u as int, u as int, FX_ONE as int, FX_ONE as int);
        }
        let u3 = fx_mul(u2, u);
        proof {
            lemma_fx_mul_mono(u2 as int, u as int, FX_ONE as int, FX_ONE as int);
        }
        let half_u3 = ((u3 as u64) / 2) as i64;
        FX_ONE - half_u3
    }
}

/// Linear interpolation between two world points by a fixed-point
/// fraction, exactly as `lerp_s`.
fn interpolate(a: &Vec3, b: &Vec3, t: i64) -> (r: Vec3)
    requires
        v3_in(a@, FX_WORLD as int),
        v3_in(b@, FX_WORLD as int),
        0 <= t <= FX_ONE,
    ensures
        r@ == v3_lerp(a@, b@, t as int),
{
    proof {
        crate::fixed::lemma_fx_mul_bound(a@.0, FX_ONE - t as int, FX_WORLD as int);
        crate::fixed::lemma_fx_mul_bound(a@.1, FX_ONE - t as int, FX_WORLD as int);
        crate::fixed::lemma_fx_mul_bound(a@.2, FX_ONE - t as int, FX_WORLD as int);
        crate::fixed::lemma_fx_mul_bound(b@.0, t as int, FX_WORLD as int);
        crate::fixed::lemma_fx_mul_bound(b@.1, t as int, FX_WORLD as int);
        crate::fixed::lemma_fx_mul_bound(b@.2, t as int, FX_WORLD as int);
    }
    let pa = a.scale(FX_ONE - t);
    let pb = b.scale(t);
    pa.add(&pb)
}

/// Iterated updates of the machine, at the spec level: the state after
/// a whole sequence of frame steps.
pub open spec fn warp_run(w: WarpModel, dts: Seq<int>) -> WarpModel
    decreases dts.len(),
{
    if dts.len() == 0 {
        w
    } else {
        warp_run(warp_step(w, dts[0]).0, dts.drop_first())
    }
}

/// The sum of a sequence of time steps.
pub open spec fn sum_of(dts: Seq<int>) -> int
    decreases dts.len(),
{
    if dts.len() == 0 {
        0
    } else {
        dts[0] + sum_of(dts.drop_first())
    }
}

/// All steps of a frame sequence are plausible frame times.
pub open spec fn frames_ok(dts: Seq<int>) -> bool {
    forall|i: int| 0 <= i < dts.len() ==> 0 <= #[trigger] dts[i] <= FX_WORLD
}

/// Travel completes: from `Warping`, once the frame steps sum to at
/// least the remaining travel time, the machine has left `Warping` for
/// `Arriving` (or already for `Idle`), and each later frame yields
/// exactly the target position.
pub proof fn lemma_warp_travel_completes(w: WarpModel, dts: Seq<int>)
    requires
        warp_wf(w),
        w.state == WarpState::Warping,
        frames_ok(dts),
        w.time + sum_of(dts) >= w.duration,
    ensures
        warp_run(w, dts).state != WarpState::Warping,
        warp_wf(warp_run(w, dts)),
    decreases dts.len(),
{
    if dts.len() == 0 {
    } else {
        lemma_warp_step_wf(w, dts[0]);
        let (w1, _) = warp_step(w, dts[0]);
        assert(frames_ok(dts.drop_first())) by {
            assert(forall|i: int|
                0 <= i < dts.drop_first().len() ==> dts.drop_first()[i] == dts[i + 1]);
        }
        if w1.state == WarpState::Warping {
            assert(w1.time == w.time + dts[0]);
            assert(sum_of(dts) == dts[0] + sum_of(dts.drop_first()));
            lemma_warp_travel_completes(w1, dts.drop_first());
        } else {
            lemma_warp_leaves_stay(w1, dts.drop_first());
        }
    }
}

/// Once the machine has left `Warping`, later frames never re-enter it
/// (only `start_warp` does), and well-formedness is preserved.
pub proof fn lemma_warp_leaves_stay(w: WarpModel, dts: Seq<int>)
    requires
        warp_wf(w),
        w.state != WarpState::Warping,
        frames_ok(dts),
    ensures
        warp_run(w, dts).state != WarpState::Warping,
        warp_wf(warp_run(w, dts)),
    decreases dts.len(),
{
    if dts.len() == 0 {
    } else {
        lemma_warp_step_wf(w, dts[0]);
        assert(frames_ok(dts.drop_first())) by {
            assert(forall|i: int|
                0 <= i < dts.drop_first().len() ==> dts.drop_first()[i] == dts[i + 1]);
        }
        lemma_warp_leaves_stay(warp_step(w, dts[0]).0, dts.drop_first());
    }
}

/// One spec step preserves well-formedness.
pub proof fn lemma_warp_step_wf(w: WarpModel, dt: int)
    requires
        warp_wf(w),
        0 <= dt <= FX_WORLD,
    ensures
        warp_wf(warp_step(w, dt).0),
{
    match w.state {
        WarpState::Idle => {},
        WarpState::Warping => {
            let t = w.time + dt;
            lemma_fx_div_nonneg(t, w.duration);
            if t >= w.duration {
                lemma_fx_div_ge_one(t, w.duration);
            }
        },
        WarpState::Arriving => {
            let t = w.time + dt;
            lemma_fx_div_nonneg(t, ARRIVAL_HOLD as int);
            if t >= ARRIVAL_HOLD as int {
                lemma_fx_div_ge_one(t, ARRIVAL_HOLD as int);
            }
        },
    }
}

/// The frame that completes the travel yields exactly the target: a
/// step from `Warping` whose timer crosses the travel time moves to
/// `Arriving` and returns the target position, and every step taken in
/// `Arriving` returns the target position as well.
pub proof fn lemma_warp_arrival_position(w: WarpModel, dt: int)
    requires
        warp_wf(w),
        0 <= dt,
    ensures
        w.state == WarpState::Warping && w.time + dt >= w.duration ==> warp_step(w, dt)
            == (WarpModel { state: WarpState::Arriving, progress: 0, time: 0, ..w }, Some(
            w.target,
        )),
        w.state == WarpState::Arriving ==> warp_step(w, dt).1 == Some(w.target),
{
    if w.state == WarpState::Warping && w.time + dt >= w.duration {
        let t = w.time + dt;
        lemma_fx_div_ge_one(t, w.duration);
        let p = min(fx_div_s(t, w.duration), FX_ONE as int);
        assert(p == FX_ONE as int);
        assert(ease_s(FX_ONE as int) == FX_ONE as int) by {
            assert(2 * (FX_ONE - FX_ONE as int) == 0);
            crate::fixed::lemma_fx_mul_zero(0);
            crate::fixed::lemma_fx_mul_zero(fx_mul_s(0, 0));
        }
        assert(v3_lerp(w.start, w.target, FX_ONE as int) == w.target) by {
            crate::fixed::lemma_fx_mul_zero(w.start.0);
            crate::fixed::lemma_fx_mul_zero(w.start.1);
            crate::fixed::lemma_fx_mul_zero(w.start.2);
            crate::fixed::lemma_fx_mul_one(w.target.0);
            crate::fixed::lemma_fx_mul_one(w.target.1);
            crate::fixed::lemma_fx_mul_one(w.target.2);
        }
    }
}

/// The hold completes: from `Arriving`, once the frame steps sum to at
/// least the remaining hold time, the machine is `Idle`.
pub proof fn lemma_warp_hold_completes(w: WarpModel, dts: Seq<int>)
    requires
        warp_wf(w),
        w.state == WarpState::Arriving,
        frames_ok(dts),
        w.time + sum_of(dts) >= ARRIVAL_HOLD as int,
    ensures
        warp_run(w, dts).state == WarpState::Idle,
    decreases dts.len(),
{
    if dts.len() == 0 {
    } else {
        lemma_warp_step_wf(w, dts[0]);
        let (w1, _) = warp_step(w, dts[0]);
        assert(frames_ok(dts.drop_first())) by {
            assert(forall|i: int|
                0 <= i < dts.drop_first().len() ==> dts.drop_first()[i] == dts[i + 1]);
        }
        if w1.state == WarpState::Arriving {
            if w.time + dts[0] >= ARRIVAL_HOLD as int {
                lemma_fx_div_ge_one(w.time + dts[0], ARRIVAL_HOLD as int);
            }
            lemma_warp_hold_completes(w1, dts.drop_first());
        } else {
            lemma_warp_idle_stays(w1, dts.drop_first());
        }
    }
}

/// An idle machine stays idle under frame steps.
pub proof fn lemma_warp_idle_stays(w: WarpModel, dts: Seq<int>)
    requires
        w.state == WarpState::Idle,
    ensures
        warp_run(w, dts) == w,
    decreases dts.len(),
{
    if dts.len() == 0 {
    } else {
        lemma_warp_idle_stays(w, dts.drop_first());
    }
}

/// The distortion peaks at exactly one unit at half progress while
/// warping, and is zero when idle.
pub proof fn lemma_distortion_peak(w: WarpModel)
    ensures
        w.state == WarpState::Idle ==> distortion_s(w) == 0,
        w.state == WarpState::Warping && w.progress == FX_HALF as int ==> distortion_s(w)
            == FX_ONE as int,
{
}

/// While arriving, progress never falls: each further frame's step
/// leaves it at least where it was, so by `lemma_distortion_decays`
/// the distortion decreases monotonically until the hold ends.
pub proof fn lemma_arriving_progress_monotone(w: WarpModel, dt: int)
    requires
        warp_wf(w),
        w.state == WarpState::Arriving,
        w.progress == fx_div_s(w.time, ARRIVAL_HOLD as int),
        0 <= dt,
    ensures
        warp_step(w, dt).0.progress >= w.progress,
{
    let t = w.time + dt;
    assert(w.time * FX_ONE <= t * FX_ONE);
    vstd::arithmetic::div_mod::lemma_div_is_ordered(
        w.time * FX_ONE,
        t * FX_ONE,
        ARRIVAL_HOLD as int,
    );
}

/// While arriving, the distortion only falls as progress rises, and it
/// reaches exactly zero at full progress.
pub proof fn lemma_distortion_decays(w1: WarpModel, w2: WarpModel)
    requires
        w1.state == WarpState::Arriving,
        w2.state == WarpState::Arriving,
        w1.progress <= w2.progress,
    ensures
        distortion_s(w2) <= distortion_s(w1),
        w2.progress == FX_ONE as int ==> distortion_s(w2) == 0,
{
}

} // verus!
