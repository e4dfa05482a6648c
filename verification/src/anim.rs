//! Tick-driven convergence of a current pose toward a target pose.
//!
//! One `tick` advances every keypoint of the current pose toward the matching
//! keypoint of the target pose by a fixed step magnitude per axis, clamped so
//! it never overshoots, and bumps a wrapping tick counter.  Labels the target
//! pose lacks are silently dropped from the current pose.

use vstd::prelude::*;

use crate::pose::LABEL_COUNT;
use crate::pose::PointData;
use crate::pose::Pose;
use crate::repo::FaceRepo;

verus! {

/// How far one tick moves each coordinate axis, in pixels.
pub const STEP_MAGNITUDE: i32 = 2;

/// The tick counter wraps back to zero at this modulus.
pub const TICK_MODULUS: u32 = 128;

/// One axis of a single animation step: move `start` toward `target` by at
/// most `step`, never overshooting, and stay put once equal.
pub open spec fn interp_spec(start: int, target: int, step: int) -> int {
    if start < target {
        if start + step <= target {
            start + step
        } else {
            target
        }
    } else if start > target {
        if start - step >= target {
            start - step
        } else {
            target
        }
    } else {
        start
    }
}

/// Move one coordinate axis toward `target` by a fixed step magnitude,
/// clamped so it never overshoots.
pub fn interpolate(start: i32, target: i32, step: i32) -> (r: i32)
    requires
        0 <= step,
    ensures
        r == interp_spec(start as int, target as int, step as int),
{
    if start < target {
        if (target as i64) - (start as i64) <= (step as i64) {
            target
        } else {
            start + step
        }
    } else if start > target {
        if (start as i64) - (target as i64) <= (step as i64) {
            target
        } else {
            start - step
        }
    } else {
        start
    }
}

/// What one step makes of a single pose slot: present in both poses, the
/// point moves toward the target; absent from either pose, the slot empties.
pub open spec fn step_slot_spec(c: Option<PointData>, t: Option<PointData>, step: int) -> Option<
    PointData,
> {
    match (c, t) {
        (Some(cp), Some(tp)) => Some(
            PointData {
                x: interp_spec(cp.x as int, tp.x as int, step) as i32,
                y: interp_spec(cp.y as int, tp.y as int, step) as i32,
            },
        ),
        _ => None,
    }
}

/// Compute the pose one step closer to `target`, slot by slot, from a
/// consistent snapshot of both poses.
pub fn step_pose(current: &Pose, target: &Pose, step: i32) -> (r: Pose)
    requires
        current.wf(),
        target.wf(),
        0 <= step,
    ensures
        r.wf(),
        forall|k: int|
            0 <= k < LABEL_COUNT ==> r.spec_get(k) == step_slot_spec(
                current.spec_get(k),
                target.spec_get(k),
                step as int,
            ),
{
    let mut r = Pose::empty();
    let mut k: usize = 0;
    while k < LABEL_COUNT
        invariant
            current.wf(),
            target.wf(),
            r.wf(),
            0 <= step,
            k <= LABEL_COUNT,
            forall|j: int|
                0 <= j < k ==> r.spec_get(j) == step_slot_spec(
                    current.spec_get(j),
                    target.spec_get(j),
                    step as int,
                ),
            forall|j: int| k <= j < LABEL_COUNT ==> r.spec_get(j) is None,
        decreases LABEL_COUNT - k,
    {
        match (current.get(k), target.get(k)) {
            (Some(cp), Some(tp)) => {
                let nx = interpolate(cp.x, tp.x, step);
                let ny = interpolate(cp.y, tp.y, step);
                r.set(k, PointData { x: nx, y: ny });
            },
            _ => {},
        }
        k = k + 1;
    }
    r
}

/// The mutable animation state: current pose, target pose, and the wrapping
/// tick counter.
pub struct AnimationState {
    pub current: Pose,
    pub target: Pose,
    pub counter: u32,
}

impl AnimationState {
    /// Both poses hold one slot per label and the counter sits below the
    /// wrap modulus.
    pub open spec fn wf(self) -> bool {
        &&& self.current.wf()
        &&& self.target.wf()
        &&& self.counter < TICK_MODULUS
    }

    /// Start animating from `current` toward `target`, with the tick
    /// counter at zero.
    pub fn new(current: Pose, target: Pose) -> (r: AnimationState)
        requires
            current.wf(),
            target.wf(),
        ensures
            r.wf(),
            r.current == current,
            r.target == target,
            r.counter == 0,
    {
        AnimationState { current, target, counter: 0 }
    }

    /// Advance the animation by one tick: every slot of the current pose
    /// steps toward the target pose, and the counter bumps, wrapping at the
    /// modulus.  Convergence is driven only by repeated calls, never by the
    /// counter's value.
    pub fn tick(&mut self)
        requires
            old(self).wf(),
        ensures
            final(self).wf(),
            final(self).target == old(self).target,
            final(self).counter == (old(self).counter + 1) % (TICK_MODULUS as int),
            forall|k: int|
                0 <= k < LABEL_COUNT ==> final(self).current.spec_get(k) == step_slot_spec(
                    old(self).current.spec_get(k),
                    old(self).target.spec_get(k),
                    STEP_MAGNITUDE as int,
                ),
    {
        let next = step_pose(&self.current, &self.target, STEP_MAGNITUDE);
        self.current = next;
        self.counter = (self.counter + 1) % TICK_MODULUS;
    }

    /// Replace the target pose with a pose chosen uniformly at random from
    /// the repository; current pose and counter stay as they were.
    pub fn set_face(&mut self, repo: &FaceRepo)
        requires
            old(self).wf(),
            repo.wf(),
            repo.len() > 0,
        ensures
            final(self).wf(),
            final(self).current == old(self).current,
            final(self).counter == old(self).counter,
            exists|i: int|
                0 <= i < repo.len() && crate::pose::pose_eq(final(self).target, repo.spec_pose(i)),
    {
        self.target = repo.get_random_face();
    }

    /// Observe the tick counter.
    pub fn get_tick_state(&self) -> (r: u32)
        ensures
            r == self.counter,
    {
        self.counter
    }
}

/// The absolute difference of two integers.
pub open spec fn dist(a: int, b: int) -> int {
    if a >= b {
        a - b
    } else {
        b - a
    }
}

/// One step never overshoots: the distance to the target never grows, and
/// the result sits on the same side of the target as the start, or on it.
pub proof fn lemma_step_no_overshoot(start: int, target: int, step: int)
    requires
        0 <= step,
    ensures
        dist(interp_spec(start, target, step), target) <= dist(start, target),
        interp_spec(start, target, step) == target || (interp_spec(start, target, step) < target
            <==> start < target),
{
}

/// The result of `n` repeated steps along one axis.
pub open spec fn interp_iter(start: int, target: int, step: int, n: nat) -> int
    decreases n,
{
    if n == 0 {
        start
    } else {
        interp_spec(interp_iter(start, target, step, (n - 1) as nat), target, step)
    }
}

/// `n` steps move the start `n * step` toward the target, clamped there.
spec fn moved(start: int, target: int, step: int, n: nat) -> int {
    if start <= target {
        if start + n * step <= target {
            start + n * step
        } else {
            target
        }
    } else {
        if start - n * step >= target {
            start - n * step
        } else {
            target
        }
    }
}

proof fn lemma_iter_is_moved(start: int, target: int, step: int, n: nat)
    requires
        0 <= step,
    ensures
        interp_iter(start, target, step, n) == moved(start, target, step, n),
    decreases n,
{
    if n > 0 {
        let m = (n - 1) as nat;
        lemma_iter_is_moved(start, target, step, m);
        assert(n * step == m * step + step) by (nonlinear_arith)
            requires
                n == m + 1,
        ;
        assert(m * step >= 0) by (nonlinear_arith)
            requires
                m >= 0,
                step >= 0,
        ;
    }
}

/// How many steps one axis needs to reach the target: `ceil(dist / step)`.
pub open spec fn steps_needed(start: int, target: int, step: int) -> int {
    (dist(start, target) + step - 1) / step
}

/// Repeated steps with a fixed positive magnitude reach the target in
/// exactly `ceil(dist / step)` calls: no earlier, and every later call
/// leaves the axis on the target.
pub proof fn lemma_step_convergence(start: int, target: int, step: int, n: nat)
    requires
        1 <= step,
    ensures
        n >= steps_needed(start, target, step) ==> interp_iter(start, target, step, n) == target,
        n < steps_needed(start, target, step) ==> interp_iter(start, target, step, n) != target,
{
    lemma_iter_is_moved(start, target, step, n);
    let d = dist(start, target);
    let c = steps_needed(start, target, step);
    vstd::arithmetic::div_mod::lemma_fundamental_div_mod(d + step - 1, step);
    let r = (d + step - 1) % step;
    vstd::arithmetic::div_mod::lemma_mod_bound(d + step - 1, step);
    assert(step * c == d + step - 1 - r);
    if n >= c {
        assert(n * step >= c * step) by (nonlinear_arith)
            requires
                n >= c,
                step >= 1,
        ;
        assert(c * step == step * c) by (nonlinear_arith);
        assert(n * step >= d);
    } else {
        assert(n * step <= (c - 1) * step) by (nonlinear_arith)
            requires
                n <= c - 1,
                step >= 1,
        ;
        assert((c - 1) * step == step * c - step) by (nonlinear_arith);
        assert(n * step < d);
        assert(n * step >= 0) by (nonlinear_arith)
            requires
                n >= 0,
                step >= 1,
        ;
    }
}

/// What one bump makes of the tick counter.
pub open spec fn tick_wrap(c: int) -> int {
    (c + 1) % (TICK_MODULUS as int)
}

/// The counter after `n` bumps from `c`.
pub open spec fn tick_iter(c: int, n: nat) -> int
    decreases n,
{
    if n == 0 {
        c
    } else {
        tick_wrap(tick_iter(c, (n - 1) as nat))
    }
}

proof fn lemma_tick_iter_mod(c: int, n: nat)
    requires
        0 <= c < TICK_MODULUS,
    ensures
        tick_iter(c, n) == (c + n) % (TICK_MODULUS as int),
    decreases n,
{
    let m = TICK_MODULUS as int;
    if n == 0 {
        vstd::arithmetic::div_mod::lemma_small_mod(c as nat, TICK_MODULUS as nat);
    } else {
        lemma_tick_iter_mod(c, (n - 1) as nat);
        vstd::arithmetic::div_mod::lemma_small_mod(1nat, TICK_MODULUS as nat);
        vstd::arithmetic::div_mod::lemma_add_mod_noop(c + n - 1, 1, m);
    }
}

/// The tick counter wraps: bumping it `TICK_MODULUS` times from any counter
/// value below the modulus brings it back to that value.
pub proof fn lemma_tick_counter_wraps(c: int)
    requires
        0 <= c < TICK_MODULUS,
    ensures
        tick_iter(c, TICK_MODULUS as nat) == c,
{
    let m = TICK_MODULUS as int;
    lemma_tick_iter_mod(c, TICK_MODULUS as nat);
    vstd::arithmetic::div_mod::lemma_mod_add_multiples_vanish(c, m);
    vstd::arithmetic::div_mod::lemma_small_mod(c as nat, TICK_MODULUS as nat);
}

} // verus!

