use vstd::prelude::*;

verus! {

/// Step-time parameter of the outbound move command.
pub const RAMP_T: i32 = 4;

/// Position bound of the plotter.
pub const MAX_Y: i32 = 1000;

/// Velocity bound of the plotter: `RAMP_T * 20`.
pub const MAX_V: i32 = 80;

/// Acceleration bound of the plotter.
pub const MAX_A: i32 = 5;

/// Bound on the one-step change of acceleration.
pub const MAX_J: i32 = 5;

/// Midpoint of the raw sensor sample range, subtracted when centering.
pub const SCALE_MID: i32 = 512;

/// Divisor that normalizes a centered sample.
pub const SCALE_DIV: i32 = 1024;

/// Mathematical clamp of `x` into `[lo, hi]`.
pub open spec fn iclamp(x: int, lo: int, hi: int) -> int {
    if x < lo {
        lo
    } else if x > hi {
        hi
    } else {
        x
    }
}

/// Integer division that truncates toward zero, for a positive divisor.
pub open spec fn tdiv(a: int, b: int) -> int {
    if a >= 0 {
        a / b
    } else {
        -((-a) / b)
    }
}

/// Clamp `val` into the inclusive range `[min, max]`.
pub fn clamp(val: i32, min: i32, max: i32) -> (r: i32)
    requires
        min <= max,
    ensures
        r == iclamp(val as int, min as int, max as int),
        min <= r <= max,
{
    let mut x = val;
    if x < min {
        x = min;
    }
    if x > max {
        x = max;
    }
    x
}

/// Clamp a 64-bit value into `[min, max]`.
fn clamp64(val: i64, min: i64, max: i64) -> (r: i64)
    requires
        min <= max,
    ensures
        r == iclamp(val as int, min as int, max as int),
        min <= r <= max,
{
    let mut x = val;
    if x < min {
        x = min;
    }
    if x > max {
        x = max;
    }
    x
}

/// Divide truncating toward zero, as the `/` of the machine does.
fn div_trunc(a: i64, b: i64) -> (r: i64)
    requires
        b > 0,
        -0x4000_0000_0000_0000 < a < 0x4000_0000_0000_0000,
    ensures
        r == tdiv(a as int, b as int),
{
    if a >= 0 {
        let q = (a as u64) / (b as u64);
        q as i64
    } else {
        let m = (-a) as u64;
        let q = m / (b as u64);
        -(q as i64)
    }
}

/// The signed position target a smoothed sample scales to: centered on
/// `SCALE_MID`, normalized by `SCALE_DIV` and scaled by `MAX_Y`, truncating
/// toward zero.
pub open spec fn scaled_target(avg: int) -> int {
    tdiv((avg - SCALE_MID) * MAX_Y, SCALE_DIV as int)
}

/// Scale a smoothed sample to a signed position target: center it on
/// `SCALE_MID`, normalize by `SCALE_DIV` and scale by `MAX_Y`, truncating
/// toward zero. Sensor samples are two bytes wide, so the sample stays below
/// 65536.
pub fn scale_target(avg: u32) -> (r: i32)
    requires
        avg <= 65535,
    ensures
        r == scaled_target(avg as int),
        -500 <= r <= 63499,
{
    let d: i64 = (avg as i64) - (SCALE_MID as i64);
    assert(-512 <= d <= 65023);
    assert(d * 1000 == d * (MAX_Y as i64));
    let q = div_trunc(d * 1000, SCALE_DIV as i64);
    q as i32
}

/// Jerk-limited lookahead controller: motion state (position `y`, velocity
/// `yv`, acceleration `ya`), each bounded by the plotter's physical limits,
/// and the two most recently seen future targets for the 3-point
/// finite-difference lookahead.
pub struct Controller {
    pub y: i32,
    pub yv: i32,
    pub ya: i32,
    pub targety: i32,
    pub nexty: i32,
}

/// The jerk the controller applies for target `aftery`: the 3-point
/// finite-difference estimate of the jerk needed, clamped to `MAX_J`.
pub open spec fn step_yj(c: Controller, aftery: int) -> int {
    let targetv = c.targety - c.y;
    let nextv = c.nexty - c.targety;
    let afterv = aftery - c.nexty;
    let targeta = tdiv(targetv + 2 * nextv, 3) - c.yv;
    let nexta = afterv - nextv;
    let targetj = tdiv(2 * targeta + nexta, 3) - c.ya;
    iclamp(targetj, -MAX_J as int, MAX_J as int)
}

/// The transition `step` makes on the controller for target `aftery`: the
/// clamped jerk is integrated through acceleration, velocity and position,
/// each under its limit, and the lookahead window shifts.
pub open spec fn step_spec(c: Controller, aftery: int) -> Controller {
    let yj = step_yj(c, aftery);
    let ya2 = iclamp(c.ya + yj, -MAX_A as int, MAX_A as int);
    let yv2 = iclamp(c.yv + ya2, -MAX_V as int, MAX_V as int);
    let y2 = iclamp(c.y + yv2, -MAX_Y as int, MAX_Y as int);
    Controller {
        y: y2 as i32,
        yv: yv2 as i32,
        ya: ya2 as i32,
        targety: c.nexty,
        nexty: aftery as i32,
    }
}

/// One step keeps every clamp: from a state within the limits, the next
/// state is within them too, the commanded velocity is bounded by `MAX_V`,
/// and the acceleration moves by at most `MAX_J`.
pub proof fn lemma_step_spec_clamps(c: Controller, aftery: int)
    requires
        c.wf(),
    ensures
        (step_spec(c, aftery)).wf(),
        -MAX_V <= (step_spec(c, aftery)).yv <= MAX_V,
        -MAX_J as int <= (step_spec(c, aftery)).ya - c.ya <= MAX_J as int,
{
}

/// The controller's state after acting on each target of `targets` in turn.
pub open spec fn run_spec(c: Controller, targets: Seq<i32>) -> Controller
    decreases targets.len(),
{
    if targets.len() == 0 {
        c
    } else {
        run_spec(step_spec(c, targets[0] as int), targets.skip(1))
    }
}

/// The clamps are respected along any target sequence: every state reached
/// from a state within the limits stays within them, so after every step
/// `|y| <= MAX_Y`, `|yv| <= MAX_V` and `|ya| <= MAX_A` hold, and each
/// one-step change of acceleration stays within `MAX_J`.
pub proof fn lemma_trajectory_bounded(c: Controller, targets: Seq<i32>)
    requires
        c.wf(),
    ensures
        (run_spec(c, targets)).wf(),
    decreases targets.len(),
{
    if targets.len() > 0 {
        lemma_step_spec_clamps(c, targets[0] as int);
        lemma_trajectory_bounded(step_spec(c, targets[0] as int), targets.skip(1));
    }
}

impl Controller {
    /// The motion state respects the plotter's physical limits.
    pub open spec fn wf(&self) -> bool {
        &&& -MAX_Y <= self.y <= MAX_Y
        &&& -MAX_V <= self.yv <= MAX_V
        &&& -MAX_A <= self.ya <= MAX_A
    }

    /// A controller at rest at the origin, with an empty lookahead window.
    pub fn new() -> (c: Controller)
        ensures
            c.wf(),
            c == (Controller { y: 0i32, yv: 0i32, ya: 0i32, targety: 0i32, nexty: 0i32 }),
    {
        Controller { y: 0, yv: 0, ya: 0, targety: 0, nexty: 0 }
    }

    /// Act on the newest raw target `aftery`: estimate velocity,
    /// acceleration and jerk targets by finite differences over the lookahead
    /// window, clamp the jerk, integrate it through acceleration, velocity
    /// and position under their limits, shift the window, and return the new
    /// velocity as the move command's magnitude. Every limit holds after
    /// every step, and the acceleration never changes by more than `MAX_J` in
    /// one step.
    pub fn step(&mut self, aftery: i32) -> (v: i32)
        requires
            old(self).wf(),
        ensures
            final(self).wf(),
            *final(self) == step_spec(*old(self), aftery as int),
            v == final(self).yv,
            -MAX_V <= v <= MAX_V,
            -MAX_J as int <= final(self).ya - old(self).ya <= MAX_J as int,
    {
        let y64: i64 = self.y as i64;
        let yv64: i64 = self.yv as i64;
        let ya64: i64 = self.ya as i64;
        let targety64: i64 = self.targety as i64;
        let nexty64: i64 = self.nexty as i64;
        let aftery64: i64 = aftery as i64;

        let targetv = targety64 - y64;
        let nextv = nexty64 - targety64;
        let afterv = aftery64 - nexty64;

        let targeta = div_trunc(targetv + 2 * nextv, 3) - yv64;
        let nexta = afterv - nextv;

        let targetj = div_trunc(2 * targeta + nexta, 3) - ya64;

        let yj = clamp64(targetj, -(MAX_J as i64), MAX_J as i64);
        let ya_new = clamp64(ya64 + yj, -(MAX_A as i64), MAX_A as i64);
        let yv_new = clamp64(yv64 + ya_new, -(MAX_V as i64), MAX_V as i64);
        let y_new = clamp64(y64 + yv_new, -(MAX_Y as i64), MAX_Y as i64);

        self.ya = ya_new as i32;
        self.yv = yv_new as i32;
        self.y = y_new as i32;
        self.targety = self.nexty;
        self.nexty = aftery;
        self.yv
    }
}

} // verus!
