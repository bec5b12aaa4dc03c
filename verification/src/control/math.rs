use vstd::prelude::*;

use crate::fixed::{lemma_product_sign, lemma_sub_self, lemma_zero_div};
use crate::fixed::{fits, trunc_div, Fixed, SCALE};

verus! {

/// Degrees in one radian, in billionths: 180 / pi.
pub const DEGREES_PER_RADIAN: i64 = 57_295_779_513;

/// Degrees in a full turn, in billionths.
pub const FULL_TURN: i64 = 360_000_000_000;

/// Revolutions per minute in one radian per second, in billionths: 30 / pi.
pub const RPM_PER_RADIAN_PER_SECOND: i64 = 9_549_296_586;

/// A running sum of a signal over time, by the rectangle rule.
#[derive(Clone, Copy, PartialEq, Eq, Structural, Debug)]
pub struct Integrator {
    pub integral: Fixed,
}

/// An estimate of a signal's rate of change from its last two values.
#[derive(Clone, Copy, PartialEq, Eq, Structural, Debug)]
pub struct Derivative {
    pub prev_state: Fixed,
    pub derivative: Fixed,
}

impl Integrator {
    pub open spec fn spec_default() -> Integrator {
        Integrator { integral: Fixed::zero() }
    }

    /// The integrator after `state` has been held for `delta`.
    pub open spec fn spec_integrate(self, delta: Fixed, state: Fixed) -> Integrator {
        Integrator { integral: self.integral.add(delta.mul(state)) }
    }

    /// The integrator after each pair of `run`, a span and the value held over
    /// it, has been fed in order.
    pub open spec fn spec_integrate_all(self, run: Seq<(Fixed, Fixed)>) -> Integrator
        decreases run.len(),
    {
        if run.len() == 0 {
            self
        } else {
            self.spec_integrate_all(run.drop_last()).spec_integrate(run.last().0, run.last().1)
        }
    }

    /// Adds `state * delta` to the running sum.
    pub fn integrate(&mut self, delta: Fixed, state: Fixed)
        ensures
            *final(self) == old(self).spec_integrate(delta, state),
    {
        self.integral = self.integral.add(delta.mul(state));
    }

    /// The running sum.
    pub fn get_state(&self) -> (r: Fixed)
        ensures
            r == self.integral,
    {
        self.integral
    }
}

impl Default for Integrator {
    fn default() -> (r: Self)
        ensures
            r == Integrator::spec_default(),
    {
        Integrator { integral: Fixed::zero() }
    }
}

impl Derivative {
    pub open spec fn spec_default() -> Derivative {
        Derivative { prev_state: Fixed::zero(), derivative: Fixed::zero() }
    }

    /// The estimator after the signal has moved to `state` over `delta`.
    pub open spec fn spec_derivate(self, delta: Fixed, state: Fixed) -> Derivative
        recommends
            delta@ != 0,
    {
        Derivative { prev_state: state, derivative: state.sub(self.prev_state).div(delta) }
    }

    /// Estimates the rate of change as `(state - previous) / delta` and
    /// remembers `state`.
    pub fn derivate(&mut self, delta: Fixed, state: Fixed)
        requires
            delta@ != 0,
        ensures
            *final(self) == old(self).spec_derivate(delta, state),
    {
        self.derivative = state.sub(self.prev_state).div(delta);
        self.prev_state = state;
    }

    /// The latest estimate.
    pub fn get_state(&self) -> (r: Fixed)
        ensures
            r == self.derivative,
    {
        self.derivative
    }
}

impl Default for Derivative {
    fn default() -> (r: Self)
        ensures
            r == Derivative::spec_default(),
    {
        Derivative { prev_state: Fixed::zero(), derivative: Fixed::zero() }
    }
}

/// The area of one rectangle, before saturation: `delta * value`, rounded
/// toward zero.
pub open spec fn area(step: (Fixed, Fixed)) -> int {
    trunc_div(step.0@ * step.1@, SCALE as int)
}

/// The sum of the areas of all rectangles of `run`.
pub open spec fn total_area(run: Seq<(Fixed, Fixed)>) -> int
    decreases run.len(),
{
    if run.len() == 0 {
        0
    } else {
        total_area(run.drop_last()) + area(run.last())
    }
}

/// Whether nothing saturates when a sum that starts at `start` takes in
/// `run`: each area fits, and so does the sum after each step.
pub open spec fn stays_in_range(start: int, run: Seq<(Fixed, Fixed)>) -> bool {
    forall|i: int|
        0 <= i < run.len() ==> fits(area(#[trigger] run[i])) && fits(
            start + total_area(run.take(i + 1)),
        )
}

/// Integrating one run and then another gives what integrating the two in
/// one pass gives.
pub proof fn lemma_integrate_all_concat(
    start: Integrator,
    first: Seq<(Fixed, Fixed)>,
    second: Seq<(Fixed, Fixed)>,
)
    ensures
        start.spec_integrate_all(first + second) == start.spec_integrate_all(
            first,
        ).spec_integrate_all(second),
    decreases second.len(),
{
    if second.len() == 0 {
        assert(first + second =~= first);
    } else {
        assert((first + second).drop_last() =~= first + second.drop_last());
        assert((first + second).last() == second.last());
        lemma_integrate_all_concat(start, first, second.drop_last());
    }
}

/// Two calls of `integrate` in a row are one pass over the two steps.
pub proof fn lemma_integrate_twice(
    start: Integrator,
    delta: Fixed,
    value: Fixed,
    delta2: Fixed,
    value2: Fixed,
)
    ensures
        start.spec_integrate(delta, value).spec_integrate(delta2, value2)
            == start.spec_integrate_all(seq![(delta, value), (delta2, value2)]),
{
    let run = seq![(delta, value), (delta2, value2)];
    let head = seq![(delta, value)];
    assert(run.drop_last() =~= head);
    assert(head.drop_last() =~= Seq::<(Fixed, Fixed)>::empty());
    assert(start.spec_integrate_all(head.drop_last()) == start);
    assert(start.spec_integrate_all(head) == start.spec_integrate(delta, value));
}

/// While nothing saturates, the running sum is the start plus the sum of the
/// areas, however the run is cut into calls.
pub proof fn lemma_integrate_all_sum(start: Integrator, run: Seq<(Fixed, Fixed)>)
    requires
        stays_in_range(start.integral@, run),
    ensures
        start.spec_integrate_all(run).integral@ == start.integral@ + total_area(run),
    decreases run.len(),
{
    if run.len() > 0 {
        let init = run.drop_last();
        let last = run.len() - 1;
        assert forall|i: int| 0 <= i < init.len() implies fits(area(#[trigger] init[i])) && fits(
            start.integral@ + total_area(init.take(i + 1)),
        ) by {
            assert(init[i] == run[i]);
            assert(init.take(i + 1) =~= run.take(i + 1));
        }
        lemma_integrate_all_sum(start, init);
        assert(run.take(last + 1) =~= run);
        assert(fits(area(run[last])));
    }
}

/// A signal that keeps its value has rate of change zero: a second call with
/// the same value leaves the estimate at zero, whatever the spans were.
pub proof fn lemma_constant_signal_has_zero_rate(
    start: Derivative,
    delta: Fixed,
    delta2: Fixed,
    value: Fixed,
)
    requires
        delta2@ != 0,
    ensures
        start.spec_derivate(delta, value).spec_derivate(delta2, value).derivative == Fixed::zero(),
        start.spec_derivate(delta, value).spec_derivate(delta2, value).prev_state == value,
{
    lemma_sub_self(value);
    lemma_zero_div(delta2);
}

/// The angle `rad`, given in radians, in degrees within one turn.
pub open spec fn spec_rad_to_deg(rad: Fixed) -> Fixed {
    Fixed { raw: (trunc_div(rad@ * DEGREES_PER_RADIAN, SCALE as int) % (FULL_TURN as int)) as i64 }
}

/// Converts an angle from radians to degrees and wraps it into `[0, 360)`.
/// The product is taken exactly, so no angle is too large.
#[verifier::when_used_as_spec(spec_rad_to_deg)]
pub fn rad_to_deg(rad: Fixed) -> (deg: Fixed)
    ensures
        deg == spec_rad_to_deg(rad),
        0 <= deg@ < FULL_TURN,
{
    let negative = rad.raw < 0;
    let size: u128 = if negative {
        let wide: i128 = rad.raw as i128;
        (-wide) as u128
    } else {
        rad.raw as u128
    };
    let full: u128 = size * 57_295_779_513u128 / 1_000_000_000u128;
    let rest: u128 = full % 360_000_000_000u128;
    proof {
        lemma_product_sign(rad@, DEGREES_PER_RADIAN as int);
        let whole = trunc_div(rad@ * DEGREES_PER_RADIAN, SCALE as int);
        if negative {
            assert(whole == -(full as int));
            lemma_wrap_negative(full as int, FULL_TURN as int);
        } else {
            assert(whole == full as int);
        }
    }
    if negative && rest != 0 {
        Fixed { raw: (360_000_000_000u128 - rest) as i64 }
    } else {
        Fixed { raw: rest as i64 }
    }
}

/// The remainder of a number below zero, from that of its size.
proof fn lemma_wrap_negative(x: int, m: int)
    requires
        x >= 0,
        m > 0,
    ensures
        (-x) % m == (if x % m == 0 { 0 } else { m - x % m }),
{
    vstd::arithmetic::div_mod::lemma_fundamental_div_mod(x, m);
    let q = x / m;
    let r = x % m;
    if r == 0 {
        assert(-x == m * (-q)) by (nonlinear_arith)
            requires
                x == m * q,
        ;
        vstd::arithmetic::div_mod::lemma_fundamental_div_mod_converse(-x, m, -q, 0);
    } else {
        assert(-x == m * (-q - 1) + (m - r)) by (nonlinear_arith)
            requires
                x == m * q + r,
        ;
        vstd::arithmetic::div_mod::lemma_fundamental_div_mod_converse(-x, m, -q - 1, m - r);
    }
}

/// The speed `rads`, given in radians per second, in revolutions per minute.
pub open spec fn spec_rads_to_rpm(rads: Fixed) -> Fixed {
    rads.mul(Fixed { raw: RPM_PER_RADIAN_PER_SECOND })
}

/// Converts a speed from radians per second to revolutions per minute.
#[verifier::when_used_as_spec(spec_rads_to_rpm)]
pub fn rads_to_rpm(rads: Fixed) -> (rpm: Fixed)
    ensures
        rpm == spec_rads_to_rpm(rads),
{
    rads.mul(Fixed::from_raw(RPM_PER_RADIAN_PER_SECOND))
}

} // verus!
