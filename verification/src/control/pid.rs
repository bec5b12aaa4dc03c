use vstd::prelude::*;

use crate::control::math::{Derivative, Integrator};
use crate::control::ConfigPid;
use crate::fixed::Fixed;

verus! {

/// One proportional-integral-derivative stage with a saturated output.
#[derive(Clone, Copy, PartialEq, Eq, Structural, Debug)]
pub struct Pid {
    pub config: ConfigPid,
    pub integral: Integrator,
    pub derivative: Derivative,
}

impl Pid {
    /// The stage with the gains of `config` and nothing remembered.
    pub open spec fn spec_new(config: ConfigPid) -> Pid {
        Pid {
            config,
            integral: Integrator::spec_default(),
            derivative: Derivative::spec_default(),
        }
    }

    /// The control law before saturation, for an error and the states of
    /// the two estimators after they took the error in.
    pub open spec fn spec_law(config: ConfigPid, error: Fixed, rate: Fixed, sum: Fixed) -> Fixed {
        config.kp.mul(error).add(config.kd.mul(rate)).add(config.ki.mul(sum))
    }

    /// The stage after one tick, and the output of that tick.
    pub open spec fn spec_generate_control(
        self,
        input: Fixed,
        target: Fixed,
        delta: Fixed,
        bound: Fixed,
    ) -> (Pid, Fixed)
        recommends
            delta@ != 0,
            bound@ >= 0,
    {
        let error = target.sub(input);
        let derivative = self.derivative.spec_derivate(delta, error);
        let integral = self.integral.spec_integrate(delta, error);
        let output = Pid::spec_law(self.config, error, derivative.derivative, integral.integral);
        (Pid { config: self.config, integral, derivative }, output.clamp_symmetric(bound))
    }

    #[verifier::when_used_as_spec(spec_new)]
    pub fn new(config: ConfigPid) -> (p: Pid)
        ensures
            p == Pid::spec_new(config),
    {
        Pid { config, integral: Integrator::default(), derivative: Derivative::default() }
    }

    /// Runs the stage for one tick of length `delta`.
    ///
    /// The error is `target - input`. Both estimators take it in, and the
    /// output is `kp * error + kd * rate + ki * sum`, clamped to
    /// `[-bound, bound]`. The sum goes on growing while the output is
    /// clamped.
    pub fn generate_control(&mut self, input: Fixed, target: Fixed, delta: Fixed, bound: Fixed) -> (output:
        Fixed)
        requires
            delta@ != 0,
            bound@ >= 0,
        ensures
            (*final(self), output) == old(self).spec_generate_control(input, target, delta, bound),
            -bound@ <= output@ <= bound@,
    {
        let error = target.sub(input);
        self.derivative.derivate(delta, error);
        self.integral.integrate(delta, error);
        let result = self.config.kp.mul(error).add(
            self.config.kd.mul(self.derivative.get_state()),
        ).add(self.config.ki.mul(self.integral.get_state()));
        result.clamp_symmetric(bound)
    }

    /// Takes new gains and forgets what both estimators remembered.
    pub fn reset(&mut self, config: ConfigPid)
        ensures
            *final(self) == Pid::spec_new(config),
    {
        self.config = config;
        self.integral = Integrator::default();
        self.derivative = Derivative::default();
    }
}

/// The output of a stage never exceeds its bound in size, whatever the
/// gains, the error and what the stage remembers.
pub proof fn lemma_output_within_bound(
    pid: Pid,
    input: Fixed,
    target: Fixed,
    delta: Fixed,
    bound: Fixed,
)
    requires
        bound@ >= 0,
    ensures
        -bound@ <= pid.spec_generate_control(input, target, delta, bound).1@ <= bound@,
{
}

} // verus!
