use vstd::prelude::*;

use crate::control::error::ConfigError;
use crate::control::linalg::{Matrix2, Vector2};
use crate::control::math::{rad_to_deg, rads_to_rpm, Derivative, Integrator, FULL_TURN};
use crate::fixed::{lemma_add_zero, lemma_mul_zero, lemma_sub_self, lemma_zero_div, Fixed};

verus! {

/// The physical parameters of the motor.
#[derive(Clone, Copy, PartialEq, Eq, Structural, Debug)]
pub struct ConfigMotor {
    /// Inertia of the rotor.
    pub j: Fixed,
    /// Viscous damping.
    pub b: Fixed,
    /// Inductance of the coil.
    pub l: Fixed,
    /// Resistance of the coil.
    pub r: Fixed,
    /// Torque and back-EMF constant.
    pub k: Fixed,
}

/// A DC motor as a linear system of two states, angular velocity and coil
/// current, driven by a voltage.
#[derive(Clone, Copy, PartialEq, Eq, Structural, Debug)]
pub struct Motor {
    pub a_matrix: Matrix2,
    pub b_vector: Vector2,
    pub i_matrix: Matrix2,
    pub ss_vector: Vector2,
    pub position: Integrator,
    pub velocity: Fixed,
    pub acceleration: Derivative,
    pub torque: Fixed,
    pub config: ConfigMotor,
}

impl ConfigMotor {
    pub open spec fn spec_default() -> ConfigMotor {
        ConfigMotor {
            j: Fixed { raw: 650_000 },
            b: Fixed { raw: 24_000 },
            l: Fixed { raw: 730_000 },
            r: Fixed { raw: 700_000_000 },
            k: Fixed { raw: 57_000_000 },
        }
    }

    /// The matrix `A` of `dx/dt = A x + B u`: rows `-b/j  k/j` and
    /// `-k/l  -r/l`.
    pub open spec fn spec_state_matrix(&self) -> Matrix2 {
        Matrix2 {
            m11: self.b.neg().div(self.j),
            m12: self.k.div(self.j),
            m21: self.k.neg().div(self.l),
            m22: self.r.neg().div(self.l),
        }
    }

    /// The column `B` of `dx/dt = A x + B u`: `0` above `1/l`.
    pub open spec fn spec_input_vector(&self) -> Vector2 {
        Vector2 { x: Fixed::zero(), y: Fixed::one().div(self.l) }
    }

    /// Whether every parameter is above zero.
    pub open spec fn all_positive(self) -> bool {
        self.j@ > 0 && self.b@ > 0 && self.l@ > 0 && self.r@ > 0 && self.k@ > 0
    }

    pub open spec fn spec_validate(&self) -> Result<(), ConfigError> {
        if !self.all_positive() {
            Err(ConfigError::MotorParameterNotPositive)
        } else if self.spec_state_matrix().spec_determinant()@ == 0 {
            Err(ConfigError::StateMatrixSingular)
        } else {
            Ok(())
        }
    }

    /// Whether a motor can be built from these parameters.
    pub open spec fn spec_valid(self) -> bool {
        self.spec_validate().is_ok()
    }

    /// The matrix `A` that these parameters give.
    #[verifier::when_used_as_spec(spec_state_matrix)]
    pub fn state_matrix(&self) -> (a: Matrix2)
        requires
            self.j@ != 0,
            self.l@ != 0,
        ensures
            a == self.spec_state_matrix(),
    {
        Matrix2::new(
            self.b.neg().div(self.j),
            self.k.div(self.j),
            self.k.neg().div(self.l),
            self.r.neg().div(self.l),
        )
    }

    /// The column `B` that these parameters give.
    #[verifier::when_used_as_spec(spec_input_vector)]
    pub fn input_vector(&self) -> (b: Vector2)
        requires
            self.l@ != 0,
        ensures
            b == self.spec_input_vector(),
    {
        Vector2::new(Fixed::zero(), Fixed::one().div(self.l))
    }

    /// Checks the parameters before a motor is built from them: each must be
    /// above zero, and the state matrix that they give must have an inverse.
    #[verifier::when_used_as_spec(spec_validate)]
    pub fn validate(&self) -> (r: Result<(), ConfigError>)
        ensures
            r == self.spec_validate(),
    {
        let zero = Fixed::zero();
        if !(self.j.gt(zero) && self.b.gt(zero) && self.l.gt(zero) && self.r.gt(zero) && self.k.gt(
            zero,
        )) {
            Err(ConfigError::MotorParameterNotPositive)
        } else if self.state_matrix().determinant().raw() == 0 {
            Err(ConfigError::StateMatrixSingular)
        } else {
            Ok(())
        }
    }

    pub fn set_j(&mut self) -> (r: &mut Fixed)
        ensures
            *r == old(self).j,
            *final(self) == (ConfigMotor { j: *final(r), ..*old(self) }),
    {
        &mut self.j
    }

    pub fn set_b(&mut self) -> (r: &mut Fixed)
        ensures
            *r == old(self).b,
            *final(self) == (ConfigMotor { b: *final(r), ..*old(self) }),
    {
        &mut self.b
    }

    pub fn set_k(&mut self) -> (r: &mut Fixed)
        ensures
            *r == old(self).k,
            *final(self) == (ConfigMotor { k: *final(r), ..*old(self) }),
    {
        &mut self.k
    }

    pub fn set_r(&mut self) -> (r: &mut Fixed)
        ensures
            *r == old(self).r,
            *final(self) == (ConfigMotor { r: *final(r), ..*old(self) }),
    {
        &mut self.r
    }

    pub fn set_l(&mut self) -> (r: &mut Fixed)
        ensures
            *r == old(self).l,
            *final(self) == (ConfigMotor { l: *final(r), ..*old(self) }),
    {
        &mut self.l
    }
}

impl Default for ConfigMotor {
    /// A small brushed motor: `j = 0.00065`, `b = 0.000024`, `l = 0.00073`,
    /// `r = 0.7`, `k = 0.057`.
    fn default() -> (c: Self)
        ensures
            c == ConfigMotor::spec_default(),
    {
        ConfigMotor {
            j: Fixed::from_raw(650_000),
            b: Fixed::from_raw(24_000),
            l: Fixed::from_raw(730_000),
            r: Fixed::from_raw(700_000_000),
            k: Fixed::from_raw(57_000_000),
        }
    }
}

impl Motor {
    /// The motor at rest that `config` describes.
    pub open spec fn spec_new(config: ConfigMotor) -> Motor {
        Motor {
            a_matrix: config.spec_state_matrix(),
            b_vector: config.spec_input_vector(),
            i_matrix: Matrix2::identity(),
            ss_vector: Vector2::zero(),
            position: Integrator::spec_default(),
            velocity: Fixed::zero(),
            acceleration: Derivative::spec_default(),
            torque: config.k.mul(Fixed::zero()),
            config,
        }
    }

    /// Whether the motor is what some run of steps makes of a valid
    /// configuration: its matrices are those of its configuration, and the
    /// velocity and the torque are those of its state.
    pub open spec fn wf(self) -> bool {
        &&& self.config.spec_valid()
        &&& self.a_matrix == self.config.spec_state_matrix()
        &&& self.b_vector == self.config.spec_input_vector()
        &&& self.i_matrix == Matrix2::identity()
        &&& self.velocity == self.ss_vector.x
        &&& self.torque == self.config.k.mul(self.ss_vector.y)
    }

    /// The column `B_d = A^-1 (A_d - I) B` by which a voltage held over one
    /// step enters the state, where `a_d` is the state matrix of that step.
    /// The inverse is taken as the adjugate over the determinant, and the
    /// division comes last, so that one quotient only is rounded:
    /// `B_d = adj(A) ((A_d - I) B) / det(A)`.
    pub open spec fn spec_discrete_input(self, a_d: Matrix2) -> Vector2
        recommends
            self.a_matrix.spec_determinant()@ != 0,
    {
        self.a_matrix.adjugate().mul_vector(a_d.sub(self.i_matrix).mul_vector(self.b_vector))
            .unscale(self.a_matrix.determinant())
    }

    /// The motor after `voltage` has been held for `delta`, where `a_d` is
    /// the state matrix of that step, `exp(delta * A)`.
    pub open spec fn spec_update_state(self, delta: Fixed, voltage: Fixed, a_d: Matrix2) -> Motor
        recommends
            self.wf(),
            delta@ != 0,
    {
        let state = a_d.mul_vector(self.ss_vector).add(
            self.spec_discrete_input(a_d).scale(voltage),
        );
        Motor {
            ss_vector: state,
            position: self.position.spec_integrate(delta, state.x),
            velocity: state.x,
            acceleration: self.acceleration.spec_derivate(delta, state.x),
            torque: self.config.k.mul(state.y),
            ..self
        }
    }

    /// Builds the motor at rest from its parameters.
    pub fn new(config: ConfigMotor) -> (m: Motor)
        requires
            config.spec_valid(),
        ensures
            m == Motor::spec_new(config),
            m.wf(),
    {
        let ss_vector = Vector2::zero();
        Motor {
            a_matrix: config.state_matrix(),
            b_vector: config.input_vector(),
            i_matrix: Matrix2::identity(),
            ss_vector,
            position: Integrator::default(),
            velocity: ss_vector.x,
            acceleration: Derivative::default(),
            torque: config.k.mul(ss_vector.y),
            config,
        }
    }

    /// The column `B_d` of one step; see [`Motor::spec_discrete_input`].
    pub fn discrete_input(&self, a_d: Matrix2) -> (b_d: Vector2)
        requires
            self.wf(),
        ensures
            b_d == self.spec_discrete_input(a_d),
    {
        self.a_matrix.adjugate().mul_vector(a_d.sub(self.i_matrix).mul_vector(self.b_vector))
            .unscale(self.a_matrix.determinant())
    }

    /// Advances the motor by one step: `x <- A_d x + B_d u`, then the
    /// position takes in the new velocity, the acceleration is estimated
    /// from it, and the torque follows the new current.
    ///
    /// `a_d` is the matrix exponential `exp(delta * A)` of the state matrix,
    /// which the caller computes.
    pub fn update_state(&mut self, delta: Fixed, voltage: Fixed, a_d: Matrix2)
        requires
            old(self).wf(),
            delta@ != 0,
        ensures
            *final(self) == old(self).spec_update_state(delta, voltage, a_d),
            final(self).wf(),
    {
        let b_d = self.discrete_input(a_d);
        self.ss_vector = a_d.mul_vector(self.ss_vector).add(b_d.scale(voltage));
        self.position.integrate(delta, self.ss_vector.x);
        self.velocity = self.ss_vector.x;
        self.acceleration.derivate(delta, self.ss_vector.x);
        self.torque = self.config.k.mul(self.ss_vector.y);
    }

    /// Puts the motor back to rest, with the parameters of `config`.
    pub fn reset(&mut self, config: ConfigMotor)
        requires
            config.spec_valid(),
        ensures
            *final(self) == Motor::spec_new(config),
            final(self).wf(),
    {
        self.config = config;
        self.a_matrix = config.state_matrix();
        self.b_vector = config.input_vector();
        self.i_matrix = Matrix2::identity();
        self.ss_vector = Vector2::zero();
        self.position = Integrator::default();
        self.velocity = self.ss_vector.x;
        self.acceleration = Derivative::default();
        self.torque = config.k.mul(self.ss_vector.y);
    }

    pub open spec fn spec_get_position(&self) -> Fixed {
        rad_to_deg(self.position.integral)
    }

    /// The angle of the shaft in degrees, within `[0, 360)`.
    #[verifier::when_used_as_spec(spec_get_position)]
    pub fn get_position(&self) -> (deg: Fixed)
        ensures
            deg == self.spec_get_position(),
            0 <= deg@ < FULL_TURN,
    {
        rad_to_deg(self.position.get_state())
    }

    pub open spec fn spec_get_velocity(&self) -> Fixed {
        rads_to_rpm(self.velocity)
    }

    /// The speed of the shaft in revolutions per minute.
    #[verifier::when_used_as_spec(spec_get_velocity)]
    pub fn get_velocity(&self) -> (rpm: Fixed)
        ensures
            rpm == self.spec_get_velocity(),
    {
        rads_to_rpm(self.velocity)
    }

    pub open spec fn spec_get_acceleration(&self) -> Fixed {
        self.acceleration.derivative
    }

    /// The latest estimate of the angular acceleration.
    #[verifier::when_used_as_spec(spec_get_acceleration)]
    pub fn get_acceleration(&self) -> (a: Fixed)
        ensures
            a == self.spec_get_acceleration(),
    {
        self.acceleration.get_state()
    }

    pub open spec fn spec_get_torque(&self) -> Fixed {
        self.torque
    }

    /// The torque on the shaft, `k` times the coil current.
    #[verifier::when_used_as_spec(spec_get_torque)]
    pub fn get_torque(&self) -> (t: Fixed)
        ensures
            t == self.spec_get_torque(),
    {
        self.torque
    }
}

/// Rest is an equilibrium: a motor at rest that is driven with zero volts
/// stays exactly as it is, whatever the step and its state matrix.
pub proof fn lemma_rest_is_equilibrium(config: ConfigMotor, delta: Fixed, a_d: Matrix2)
    requires
        config.spec_valid(),
        delta@ != 0,
    ensures
        Motor::spec_new(config).spec_update_state(delta, Fixed::zero(), a_d) == Motor::spec_new(
            config,
        ),
{
    let rest = Motor::spec_new(config);
    let b_d = rest.spec_discrete_input(a_d);
    lemma_mul_zero(a_d.m11);
    lemma_mul_zero(a_d.m12);
    lemma_mul_zero(a_d.m21);
    lemma_mul_zero(a_d.m22);
    lemma_mul_zero(b_d.x);
    lemma_mul_zero(b_d.y);
    lemma_mul_zero(delta);
    lemma_mul_zero(config.k);
    lemma_add_zero(Fixed::zero());
    lemma_sub_self(Fixed::zero());
    lemma_zero_div(delta);
}

} // verus!
