use vstd::prelude::*;

use crate::control::error::ConfigError;
use crate::control::linalg::Matrix2;
use crate::control::motor::Motor;
use crate::control::pid::Pid;
use crate::control::telemetry::{PlotPnts, PlotView};
use crate::control::time_mod::Time;
use crate::control::{Config, ConfigController, Phase, Route};
use crate::fixed::Fixed;

verus! {

/// The cascade controller: the motor, the three stages that drive it, the
/// clock, and the settings of the run.
#[derive(Clone, Copy, PartialEq, Eq, Structural, Debug)]
pub struct Controller {
    pub motor: Motor,
    pub pos_pid: Pid,
    pub vel_pid: Pid,
    pub trq_pid: Pid,
    pub time: Time,
    pub config: ConfigController,
}

/// What reached the control loop since its last cycle.
#[derive(Clone, Copy, PartialEq, Eq, Debug)]
pub enum Event {
    /// Nothing new.
    Nothing,
    /// The operator sent a configuration.
    NewConfig(Config),
    /// The operator's side is gone.
    Disconnected,
}

/// What the control loop is to do next.
#[derive(Clone, Copy, PartialEq, Eq, Structural, Debug)]
pub enum Action {
    /// Poll the clock and compute the point of the next tick.
    Tick,
    /// Wait idle for a while, then look again.
    Park,
    /// Leave the loop.
    Exit,
    /// The configuration that came in was turned down; the run is stopped.
    /// Wait idle as for `Park`.
    Reject(ConfigError),
}

impl Controller {
    /// The controller that `config` describes, its clock started at the
    /// reading `now`.
    pub open spec fn spec_new(config: Config, now: u64) -> Controller {
        Controller {
            motor: Motor::spec_new(config.motor),
            pos_pid: Pid::spec_new(config.pid_conf[0]),
            vel_pid: Pid::spec_new(config.pid_conf[1]),
            trq_pid: Pid::spec_new(config.pid_conf[2]),
            time: Time::spec_new(config.controller.frequency, now),
            config: config.controller,
        }
    }

    /// Whether the motor is well formed and no bound is below zero.
    pub open spec fn wf(self) -> bool {
        self.motor.wf() && self.config.bounds_valid()
    }

    /// Whether a sample taken at `time_from_start` is recorded: always in
    /// normal operation, and during a calibration until the duration is
    /// over.
    pub open spec fn spec_admits(config: ConfigController, time_from_start: Fixed) -> bool {
        config.calib_option.is_none() || time_from_start.le(config.duration)
    }

    /// The settings after a sample at `time_from_start` was or was not
    /// admitted: a sample that is not admitted ends the run.
    pub open spec fn spec_check_point_add(
        config: ConfigController,
        time_from_start: Fixed,
    ) -> ConfigController {
        if Controller::spec_admits(config, time_from_start) {
            config
        } else {
            ConfigController { start_flag: false, ..config }
        }
    }

    /// The controller after the stages of one tick have run, and the drive
    /// voltage that the last of them gave.
    pub open spec fn spec_generate_control(self, delta: Fixed, target: Fixed) -> (
        Controller,
        Fixed,
    )
        recommends
            self.wf(),
            delta@ != 0,
    {
        let setpoint = self.config.setpoint(target);
        let position = self.motor.get_position();
        let velocity = self.motor.get_velocity();
        let torque = self.motor.get_torque();
        let vltg_bound = self.config.vltg_bound;
        let vel_bound = self.config.vel_bound;
        let trq_bound = self.config.trq_bound;
        match self.config.route() {
            Route::Pos => {
                let (pos_pid, vltg) = self.pos_pid.spec_generate_control(
                    position,
                    setpoint,
                    delta,
                    vltg_bound,
                );
                (Controller { pos_pid, ..self }, vltg)
            },
            Route::PosVelTrq => {
                let (pos_pid, vel) = self.pos_pid.spec_generate_control(
                    position,
                    setpoint,
                    delta,
                    vel_bound,
                );
                let (vel_pid, trq) = self.vel_pid.spec_generate_control(
                    velocity,
                    vel,
                    delta,
                    trq_bound,
                );
                let (trq_pid, vltg) = self.trq_pid.spec_generate_control(
                    torque,
                    trq,
                    delta,
                    vltg_bound,
                );
                (Controller { pos_pid, vel_pid, trq_pid, ..self }, vltg)
            },
            Route::VelTrq => {
                let (vel_pid, trq) = self.vel_pid.spec_generate_control(
                    velocity,
                    setpoint,
                    delta,
                    trq_bound,
                );
                let (trq_pid, vltg) = self.trq_pid.spec_generate_control(
                    torque,
                    trq,
                    delta,
                    vltg_bound,
                );
                (Controller { vel_pid, trq_pid, ..self }, vltg)
            },
            Route::Trq => {
                let (trq_pid, vltg) = self.trq_pid.spec_generate_control(
                    torque,
                    setpoint,
                    delta,
                    vltg_bound,
                );
                (Controller { trq_pid, ..self }, vltg)
            },
        }
    }

    /// The controller and the window after the clock reading `now`.
    ///
    /// A reading that starts no tick changes nothing. A tick whose sample is
    /// not admitted moves the clock and stops the run. Any other tick runs
    /// the stages, advances the motor by the voltage they give, and records
    /// the motor's new position, speed and torque with that voltage.
    pub open spec fn spec_calculate_point(
        self,
        now: u64,
        target: Fixed,
        a_d: Matrix2,
        points: PlotView,
    ) -> (Controller, PlotView)
        recommends
            self.wf(),
    {
        if !self.time.is_due(now) {
            (self, points)
        } else {
            let time = self.time.spec_update_state(now);
            let time_from_start = time.get_time_from_start();
            let config = Controller::spec_check_point_add(self.config, time_from_start);
            let ticked = Controller { time, config, ..self };
            if !Controller::spec_admits(self.config, time_from_start) {
                (ticked, points)
            } else {
                let delta = time.get_delta();
                let (driven, input) = ticked.spec_generate_control(delta, target);
                let motor = driven.motor.spec_update_state(delta, input, a_d);
                (
                    Controller { motor, ..driven },
                    points.spec_record(
                        time_from_start,
                        config.duration,
                        motor.get_position(),
                        motor.get_velocity(),
                        input,
                        motor.get_torque(),
                    ),
                )
            }
        }
    }

    /// What the loop does in a cycle in which nothing came in: it leaves
    /// once the run has ended, ticks while it is running, and waits idle
    /// else.
    pub open spec fn spec_next_action(&self) -> Action {
        match self.config.spec_phase() {
            Phase::Ended => Action::Exit,
            Phase::Idle => Action::Park,
            Phase::RunningDirect => Action::Tick,
            Phase::RunningCalibration => Action::Tick,
        }
    }

    /// The controller, the window and the action after one cycle of the
    /// loop in which `event` came in.
    pub open spec fn spec_on_cycle(self, event: Event, now: u64, points: PlotView) -> (
        Controller,
        PlotView,
        Action,
    ) {
        match event {
            Event::Disconnected => (self, points, Action::Exit),
            Event::Nothing => (self, points, self.spec_next_action()),
            Event::NewConfig(config) => match config.spec_validate() {
                Ok(_) => {
                    let fresh = Controller::spec_new(config, now);
                    (fresh, PlotView::spec_empty(), fresh.spec_next_action())
                },
                Err(e) => if config.controller.end_flag {
                    (
                        Controller {
                            config: ConfigController { end_flag: true, ..self.config },
                            ..self
                        },
                        points,
                        Action::Exit,
                    )
                } else {
                    (
                        Controller {
                            config: ConfigController { start_flag: false, ..self.config },
                            ..self
                        },
                        points,
                        Action::Reject(e),
                    )
                },
            },
        }
    }

    /// Builds the controller at rest from a valid configuration and starts
    /// its clock at the reading `now`.
    pub fn new(config: Config, now: u64) -> (c: Controller)
        requires
            config.spec_valid(),
        ensures
            c == Controller::spec_new(config, now),
            c.wf(),
    {
        let time = Time::new(config.get_controller_conf().get_frequency(), now);
        Controller {
            motor: Motor::new(config.motor),
            time,
            pos_pid: Pid::new(config.pid_conf[0]),
            vel_pid: Pid::new(config.pid_conf[1]),
            trq_pid: Pid::new(config.pid_conf[2]),
            config: config.controller,
        }
    }

    /// Builds the controller if `config` is valid, and says why not if it is
    /// not.
    pub fn try_new(config: Config, now: u64) -> (r: Result<Controller, ConfigError>)
        ensures
            match r {
                Ok(c) => config.spec_valid() && c == Controller::spec_new(config, now) && c.wf(),
                Err(e) => config.spec_validate() == Err::<(), ConfigError>(e),
            },
    {
        match config.validate() {
            Err(e) => Err(e),
            Ok(_) => Ok(Controller::new(config, now)),
        }
    }

    /// Takes a new configuration: everything is as if the controller had
    /// just been built from it at the reading `now`, and the window is
    /// empty.
    pub fn reset(&mut self, config: Config, points: &mut PlotPnts, now: u64)
        requires
            config.spec_valid(),
        ensures
            *final(self) == Controller::spec_new(config, now),
            final(self).wf(),
            final(points)@ == PlotView::spec_empty(),
    {
        self.config = config.controller;
        self.motor.reset(config.motor);
        self.pos_pid.reset(config.pid_conf[0]);
        self.vel_pid.reset(config.pid_conf[1]);
        self.trq_pid.reset(config.pid_conf[2]);
        points.reset();
        self.time = Time::new(self.config.get_frequency(), now);
    }

    /// Runs the stages of one tick of length `delta` and gives the drive
    /// voltage.
    ///
    /// The first stage steers to the live `target`, or to its fixed
    /// reference during a calibration. Each stage's output is the next
    /// stage's setpoint and is clamped to that stage's bound; the last
    /// output is the voltage.
    pub fn generate_control(&mut self, delta: Fixed, target: Fixed) -> (voltage: Fixed)
        requires
            old(self).wf(),
            delta@ != 0,
        ensures
            (*final(self), voltage) == old(self).spec_generate_control(delta, target),
            final(self).motor == old(self).motor,
            final(self).time == old(self).time,
            final(self).config == old(self).config,
            final(self).wf(),
            -old(self).config.vltg_bound@ <= voltage@ <= old(self).config.vltg_bound@,
    {
        let setpoint = self.config.setpoint(target);
        match self.config.route() {
            Route::Pos => {
                self.pos_pid.generate_control(
                    self.motor.get_position(),
                    setpoint,
                    delta,
                    self.config.vltg_bound,
                )
            },
            Route::PosVelTrq => {
                let vel = self.pos_pid.generate_control(
                    self.motor.get_position(),
                    setpoint,
                    delta,
                    self.config.vel_bound,
                );
                let trq = self.vel_pid.generate_control(
                    self.motor.get_velocity(),
                    vel,
                    delta,
                    self.config.trq_bound,
                );
                self.trq_pid.generate_control(
                    self.motor.get_torque(),
                    trq,
                    delta,
                    self.config.vltg_bound,
                )
            },
            Route::VelTrq => {
                let trq = self.vel_pid.generate_control(
                    self.motor.get_velocity(),
                    setpoint,
                    delta,
                    self.config.trq_bound,
                );
                self.trq_pid.generate_control(
                    self.motor.get_torque(),
                    trq,
                    delta,
                    self.config.vltg_bound,
                )
            },
            Route::Trq => {
                self.trq_pid.generate_control(
                    self.motor.get_torque(),
                    setpoint,
                    delta,
                    self.config.vltg_bound,
                )
            },
        }
    }

    /// Decides whether the sample of a tick at `time_from_start` is
    /// recorded. During a calibration a sample past the duration is not,
    /// and the start flag is cleared, which ends the run.
    pub fn check_point_add(config: &mut ConfigController, time_from_start: Fixed) -> (admitted:
        bool)
        ensures
            admitted == Controller::spec_admits(*old(config), time_from_start),
            *final(config) == Controller::spec_check_point_add(*old(config), time_from_start),
    {
        match config.get_calib_option() {
            Some(_) => {
                if time_from_start.le(config.get_duration()) {
                    true
                } else {
                    *config.set_start_flag() = false;
                    false
                }
            },
            None => true,
        }
    }

    /// The length of the tick that the reading `now` would start, or `None`
    /// where it starts none. The caller needs it to compute the state
    /// matrix of the step before it calls [`Controller::calculate_point`].
    pub fn pending_delta(&self, now: u64) -> (delta: Option<Fixed>)
        ensures
            delta == self.time.spec_pending_delta(now),
            delta.is_some() ==> delta.unwrap()@ > 0,
    {
        self.time.pending_delta(now)
    }

    /// Takes the clock reading `now` and, where it starts a tick, computes
    /// the point of that tick: the stages give the voltage, the motor
    /// advances, and the window takes in the new samples. The result says
    /// whether `now` started a tick.
    ///
    /// `target` is the live target in degrees and `a_d` the state matrix of
    /// the step, `exp(delta * A)`, for the `delta` that
    /// [`Controller::pending_delta`] gives for `now`.
    pub fn calculate_point(
        &mut self,
        now: u64,
        target: Fixed,
        a_d: Matrix2,
        points: &mut PlotPnts,
    ) -> (ticked: bool)
        requires
            old(self).wf(),
        ensures
            ticked == old(self).time.spec_is_due(now),
            (*final(self), final(points)@) == old(self).spec_calculate_point(
                now,
                target,
                a_d,
                old(points)@,
            ),
            final(self).wf(),
            old(points)@.aligned() ==> final(points)@.aligned(),
    {
        if !self.time.update_state(now) {
            return false;
        }
        let time_from_start = self.time.get_time_from_start();
        if Controller::check_point_add(&mut self.config, time_from_start) {
            let delta = self.time.get_delta();
            let input = self.generate_control(delta, target);
            self.motor.update_state(delta, input, a_d);
            points.record(
                time_from_start,
                self.config.get_duration(),
                self.motor.get_position(),
                self.motor.get_velocity(),
                input,
                self.motor.get_torque(),
            );
        }
        true
    }

    /// What the loop does next when nothing came in.
    #[verifier::when_used_as_spec(spec_next_action)]
    pub fn next_action(&self) -> (action: Action)
        ensures
            action == self.spec_next_action(),
    {
        if *self.config.get_end_flag() {
            Action::Exit
        } else if *self.config.get_start_flag() {
            Action::Tick
        } else {
            Action::Park
        }
    }

    /// Starts one cycle of the control loop with what came in since the last
    /// one, and says what the loop does next.
    ///
    /// A valid configuration that came in replaces everything, as
    /// [`Controller::reset`] does, and its flags decide. One that is not
    /// valid is turned down: the controller keeps what it has and stops its
    /// run, or ends the loop if that configuration asked for the end. A
    /// lost connection ends the loop.
    pub fn on_cycle(&mut self, event: Event, now: u64, points: &mut PlotPnts) -> (action: Action)
        requires
            old(self).wf(),
        ensures
            (*final(self), final(points)@, action) == old(self).spec_on_cycle(
                event,
                now,
                old(points)@,
            ),
            final(self).wf(),
    {
        match event {
            Event::Disconnected => Action::Exit,
            Event::Nothing => self.next_action(),
            Event::NewConfig(config) => match config.validate() {
                Ok(_) => {
                    self.reset(config, points, now);
                    self.next_action()
                },
                Err(e) => {
                    if *config.get_controller_conf().get_end_flag() {
                        *self.config.set_end_flag() = true;
                        Action::Exit
                    } else {
                        *self.config.set_start_flag() = false;
                        Action::Reject(e)
                    }
                },
            },
        }
    }

    pub fn get_controller_conf(&self) -> (r: &ConfigController)
        ensures
            *r == self.config,
    {
        &self.config
    }
}

/// A run that follows the live target never stops by itself: whatever the
/// clock reads, the run is still in that phase after the reading.
pub proof fn lemma_direct_run_goes_on(
    controller: Controller,
    now: u64,
    target: Fixed,
    a_d: Matrix2,
    points: PlotView,
)
    requires
        controller.config.spec_phase() == Phase::RunningDirect,
    ensures
        controller.spec_calculate_point(now, target, a_d, points).0.config == controller.config,
{
}

/// A calibration run stops by itself at the first tick past its duration,
/// and not before. The tick that stops it records nothing and leaves the
/// motor and the stages as they are; every tick before it adds a sample to
/// the window and makes none leave.
pub proof fn lemma_calibration_run_ends(
    controller: Controller,
    now: u64,
    target: Fixed,
    a_d: Matrix2,
    points: PlotView,
)
    requires
        controller.config.spec_phase() == Phase::RunningCalibration,
        controller.time.spec_is_due(now),
    ensures
        ({
            let after = controller.spec_calculate_point(now, target, a_d, points);
            let past = controller.time.spec_update_state(now).spec_get_time_from_start().gt(
                controller.config.duration,
            );
            &&& past ==> after.0.config.spec_phase() == Phase::Idle
            &&& past ==> after.1 == points
            &&& past ==> after.0.motor == controller.motor
            &&& past ==> after.0.pos_pid == controller.pos_pid
            &&& past ==> after.0.vel_pid == controller.vel_pid
            &&& past ==> after.0.trq_pid == controller.trq_pid
            &&& !past ==> after.0.config == controller.config
            &&& !past ==> after.1.pos.len() == points.pos.len() + 1
            &&& !past ==> after.1.pos.drop_last() == points.pos
        }),
{
    let after = controller.spec_calculate_point(now, target, a_d, points);
    let time = controller.time.spec_update_state(now).spec_get_time_from_start();
    if !time.gt(controller.config.duration) {
        assert(after.1.pos.drop_last() =~= points.pos);
    }
}

} // verus!
