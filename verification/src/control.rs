use vstd::prelude::*;

use crate::control::error::ConfigError;
use crate::control::motor::ConfigMotor;
use crate::fixed::Fixed;

pub mod controller;
pub mod error;
pub mod linalg;
pub mod math;
pub mod motor;
pub mod pid;
pub mod telemetry;
pub mod time_mod;

pub use crate::control::controller::{Action, Controller, Event};
pub use crate::control::motor::Motor;
pub use crate::control::pid::Pid;
pub use crate::control::telemetry::{PlotPnts, PlotView, Point};

verus! {

/// How deep the cascade is in normal operation.
#[derive(PartialEq, Eq, Structural, Copy, Clone, Debug)]
pub enum ControlType {
    /// The position stage alone drives the voltage.
    Pos,
    /// Position sets the speed, speed sets the torque, torque sets the
    /// voltage.
    PosVelTrq,
}

/// A stage of the cascade.
#[derive(PartialEq, Eq, Structural, Copy, Clone, Debug)]
pub enum TypePid {
    Pos,
    Vel,
    Trq,
}

/// The stages that run in one tick, from the one that takes the setpoint
/// down to the one that gives the voltage.
#[derive(PartialEq, Eq, Structural, Copy, Clone, Debug)]
pub enum Route {
    /// Position alone.
    Pos,
    /// Position, then speed, then torque.
    PosVelTrq,
    /// Speed, then torque.
    VelTrq,
    /// Torque alone.
    Trq,
}

/// Where a run stands.
#[derive(PartialEq, Eq, Structural, Copy, Clone, Debug)]
pub enum Phase {
    /// Not running: not started yet, or stopped.
    Idle,
    /// Following the live target.
    RunningDirect,
    /// Following the fixed reference of the stage under calibration.
    RunningCalibration,
    /// Asked to end for good.
    Ended,
}

/// The gains of one stage, and which stage it is.
#[derive(Clone, Copy, PartialEq, Eq, Structural, Debug)]
pub struct ConfigPid {
    pub kp: Fixed,
    pub ki: Fixed,
    pub kd: Fixed,
    pub option: TypePid,
}

/// Bounds, timing and mode of the controller.
#[derive(Copy, Clone, PartialEq, Eq, Structural, Debug)]
pub struct ConfigController {
    /// Bound of the drive voltage, in volts.
    pub vltg_bound: Fixed,
    /// Bound of the speed setpoint, in revolutions per minute.
    pub vel_bound: Fixed,
    /// Bound of the torque setpoint.
    pub trq_bound: Fixed,
    /// Length of the telemetry window and of a calibration run, in seconds.
    pub duration: Fixed,
    /// Ticks per second.
    pub frequency: Fixed,
    /// The stage under calibration, if any.
    pub calib_option: Option<TypePid>,
    pub control_option: ControlType,
    /// Whether the loop is to run.
    pub start_flag: bool,
    /// Whether the loop is to end for good.
    pub end_flag: bool,
}

/// Everything that the operator can set.
#[derive(Copy, Clone, PartialEq, Eq, Debug)]
pub struct Config {
    pub motor: ConfigMotor,
    /// The gains of the position, speed and torque stages, in this order.
    pub pid_conf: [ConfigPid; 3],
    pub controller: ConfigController,
}

/// The angle that a calibration of the position stage steers to, in degrees.
pub open spec fn spec_calibration_angle() -> Fixed {
    Fixed::from_int(180)
}

impl ConfigPid {
    pub open spec fn spec_new(kp: Fixed, ki: Fixed, kd: Fixed, option: TypePid) -> ConfigPid {
        ConfigPid { kp, ki, kd, option }
    }

    #[verifier::when_used_as_spec(spec_new)]
    pub fn new(kp: Fixed, ki: Fixed, kd: Fixed, option: TypePid) -> (c: ConfigPid)
        ensures
            c == ConfigPid::spec_new(kp, ki, kd, option),
    {
        ConfigPid { kp, ki, kd, option }
    }

    pub fn set_kp(&mut self) -> (r: &mut Fixed)
        ensures
            *r == old(self).kp,
            *final(self) == (ConfigPid { kp: *final(r), ..*old(self) }),
    {
        &mut self.kp
    }

    pub fn set_kd(&mut self) -> (r: &mut Fixed)
        ensures
            *r == old(self).kd,
            *final(self) == (ConfigPid { kd: *final(r), ..*old(self) }),
    {
        &mut self.kd
    }

    pub fn set_ki(&mut self) -> (r: &mut Fixed)
        ensures
            *r == old(self).ki,
            *final(self) == (ConfigPid { ki: *final(r), ..*old(self) }),
    {
        &mut self.ki
    }

    pub fn get_option(&self) -> (r: TypePid)
        ensures
            r == self.option,
    {
        self.option
    }
}

impl ConfigController {
    pub open spec fn spec_default() -> ConfigController {
        ConfigController {
            vltg_bound: Fixed::from_int(24),
            vel_bound: Fixed::from_int(4000),
            trq_bound: Fixed::from_int(1),
            duration: Fixed::from_int(3),
            frequency: Fixed::from_int(1000),
            calib_option: None,
            control_option: ControlType::PosVelTrq,
            start_flag: false,
            end_flag: false,
        }
    }

    /// Whether no bound is below zero.
    pub open spec fn bounds_valid(&self) -> bool {
        self.vltg_bound@ >= 0 && self.vel_bound@ >= 0 && self.trq_bound@ >= 0
    }

    pub open spec fn spec_validate(&self) -> Result<(), ConfigError> {
        if !self.bounds_valid() {
            Err(ConfigError::BoundNegative)
        } else if self.frequency@ <= 0 {
            Err(ConfigError::FrequencyNotPositive)
        } else {
            Ok(())
        }
    }

    /// Checks that no bound is below zero and that the frequency is above
    /// zero.
    #[verifier::when_used_as_spec(spec_validate)]
    pub fn validate(&self) -> (r: Result<(), ConfigError>)
        ensures
            r == self.spec_validate(),
    {
        let zero = Fixed::zero();
        if self.vltg_bound.lt(zero) || self.vel_bound.lt(zero) || self.trq_bound.lt(zero) {
            Err(ConfigError::BoundNegative)
        } else if self.frequency.le(zero) {
            Err(ConfigError::FrequencyNotPositive)
        } else {
            Ok(())
        }
    }

    pub open spec fn spec_phase(&self) -> Phase {
        if self.end_flag {
            Phase::Ended
        } else if !self.start_flag {
            Phase::Idle
        } else if self.calib_option.is_some() {
            Phase::RunningCalibration
        } else {
            Phase::RunningDirect
        }
    }

    /// Where the run stands, by the two flags and the calibration option.
    #[verifier::when_used_as_spec(spec_phase)]
    pub fn phase(&self) -> (p: Phase)
        ensures
            p == self.spec_phase(),
    {
        if self.end_flag {
            Phase::Ended
        } else if !self.start_flag {
            Phase::Idle
        } else if self.calib_option.is_some() {
            Phase::RunningCalibration
        } else {
            Phase::RunningDirect
        }
    }

    /// Asks for a run that follows the live target.
    pub fn start(&mut self)
        ensures
            *final(self) == (ConfigController {
                calib_option: None,
                start_flag: true,
                ..*old(self)
            }),
            !old(self).end_flag ==> final(self).spec_phase() == Phase::RunningDirect,
    {
        self.calib_option = None;
        self.start_flag = true;
    }

    /// Asks for the run to stop.
    pub fn stop(&mut self)
        ensures
            *final(self) == (ConfigController { start_flag: false, ..*old(self) }),
            !old(self).end_flag ==> final(self).spec_phase() == Phase::Idle,
    {
        self.start_flag = false;
    }

    /// Asks for a calibration run of `stage`.
    pub fn calibrate(&mut self, stage: TypePid)
        ensures
            *final(self) == (ConfigController {
                calib_option: Some(stage),
                start_flag: true,
                ..*old(self)
            }),
            !old(self).end_flag ==> final(self).spec_phase() == Phase::RunningCalibration,
    {
        self.calib_option = Some(stage);
        self.start_flag = true;
    }

    /// Asks for the control loop to end for good.
    pub fn shut_down(&mut self)
        ensures
            *final(self) == (ConfigController { end_flag: true, ..*old(self) }),
            final(self).spec_phase() == Phase::Ended,
    {
        self.end_flag = true;
    }

    pub open spec fn spec_can_calibrate(&self, stage: TypePid) -> bool {
        self.control_option == ControlType::PosVelTrq || stage == TypePid::Pos
    }

    /// Whether `stage` is in use under the control option, and so can be
    /// calibrated: the position stage always, the other two in the full
    /// cascade only.
    #[verifier::when_used_as_spec(spec_can_calibrate)]
    pub fn can_calibrate(&self, stage: TypePid) -> (r: bool)
        ensures
            r == self.spec_can_calibrate(stage),
    {
        match self.control_option {
            ControlType::PosVelTrq => true,
            ControlType::Pos => match stage {
                TypePid::Pos => true,
                _ => false,
            },
        }
    }

    pub open spec fn spec_route(&self) -> Route {
        match self.calib_option {
            Some(TypePid::Vel) => Route::VelTrq,
            Some(TypePid::Trq) => Route::Trq,
            _ => match self.control_option {
                ControlType::Pos => Route::Pos,
                ControlType::PosVelTrq => Route::PosVelTrq,
            },
        }
    }

    /// The stages that a tick runs. A calibration of the speed or the torque
    /// stage starts the chain at that stage; else the chain starts at the
    /// position stage and is as deep as the control option says.
    #[verifier::when_used_as_spec(spec_route)]
    pub fn route(&self) -> (r: Route)
        ensures
            r == self.spec_route(),
    {
        match self.calib_option {
            Some(TypePid::Vel) => Route::VelTrq,
            Some(TypePid::Trq) => Route::Trq,
            _ => match self.control_option {
                ControlType::Pos => Route::Pos,
                ControlType::PosVelTrq => Route::PosVelTrq,
            },
        }
    }

    pub open spec fn spec_calibration_reference(&self, stage: TypePid) -> Fixed {
        match stage {
            TypePid::Pos => spec_calibration_angle(),
            TypePid::Vel => self.vel_bound.div(Fixed::from_int(2)),
            TypePid::Trq => self.trq_bound.div(Fixed::from_int(2)),
        }
    }

    /// The fixed setpoint against which `stage` is calibrated: 180 degrees
    /// for the position, half of its bound for the speed and for the torque.
    #[verifier::when_used_as_spec(spec_calibration_reference)]
    pub fn calibration_reference(&self, stage: TypePid) -> (r: Fixed)
        ensures
            r == self.spec_calibration_reference(stage),
    {
        match stage {
            TypePid::Pos => Fixed::from_int(180),
            TypePid::Vel => self.vel_bound.div(Fixed::from_int(2)),
            TypePid::Trq => self.trq_bound.div(Fixed::from_int(2)),
        }
    }

    pub open spec fn spec_setpoint(&self, target: Fixed) -> Fixed {
        match self.calib_option {
            Some(stage) => self.spec_calibration_reference(stage),
            None => target,
        }
    }

    /// The setpoint of the first stage: the live `target` in normal
    /// operation, the fixed reference of the stage under calibration else.
    #[verifier::when_used_as_spec(spec_setpoint)]
    pub fn setpoint(&self, target: Fixed) -> (r: Fixed)
        ensures
            r == self.spec_setpoint(target),
    {
        match self.calib_option {
            Some(stage) => self.calibration_reference(stage),
            None => target,
        }
    }

    pub fn set_vltg_bound(&mut self) -> (r: &mut Fixed)
        ensures
            *r == old(self).vltg_bound,
            *final(self) == (ConfigController { vltg_bound: *final(r), ..*old(self) }),
    {
        &mut self.vltg_bound
    }

    pub fn set_trq_bound(&mut self) -> (r: &mut Fixed)
        ensures
            *r == old(self).trq_bound,
            *final(self) == (ConfigController { trq_bound: *final(r), ..*old(self) }),
    {
        &mut self.trq_bound
    }

    pub fn get_trq_bound(&self) -> (r: &Fixed)
        ensures
            *r == self.trq_bound,
    {
        &self.trq_bound
    }

    pub fn set_vel_bound(&mut self) -> (r: &mut Fixed)
        ensures
            *r == old(self).vel_bound,
            *final(self) == (ConfigController { vel_bound: *final(r), ..*old(self) }),
    {
        &mut self.vel_bound
    }

    pub fn get_vel_bound(&self) -> (r: &Fixed)
        ensures
            *r == self.vel_bound,
    {
        &self.vel_bound
    }

    pub fn get_start_flag(&self) -> (r: &bool)
        ensures
            *r == self.start_flag,
    {
        &self.start_flag
    }

    pub fn set_start_flag(&mut self) -> (r: &mut bool)
        ensures
            *r == old(self).start_flag,
            *final(self) == (ConfigController { start_flag: *final(r), ..*old(self) }),
    {
        &mut self.start_flag
    }

    pub fn get_end_flag(&self) -> (r: &bool)
        ensures
            *r == self.end_flag,
    {
        &self.end_flag
    }

    pub fn set_end_flag(&mut self) -> (r: &mut bool)
        ensures
            *r == old(self).end_flag,
            *final(self) == (ConfigController { end_flag: *final(r), ..*old(self) }),
    {
        &mut self.end_flag
    }

    pub fn get_duration(&self) -> (r: Fixed)
        ensures
            r == self.duration,
    {
        self.duration
    }

    pub fn set_duration(&mut self) -> (r: &mut Fixed)
        ensures
            *r == old(self).duration,
            *final(self) == (ConfigController { duration: *final(r), ..*old(self) }),
    {
        &mut self.duration
    }

    pub fn set_frequency(&mut self) -> (r: &mut Fixed)
        ensures
            *r == old(self).frequency,
            *final(self) == (ConfigController { frequency: *final(r), ..*old(self) }),
    {
        &mut self.frequency
    }

    pub fn get_frequency(&self) -> (r: Fixed)
        ensures
            r == self.frequency,
    {
        self.frequency
    }

    pub fn set_calib_option(&mut self) -> (r: &mut Option<TypePid>)
        ensures
            *r == old(self).calib_option,
            *final(self) == (ConfigController { calib_option: *final(r), ..*old(self) }),
    {
        &mut self.calib_option
    }

    pub fn get_calib_option(&self) -> (r: &Option<TypePid>)
        ensures
            *r == self.calib_option,
    {
        &self.calib_option
    }

    pub fn set_control_option(&mut self) -> (r: &mut ControlType)
        ensures
            *r == old(self).control_option,
            *final(self) == (ConfigController { control_option: *final(r), ..*old(self) }),
    {
        &mut self.control_option
    }

    pub fn get_control_option(&self) -> (r: &ControlType)
        ensures
            *r == self.control_option,
    {
        &self.control_option
    }
}

impl Default for ConfigController {
    /// Bounds of 24 V, 4000 rpm and 1 N*m, a window of 3 s, 1000 ticks a
    /// second, the full cascade, no calibration, not started.
    fn default() -> (c: Self)
        ensures
            c == ConfigController::spec_default(),
    {
        ConfigController {
            vltg_bound: Fixed::from_int(24),
            vel_bound: Fixed::from_int(4000),
            trq_bound: Fixed::from_int(1),
            duration: Fixed::from_int(3),
            frequency: Fixed::from_int(1000),
            calib_option: None,
            control_option: ControlType::PosVelTrq,
            start_flag: false,
            end_flag: false,
        }
    }
}

impl Config {
    pub open spec fn spec_default() -> Config {
        Config {
            motor: ConfigMotor::spec_default(),
            pid_conf: [
                ConfigPid::new(
                    Fixed::from_int(40),
                    Fixed::from_int(1),
                    Fixed { raw: 1_500_000_000 },
                    TypePid::Pos,
                ),
                ConfigPid::new(
                    Fixed { raw: 1_000_000 },
                    Fixed::zero(),
                    Fixed::zero(),
                    TypePid::Vel,
                ),
                ConfigPid::new(
                    Fixed::from_int(8),
                    Fixed::from_int(5000),
                    Fixed::zero(),
                    TypePid::Trq,
                ),
            ],
            controller: ConfigController::spec_default(),
        }
    }

    pub open spec fn spec_validate(&self) -> Result<(), ConfigError> {
        match self.motor.spec_validate() {
            Err(e) => Err(e),
            Ok(_) => self.controller.spec_validate(),
        }
    }

    /// Whether a controller can be built from this configuration.
    pub open spec fn spec_valid(&self) -> bool {
        self.spec_validate().is_ok()
    }

    /// Checks the configuration before anything is built from it. The
    /// motor parameters are checked first, then the bounds, then the
    /// frequency; the first fault found is the error.
    #[verifier::when_used_as_spec(spec_validate)]
    pub fn validate(&self) -> (r: Result<(), ConfigError>)
        ensures
            r == self.spec_validate(),
    {
        match self.motor.validate() {
            Err(e) => Err(e),
            Ok(_) => self.controller.validate(),
        }
    }

    pub fn set_pid_conf(&mut self) -> (r: &mut [ConfigPid; 3])
        ensures
            *r == old(self).pid_conf,
            *final(self) == (Config { pid_conf: *final(r), ..*old(self) }),
    {
        &mut self.pid_conf
    }

    pub fn get_pid_conf(&self) -> (r: &[ConfigPid; 3])
        ensures
            *r == self.pid_conf,
    {
        &self.pid_conf
    }

    pub fn set_controller_conf(&mut self) -> (r: &mut ConfigController)
        ensures
            *r == old(self).controller,
            *final(self) == (Config { controller: *final(r), ..*old(self) }),
    {
        &mut self.controller
    }

    pub fn get_controller_conf(&self) -> (r: &ConfigController)
        ensures
            *r == self.controller,
    {
        &self.controller
    }

    pub fn set_motor_conf(&mut self) -> (r: &mut ConfigMotor)
        ensures
            *r == old(self).motor,
            *final(self) == (Config { motor: *final(r), ..*old(self) }),
    {
        &mut self.motor
    }
}

impl Default for Config {
    /// The default motor and controller, with the gains `40, 1, 1.5` for
    /// the position, `0.001, 0, 0` for the speed and `8, 5000, 0` for the
    /// torque, each as `kp, ki, kd`.
    fn default() -> (c: Self)
        ensures
            c == Config::spec_default(),
    {
        Config {
            motor: ConfigMotor::default(),
            pid_conf: [
                ConfigPid::new(
                    Fixed::from_int(40),
                    Fixed::from_int(1),
                    Fixed::from_raw(1_500_000_000),
                    TypePid::Pos,
                ),
                ConfigPid::new(
                    Fixed::from_raw(1_000_000),
                    Fixed::zero(),
                    Fixed::zero(),
                    TypePid::Vel,
                ),
                ConfigPid::new(
                    Fixed::from_int(8),
                    Fixed::from_int(5000),
                    Fixed::zero(),
                    TypePid::Trq,
                ),
            ],
            controller: ConfigController::default(),
        }
    }
}

} // verus!
