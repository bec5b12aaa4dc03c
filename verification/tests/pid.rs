use motorsim::control::math::{Derivative, Integrator};
use motorsim::control::{ConfigPid, Pid, TypePid};
use motorsim::fixed::Fixed;

fn raw(x: i64) -> Fixed {
    Fixed::from_raw(x)
}

fn whole(x: i32) -> Fixed {
    Fixed::from_int(x)
}

#[test]
fn config_pid_keeps_what_it_is_given() {
    let mut c = ConfigPid::new(whole(40), whole(1), raw(1_500_000_000), TypePid::Pos);
    assert_eq!(c.kp, whole(40));
    assert_eq!(c.ki, whole(1));
    assert_eq!(c.kd, raw(1_500_000_000));
    assert_eq!(c.get_option(), TypePid::Pos);
    *c.set_kp() = whole(2);
    *c.set_ki() = whole(3);
    *c.set_kd() = whole(4);
    assert_eq!(c, ConfigPid::new(whole(2), whole(3), whole(4), TypePid::Pos));
}

#[test]
fn new_pid_remembers_nothing() {
    let config = ConfigPid::new(whole(1), whole(2), whole(3), TypePid::Trq);
    let pid = Pid::new(config);
    assert_eq!(pid.config, config);
    assert_eq!(pid.integral, Integrator::default());
    assert_eq!(pid.derivative, Derivative::default());
}

#[test]
fn generate_control_follows_the_law() {
    let mut pid = Pid::new(ConfigPid::new(raw(2_500_000_000), raw(300_000_000), raw(10_000_000), TypePid::Vel));
    let delta = raw(2_000_000);
    let bound = whole(100);
    // error 1.75: rate 875, sum 0.0035; 4.375 + 8.75 + 0.00105
    assert_eq!(pid.generate_control(raw(1_250_000_000), whole(3), delta, bound).raw(), 13_126_050_000);
    assert_eq!(pid.integral.get_state().raw(), 3_500_000);
    assert_eq!(pid.derivative.get_state().raw(), 875_000_000_000);
    // error 1.5: rate -125, sum 0.0065; 3.75 - 1.25 + 0.00195
    assert_eq!(pid.generate_control(raw(1_500_000_000), whole(3), delta, bound).raw(), 2_501_950_000);
    assert_eq!(pid.integral.get_state().raw(), 6_500_000);
    assert_eq!(pid.derivative.get_state().raw(), -125_000_000_000);
    // error -1: rate -1250, sum 0.0045; -2.5 - 12.5 + 0.00135
    assert_eq!(pid.generate_control(whole(4), whole(3), delta, bound).raw(), -14_998_650_000);
    assert_eq!(pid.integral.get_state().raw(), 4_500_000);
    assert_eq!(pid.derivative.get_state().raw(), -1_250_000_000_000);
}

#[test]
fn generate_control_saturates_at_the_bound() {
    let mut pid = Pid::new(ConfigPid::new(whole(40), whole(1), raw(1_500_000_000), TypePid::Pos));
    let delta = raw(1_000_000);
    assert_eq!(pid.generate_control(Fixed::zero(), whole(180), delta, whole(4000)), whole(4000));
    assert_eq!(pid.integral.get_state().raw(), 180_000_000);
    assert_eq!(pid.derivative.get_state(), whole(180_000));
    assert_eq!(pid.generate_control(whole(10), whole(180), delta, whole(4000)), whole(-4000));
    assert_eq!(pid.integral.get_state().raw(), 350_000_000);
    assert_eq!(pid.derivative.get_state(), whole(-10_000));
}

#[test]
fn generate_control_output_never_exceeds_the_bound() {
    let gains = [i64::MIN, -3_000_000_000, 0, 1, 40_000_000_000, i64::MAX];
    let errors = [i64::MIN, -180_000_000_000, -1, 0, 7, 359_000_000_000, i64::MAX];
    let bounds = [0, 1, 24_000_000_000, i64::MAX];
    for kp in gains {
        for ki in gains {
            for kd in gains {
                for e in errors {
                    for b in bounds {
                        let mut pid = Pid::new(ConfigPid::new(raw(kp), raw(ki), raw(kd), TypePid::Pos));
                        for _ in 0..3 {
                            let out = pid.generate_control(Fixed::zero(), raw(e), raw(1_000_000), raw(b));
                            assert!(out.raw() <= b && out.raw() >= -b);
                        }
                    }
                }
            }
        }
    }
}

#[test]
fn generate_control_with_bound_zero_gives_zero() {
    let mut pid = Pid::new(ConfigPid::new(whole(5), whole(5), whole(5), TypePid::Trq));
    assert_eq!(pid.generate_control(whole(1), whole(9), raw(1_000_000), Fixed::zero()), Fixed::zero());
}

#[test]
fn the_sum_goes_on_growing_while_the_output_is_clamped() {
    let mut pid = Pid::new(ConfigPid::new(Fixed::zero(), whole(1), Fixed::zero(), TypePid::Pos));
    let delta = Fixed::one();
    for step in 1..=5 {
        let out = pid.generate_control(Fixed::zero(), whole(10), delta, whole(15));
        assert_eq!(pid.integral.get_state(), whole(10 * step));
        assert_eq!(out, if step == 1 { whole(10) } else { whole(15) });
    }
    // The error turns, the sum has to unwind before the output leaves the bound.
    assert_eq!(pid.generate_control(Fixed::zero(), whole(-10), delta, whole(15)), whole(15));
    assert_eq!(pid.generate_control(Fixed::zero(), whole(-10), delta, whole(15)), whole(15));
    assert_eq!(pid.generate_control(Fixed::zero(), whole(-10), delta, whole(15)), whole(15));
    assert_eq!(pid.generate_control(Fixed::zero(), whole(-10), delta, whole(15)), whole(10));
}

#[test]
fn pid_reset_takes_new_gains_and_forgets() {
    let mut pid = Pid::new(ConfigPid::new(whole(1), whole(1), whole(1), TypePid::Pos));
    pid.generate_control(whole(1), whole(5), raw(1_000_000), whole(100));
    pid.generate_control(whole(2), whole(5), raw(1_000_000), whole(100));
    let config = ConfigPid::new(whole(7), whole(8), whole(9), TypePid::Vel);
    pid.reset(config);
    assert_eq!(pid, Pid::new(config));
}
