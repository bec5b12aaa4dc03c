//! A simulated DC motor and the cascade of PID stages that drives it.
//!
//! The motor is a linear system of two states, advanced step by step with
//! the exact discretization of its state matrix. A controller of up to three
//! stages (position, speed, torque) computes the drive voltage of each tick
//! and records what the motor does in a sliding window.
//!
//! All numbers are decimal fixed-point numbers ([`fixed::Fixed`]) with
//! saturating arithmetic, so every step is an exact function of its inputs.
//! The library reads no clock and shares no state: the caller hands in clock
//! readings, the live target and the window, and computes the matrix
//! exponential of each step.

pub mod control;
pub mod fixed;
