use vstd::prelude::*;

verus! {

/// Why a configuration cannot be run.
#[derive(Clone, Copy, PartialEq, Eq, Structural, Debug)]
pub enum ConfigError {
    /// A physical parameter of the motor is zero or below.
    MotorParameterNotPositive,
    /// The state matrix that the motor parameters give cannot be inverted.
    StateMatrixSingular,
    /// A saturation bound is below zero.
    BoundNegative,
    /// The tick frequency is zero or below.
    FrequencyNotPositive,
}

} // verus!
