use vstd::prelude::*;

verus! {

/// Named vibration length presets; each one picks a duration out of the
/// `[lengths]` table of the configuration.
#[derive(Debug, Clone, Copy, PartialEq, Eq)]
pub enum SenseVibrationLength {
    Short,
    Medium,
    Long,
    CustomA,
    CustomB,
}

/// Named vibration strength presets; each one picks a percentage out of the
/// `[strengths]` table of the configuration.
#[derive(Debug, Clone, Copy, PartialEq, Eq)]
pub enum SenseVibrationStrength {
    Low,
    Medium,
    High,
    CustomA,
    CustomB,
}

} // verus!
