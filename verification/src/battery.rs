//! The battery, as UPower's display device reports it.
use vstd::prelude::*;

verus! {

/// IEEE-754 binary64 encoding of 10.0: the charge level, in percent, below
/// which a discharging battery is critical.
pub const CRITICAL_LEVEL_BITS: u64 = 0x4024_0000_0000_0000;

/// IEEE-754 binary64 encoding of -0.0, the least encoding with the sign bit set.
pub const NEGATIVE_ZERO_BITS: u64 = 0x8000_0000_0000_0000;

/// IEEE-754 binary64 encoding of negative infinity.
pub const NEGATIVE_INFINITY_BITS: u64 = 0xFFF0_0000_0000_0000;

/// Whether the binary64 number encoded by `bits` compares less than 10.0.
/// The non-negative encodings below that of 10.0 are the numbers from +0.0 up
/// to just under 10.0; encodings with the sign bit set up to that of negative
/// infinity are the negative numbers (and -0.0); every NaN compares false.
pub open spec fn below_critical_level(bits: u64) -> bool {
    ||| bits < CRITICAL_LEVEL_BITS
    ||| NEGATIVE_ZERO_BITS <= bits <= NEGATIVE_INFINITY_BITS
}

/// UPower device states that count as being on mains power: charging (1),
/// fully charged (4) and pending charge (5).
pub open spec fn upower_state_on_power(state: u32) -> bool {
    state == 1 || state == 4 || state == 5
}

/// Charge level and power source of the battery. The charge level, in percent,
/// is held as the IEEE-754 binary64 encoding that UPower reported (`f64::to_bits`).
#[derive(Debug, Clone, Copy, PartialEq, Eq, Structural)]
pub struct BatteryStatus {
    pub percentage_bits: u64,
    pub is_charging: bool,
}

impl BatteryStatus {
    /// The battery is critical: below 10 % and not charging.
    pub open spec fn critical(self) -> bool {
        below_critical_level(self.percentage_bits) && !self.is_charging
    }

    /// The status that UPower's display device properties `Percentage` (as its
    /// binary64 encoding) and `State` describe.
    pub fn from_upower(percentage_bits: u64, state: u32) -> (b: BatteryStatus)
        ensures
            b.percentage_bits == percentage_bits,
            b.is_charging == upower_state_on_power(state),
    {
        BatteryStatus { percentage_bits, is_charging: state == 1 || state == 4 || state == 5 }
    }

    /// Whether the battery is below 10 % and not charging.
    pub fn is_critical(&self) -> (r: bool)
        ensures
            r == self.critical(),
    {
        (self.percentage_bits < CRITICAL_LEVEL_BITS || (NEGATIVE_ZERO_BITS <= self.percentage_bits
            && self.percentage_bits <= NEGATIVE_INFINITY_BITS)) && !self.is_charging
    }
}

} // verus!
