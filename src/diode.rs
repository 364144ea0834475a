//! The diode's parameters and the rules that they are checked by.
use vstd::prelude::*;

use crate::binary64::Binary64;

verus! {

/// Why a set of diode parameters was refused.
#[derive(Clone, Copy, Debug, PartialEq, Eq, Structural)]
pub enum DiodeValueError {
    /// The saturation current is below zero.
    SatCurrentNegative,
    /// The quality (emission) factor is at or below zero.
    QualityFactorNonPositive,
    /// The temperature is at or below zero.
    TemperatureNonPositive,
}

/// Saturation current of the default diode: 1 x 10^-14 A.
pub const DEFAULT_SAT_CURRENT_BITS: u64 = 0x3D06_849B_86A1_2B9B;

/// Applied voltage of the default diode: six tenths of a volt.
pub const DEFAULT_VOLTAGE_BITS: u64 = 0x3FE3_3333_3333_3333;

/// Temperature of the default diode: 273 K.
pub const DEFAULT_TEMPERATURE_BITS: u64 = 0x4071_1000_0000_0000;

/// Quality factor of the default diode: one.
pub const DEFAULT_QUALITY_FACTOR_BITS: u64 = 0x3FF0_0000_0000_0000;

/// The rules on a diode's parameters, in the order in which they are checked:
/// the first one broken is the one reported. The voltage is not constrained.
pub open spec fn check_parameters(
    sat_current: Binary64,
    temperature: Binary64,
    quality_factor: Binary64,
) -> Result<(), DiodeValueError> {
    if sat_current.is_negative() {
        Err(DiodeValueError::SatCurrentNegative)
    } else if quality_factor.is_non_positive() {
        Err(DiodeValueError::QualityFactorNonPositive)
    } else if temperature.is_non_positive() {
        Err(DiodeValueError::TemperatureNonPositive)
    } else {
        Ok(())
    }
}

/// A diode at one operating point.
///
/// The fields are public, so a value may be built without the checks of
/// [`Diode::new`]; [`Diode::validate_values`] checks them again before use.
#[derive(Clone, Copy, Debug)]
pub struct Diode {
    /// Reverse saturation current, in amperes.
    pub sat_current: Binary64,
    /// Applied voltage, in volts.
    pub voltage: Binary64,
    /// Junction temperature, in kelvin.
    pub temperature: Binary64,
    /// Emission (ideality) factor, dimensionless.
    pub quality_factor: Binary64,
}

impl Diode {
    /// The outcome of checking this diode's parameters.
    pub open spec fn check(self) -> Result<(), DiodeValueError> {
        check_parameters(self.sat_current, self.temperature, self.quality_factor)
    }

    /// Whether every parameter meets its rule.
    pub open spec fn valid(self) -> bool {
        self.check() is Ok
    }

    /// The diode with the default parameters.
    pub open spec fn default_spec() -> Diode {
        Diode {
            sat_current: Binary64 { bits: DEFAULT_SAT_CURRENT_BITS },
            voltage: Binary64 { bits: DEFAULT_VOLTAGE_BITS },
            temperature: Binary64 { bits: DEFAULT_TEMPERATURE_BITS },
            quality_factor: Binary64 { bits: DEFAULT_QUALITY_FACTOR_BITS },
        }
    }

    /// Builds a diode from its parameters, which are kept as given, or reports
    /// the first rule that they break.
    pub fn new(
        sat_current: Binary64,
        voltage: Binary64,
        temperature: Binary64,
        quality_factor: Binary64,
    ) -> (r: Result<Diode, DiodeValueError>)
        ensures
            r == (match check_parameters(sat_current, temperature, quality_factor) {
                Ok(_) => Ok(Diode { sat_current, voltage, temperature, quality_factor }),
                Err(e) => Err(e),
            }),
            sat_current.is_negative() ==> r == Err::<Diode, _>(
                DiodeValueError::SatCurrentNegative,
            ),
            quality_factor.is_zero() || temperature.is_zero() ==> r is Err,
            !sat_current.is_negative() && quality_factor.is_positive()
                && temperature.is_positive() ==> r is Ok,
    {
        if sat_current.lt_zero() {
            return Err(DiodeValueError::SatCurrentNegative);
        }
        if quality_factor.le_zero() {
            return Err(DiodeValueError::QualityFactorNonPositive);
        }
        if temperature.le_zero() {
            return Err(DiodeValueError::TemperatureNonPositive);
        }
        Ok(Diode { sat_current, voltage, temperature, quality_factor })
    }

    /// Checks the parameters again, by the same rules and in the same order as
    /// [`Diode::new`]. A diode built field by field, or derived with
    /// [`Diode::with_voltage`], is checked here before its current is computed.
    pub fn validate_values(&self) -> (r: Result<(), DiodeValueError>)
        ensures
            r == self.check(),
    {
        if self.sat_current.lt_zero() {
            return Err(DiodeValueError::SatCurrentNegative);
        }
        if self.quality_factor.le_zero() {
            return Err(DiodeValueError::QualityFactorNonPositive);
        }
        if self.temperature.le_zero() {
            return Err(DiodeValueError::TemperatureNonPositive);
        }
        Ok(())
    }

    /// A copy of this diode at another applied voltage. Nothing is checked
    /// here: the check comes with [`Diode::validate_values`].
    pub fn with_voltage(&self, voltage: Binary64) -> (r: Diode)
        ensures
            r == (Diode { voltage, ..*self }),
    {
        Diode { voltage, ..*self }
    }
}

/// Deriving a diode with another voltage never changes the outcome of the
/// checks: nothing is refused when the copy is made, a copy of a valid diode is
/// valid at every voltage, and a copy of an invalid one is refused for the same
/// reason when it is checked before use.
pub proof fn voltage_override_keeps_check(d: Diode, voltage: Binary64)
    ensures
        (Diode { voltage, ..d }).check() == d.check(),
        d.valid() ==> (Diode { voltage, ..d }).valid(),
{
}

impl Default for Diode {
    /// The default diode: 1 x 10^-14 A, six tenths of a volt, 273 K and a
    /// quality factor of one. Its parameters meet every rule.
    fn default() -> (r: Diode)
        ensures
            r == Diode::default_spec(),
            r.valid(),
    {
        Diode {
            sat_current: Binary64 { bits: DEFAULT_SAT_CURRENT_BITS },
            voltage: Binary64 { bits: DEFAULT_VOLTAGE_BITS },
            temperature: Binary64 { bits: DEFAULT_TEMPERATURE_BITS },
            quality_factor: Binary64 { bits: DEFAULT_QUALITY_FACTOR_BITS },
        }
    }
}

} // verus!
