use vstd::prelude::*;

use crate::ebc::codec::BASE240_LIMIT;
use crate::ebc::constants::DeviceType;
use crate::text::{decimal_string, spec_decimal};

verus! {

/// The limits of one device model, as plain values.
#[derive(Debug, Clone, Copy, PartialEq, Eq, Structural)]
pub struct CapabilityLimits {
    pub min_discharge_current_ma: u16,
    pub max_discharge_current_ma: u16,
    pub min_charge_current_ma: u16,
    pub max_charge_current_ma: u16,
    pub min_charge_cutoff_current_ma: u16,
    pub max_charge_cutoff_current_ma: u16,
    pub min_power_w: u16,
    pub max_power_w: u16,
    pub min_voltage_mv: u16,
    pub max_voltage_mv: u16,
    pub min_cutoff_time_min: u16,
    pub max_cutoff_time_min: u16,
    pub auto_mode_time_min_mins: u16,
    pub auto_mode_time_max_mins: u16,
}

/// The limits of the EBC-A20.
pub open spec fn ebc_a20_limits() -> CapabilityLimits {
    CapabilityLimits {
        min_discharge_current_ma: 10,
        max_discharge_current_ma: 20000,
        min_charge_current_ma: 10,
        max_charge_current_ma: 5000,
        min_charge_cutoff_current_ma: 10,
        max_charge_cutoff_current_ma: 5000,
        min_power_w: 1,
        max_power_w: 85,
        min_voltage_mv: 10,
        max_voltage_mv: 30000,
        min_cutoff_time_min: 0,
        max_cutoff_time_min: 999,
        auto_mode_time_min_mins: 0,
        auto_mode_time_max_mins: 10,
    }
}

/// What the operating limits of a device model are; the power and the
/// cutoff time limits stay encodable in a frame.
#[derive(Debug, Clone, Copy)]
pub struct DeviceCapabilities {
    min_discharge_current_ma: u16,
    max_discharge_current_ma: u16,
    min_charge_current_ma: u16,
    max_charge_current_ma: u16,
    min_charge_cutoff_current_ma: u16,
    max_charge_cutoff_current_ma: u16,
    min_power_w: u16,
    max_power_w: u16,
    min_voltage_mv: u16,
    max_voltage_mv: u16,
    min_cutoff_time_min: u16,
    max_cutoff_time_min: u16,
    auto_mode_time_min_mins: u16,
    auto_mode_time_max_mins: u16,
}

impl View for DeviceCapabilities {
    type V = CapabilityLimits;

    closed spec fn view(&self) -> CapabilityLimits {
        CapabilityLimits {
            min_discharge_current_ma: self.min_discharge_current_ma,
            max_discharge_current_ma: self.max_discharge_current_ma,
            min_charge_current_ma: self.min_charge_current_ma,
            max_charge_current_ma: self.max_charge_current_ma,
            min_charge_cutoff_current_ma: self.min_charge_cutoff_current_ma,
            max_charge_cutoff_current_ma: self.max_charge_cutoff_current_ma,
            min_power_w: self.min_power_w,
            max_power_w: self.max_power_w,
            min_voltage_mv: self.min_voltage_mv,
            max_voltage_mv: self.max_voltage_mv,
            min_cutoff_time_min: self.min_cutoff_time_min,
            max_cutoff_time_min: self.max_cutoff_time_min,
            auto_mode_time_min_mins: self.auto_mode_time_min_mins,
            auto_mode_time_max_mins: self.auto_mode_time_max_mins,
        }
    }
}

/// Limits whose power and cutoff time maxima can be sent to a device.
pub open spec fn limits_encodable(l: CapabilityLimits) -> bool {
    &&& l.max_power_w < BASE240_LIMIT
    &&& l.max_cutoff_time_min < BASE240_LIMIT
}

/// A parameter that the device model does not accept.
#[derive(Debug, Clone, Copy, PartialEq, Eq, Structural)]
pub enum CapabilityError {
    CurrentOutOfRange { min_ma: u16, max_ma: u16 },
    PowerOutOfRange { min_w: u16, max_w: u16 },
    CutoffVoltageOutOfRange { min_mv: u16, max_mv: u16 },
    CutoffTimeOutOfRange { max_min: u16 },
    ChargeVoltageOutOfRange { min_mv: u16, max_mv: u16 },
    CutoffCurrentOutOfRange { min_ma: u16, max_ma: u16 },
}

/// The message of each parameter error.
pub open spec fn spec_capability_error_message(e: CapabilityError) -> Seq<char> {
    match e {
        CapabilityError::CurrentOutOfRange { min_ma, max_ma } => "Current must be between "@
            + spec_decimal(min_ma as nat) + "mA and "@ + spec_decimal(max_ma as nat) + "mA"@,
        CapabilityError::PowerOutOfRange { min_w, max_w } => "Watts must be between "@
            + spec_decimal(min_w as nat) + "W and "@ + spec_decimal(max_w as nat) + "W"@,
        CapabilityError::CutoffVoltageOutOfRange { min_mv, max_mv } =>
            "Cutoff voltage must be between "@ + spec_decimal(min_mv as nat) + "mV and "@
            + spec_decimal(max_mv as nat) + "mV"@,
        CapabilityError::CutoffTimeOutOfRange { max_min } => "Cutoff time must be between 0 and "@
            + spec_decimal(max_min as nat) + " minutes"@,
        CapabilityError::ChargeVoltageOutOfRange { min_mv, max_mv } =>
            "Charge voltage must be between "@ + spec_decimal(min_mv as nat) + "mV and "@
            + spec_decimal(max_mv as nat) + "mV"@,
        CapabilityError::CutoffCurrentOutOfRange { min_ma, max_ma } =>
            "Cutoff current must be between "@ + spec_decimal(min_ma as nat) + "mA and "@
            + spec_decimal(max_ma as nat) + "mA"@,
    }
}

/// `prefix`, then `a`, then `middle`, then `b`, then `suffix`.
fn join_range(prefix: &str, a: u16, middle: &str, b: u16, suffix: &str) -> (s: String)
    ensures
        s@ == prefix@ + spec_decimal(a as nat) + middle@ + spec_decimal(b as nat) + suffix@,
{
    let mut s = String::from_str(prefix);
    let a_text = decimal_string(a as u64);
    s.append(a_text.as_str());
    s.append(middle);
    let b_text = decimal_string(b as u64);
    s.append(b_text.as_str());
    s.append(suffix);
    s
}

impl CapabilityError {
    /// The message that tells the user which range the parameter must lie in.
    pub fn to_string(&self) -> (s: String)
        ensures
            s@ == spec_capability_error_message(*self),
    {
        match self {
            CapabilityError::CurrentOutOfRange { min_ma, max_ma } => join_range(
                "Current must be between ",
                *min_ma,
                "mA and ",
                *max_ma,
                "mA",
            ),
            CapabilityError::PowerOutOfRange { min_w, max_w } => join_range(
                "Watts must be between ",
                *min_w,
                "W and ",
                *max_w,
                "W",
            ),
            CapabilityError::CutoffVoltageOutOfRange { min_mv, max_mv } => join_range(
                "Cutoff voltage must be between ",
                *min_mv,
                "mV and ",
                *max_mv,
                "mV",
            ),
            CapabilityError::CutoffTimeOutOfRange { max_min } => {
                let mut s = String::from_str("Cutoff time must be between 0 and ");
                let t = decimal_string(*max_min as u64);
                s.append(t.as_str());
                s.append(" minutes");
                s
            },
            CapabilityError::ChargeVoltageOutOfRange { min_mv, max_mv } => join_range(
                "Charge voltage must be between ",
                *min_mv,
                "mV and ",
                *max_mv,
                "mV",
            ),
            CapabilityError::CutoffCurrentOutOfRange { min_ma, max_ma } => join_range(
                "Cutoff current must be between ",
                *min_ma,
                "mA and ",
                *max_ma,
                "mA",
            ),
        }
    }
}

/// Whether a constant current discharge with these parameters is allowed,
/// and if not, the first parameter that is out of range.
pub open spec fn spec_check_constant_current_discharge(
    l: CapabilityLimits,
    discharge_current_ma: u16,
    cutoff_voltage_mv: u16,
    cutoff_time_min: u16,
) -> Result<(), CapabilityError> {
    if !(l.min_discharge_current_ma <= discharge_current_ma <= l.max_discharge_current_ma) {
        Err(
            CapabilityError::CurrentOutOfRange {
                min_ma: l.min_discharge_current_ma,
                max_ma: l.max_discharge_current_ma,
            },
        )
    } else if !(l.min_voltage_mv <= cutoff_voltage_mv <= l.max_voltage_mv) {
        Err(
            CapabilityError::CutoffVoltageOutOfRange {
                min_mv: l.min_voltage_mv,
                max_mv: l.max_voltage_mv,
            },
        )
    } else if cutoff_time_min > l.max_cutoff_time_min {
        Err(CapabilityError::CutoffTimeOutOfRange { max_min: l.max_cutoff_time_min })
    } else {
        Ok(())
    }
}

/// Whether a constant power discharge with these parameters is allowed,
/// and if not, the first parameter that is out of range.
pub open spec fn spec_check_constant_power_discharge(
    l: CapabilityLimits,
    discharge_power_w: u16,
    cutoff_voltage_mv: u16,
    cutoff_time_min: u16,
) -> Result<(), CapabilityError> {
    if !(l.min_power_w <= discharge_power_w <= l.max_power_w) {
        Err(CapabilityError::PowerOutOfRange { min_w: l.min_power_w, max_w: l.max_power_w })
    } else if !(l.min_voltage_mv <= cutoff_voltage_mv <= l.max_voltage_mv) {
        Err(
            CapabilityError::CutoffVoltageOutOfRange {
                min_mv: l.min_voltage_mv,
                max_mv: l.max_voltage_mv,
            },
        )
    } else if cutoff_time_min > l.max_cutoff_time_min {
        Err(CapabilityError::CutoffTimeOutOfRange { max_min: l.max_cutoff_time_min })
    } else {
        Ok(())
    }
}

/// Whether a charge with these parameters is allowed, and if not, the
/// first parameter that is out of range.
pub open spec fn spec_check_constant_current_voltage_charge(
    l: CapabilityLimits,
    charge_current_ma: u16,
    charge_voltage_mv: u16,
    cutoff_current_ma: u16,
) -> Result<(), CapabilityError> {
    if !(l.min_charge_current_ma <= charge_current_ma <= l.max_charge_current_ma) {
        Err(
            CapabilityError::CurrentOutOfRange {
                min_ma: l.min_charge_current_ma,
                max_ma: l.max_charge_current_ma,
            },
        )
    } else if !(l.min_voltage_mv <= charge_voltage_mv <= l.max_voltage_mv) {
        Err(
            CapabilityError::ChargeVoltageOutOfRange {
                min_mv: l.min_voltage_mv,
                max_mv: l.max_voltage_mv,
            },
        )
    } else if !(l.min_charge_cutoff_current_ma <= cutoff_current_ma
        <= l.max_charge_cutoff_current_ma) {
        Err(
            CapabilityError::CutoffCurrentOutOfRange {
                min_ma: l.min_charge_cutoff_current_ma,
                max_ma: l.max_charge_cutoff_current_ma,
            },
        )
    } else {
        Ok(())
    }
}

impl DeviceCapabilities {
    #[verifier::type_invariant]
    spec fn encodable(&self) -> bool {
        limits_encodable(self@)
    }

    /// The power and cutoff time limits fit into a frame's base-240 values.
    pub fn limits_fit_frames(&self)
        ensures
            limits_encodable(self@),
    {
        proof {
            use_type_invariant(self);
        }
    }

    /// The capabilities of a device model; only the EBC-A20 is described.
    pub fn from(model: DeviceType) -> (c: Self)
        requires
            model == DeviceType::EbcA20,
        ensures
            c@ == ebc_a20_limits(),
    {
        Self {
            min_discharge_current_ma: 10,
            max_discharge_current_ma: 20000,
            min_charge_current_ma: 10,
            max_charge_current_ma: 5000,
            min_charge_cutoff_current_ma: 10,
            max_charge_cutoff_current_ma: 5000,
            min_power_w: 1,
            max_power_w: 85,
            min_voltage_mv: 10,
            max_voltage_mv: 30000,
            min_cutoff_time_min: 0,
            max_cutoff_time_min: 999,
            auto_mode_time_min_mins: 0,
            auto_mode_time_max_mins: 10,
        }
    }

    pub fn min_discharge_current_ma(&self) -> (r: u16)
        ensures
            r == self@.min_discharge_current_ma,
    {
        self.min_discharge_current_ma
    }

    pub fn max_discharge_current_ma(&self) -> (r: u16)
        ensures
            r == self@.max_discharge_current_ma,
    {
        self.max_discharge_current_ma
    }

    pub fn min_charge_current_ma(&self) -> (r: u16)
        ensures
            r == self@.min_charge_current_ma,
    {
        self.min_charge_current_ma
    }

    pub fn max_charge_current_ma(&self) -> (r: u16)
        ensures
            r == self@.max_charge_current_ma,
    {
        self.max_charge_current_ma
    }

    pub fn min_charge_cutoff_current_ma(&self) -> (r: u16)
        ensures
            r == self@.min_charge_cutoff_current_ma,
    {
        self.min_charge_cutoff_current_ma
    }

    pub fn max_charge_cutoff_current_ma(&self) -> (r: u16)
        ensures
            r == self@.max_charge_cutoff_current_ma,
    {
        self.max_charge_cutoff_current_ma
    }

    pub fn min_power_w(&self) -> (r: u16)
        ensures
            r == self@.min_power_w,
    {
        self.min_power_w
    }

    pub fn max_power_w(&self) -> (r: u16)
        ensures
            r == self@.max_power_w,
    {
        self.max_power_w
    }

    pub fn min_voltage_mv(&self) -> (r: u16)
        ensures
            r == self@.min_voltage_mv,
    {
        self.min_voltage_mv
    }

    pub fn max_voltage_mv(&self) -> (r: u16)
        ensures
            r == self@.max_voltage_mv,
    {
        self.max_voltage_mv
    }

    pub fn min_cutoff_time_min(&self) -> (r: u16)
        ensures
            r == self@.min_cutoff_time_min,
    {
        self.min_cutoff_time_min
    }

    pub fn max_cutoff_time_min(&self) -> (r: u16)
        ensures
            r == self@.max_cutoff_time_min,
    {
        self.max_cutoff_time_min
    }

    pub fn auto_mode_time_min_mins(&self) -> (r: u16)
        ensures
            r == self@.auto_mode_time_min_mins,
    {
        self.auto_mode_time_min_mins
    }

    pub fn auto_mode_time_max_mins(&self) -> (r: u16)
        ensures
            r == self@.auto_mode_time_max_mins,
    {
        self.auto_mode_time_max_mins
    }

    /// Accepts a constant current discharge whose current and cutoff
    /// voltage lie within the model's ranges and whose cutoff time does not
    /// exceed its maximum.
    pub fn check_constant_current_discharge_command_parameters(
        &self,
        discharge_current_ma: u16,
        cutoff_voltage_mv: u16,
        cutoff_time_min: u16,
    ) -> (r: Result<(), CapabilityError>)
        ensures
            r == spec_check_constant_current_discharge(
                self@,
                discharge_current_ma,
                cutoff_voltage_mv,
                cutoff_time_min,
            ),
            limits_encodable(self@),
    {
        proof { use_type_invariant(self); }
        if !(self.min_discharge_current_ma() <= discharge_current_ma && discharge_current_ma
            <= self.max_discharge_current_ma()) {
            return Err(
                CapabilityError::CurrentOutOfRange {
                    min_ma: self.min_discharge_current_ma(),
                    max_ma: self.max_discharge_current_ma(),
                },
            );
        }
        if !(self.min_voltage_mv() <= cutoff_voltage_mv && cutoff_voltage_mv
            <= self.max_voltage_mv()) {
            return Err(
                CapabilityError::CutoffVoltageOutOfRange {
                    min_mv: self.min_voltage_mv(),
                    max_mv: self.max_voltage_mv(),
                },
            );
        }
        if cutoff_time_min > self.max_cutoff_time_min() {
            return Err(CapabilityError::CutoffTimeOutOfRange { max_min: self.max_cutoff_time_min() });
        }
        Ok(())
    }

    /// Accepts a constant power discharge whose power and cutoff voltage lie
    /// within the model's ranges and whose cutoff time does not exceed its
    /// maximum.
    pub fn check_constant_power_discharge_command_parameters(
        &self,
        discharge_power_w: u16,
        cutoff_voltage_mv: u16,
        cutoff_time_min: u16,
    ) -> (r: Result<(), CapabilityError>)
        ensures
            r == spec_check_constant_power_discharge(
                self@,
                discharge_power_w,
                cutoff_voltage_mv,
                cutoff_time_min,
            ),
            limits_encodable(self@),
    {
        proof { use_type_invariant(self); }
        if !(self.min_power_w() <= discharge_power_w && discharge_power_w <= self.max_power_w()) {
            return Err(
                CapabilityError::PowerOutOfRange {
                    min_w: self.min_power_w(),
                    max_w: self.max_power_w(),
                },
            );
        }
        if !(self.min_voltage_mv() <= cutoff_voltage_mv && cutoff_voltage_mv
            <= self.max_voltage_mv()) {
            return Err(
                CapabilityError::CutoffVoltageOutOfRange {
                    min_mv: self.min_voltage_mv(),
                    max_mv: self.max_voltage_mv(),
                },
            );
        }
        if cutoff_time_min > self.max_cutoff_time_min() {
            return Err(CapabilityError::CutoffTimeOutOfRange { max_min: self.max_cutoff_time_min() });
        }
        Ok(())
    }

    /// Accepts a charge whose current, voltage and cutoff current lie within
    /// the model's ranges.
    pub fn check_constant_current_voltage_charge_command_parameters(
        &self,
        charge_current_ma: u16,
        charge_voltage_mv: u16,
        cutoff_current_ma: u16,
    ) -> (r: Result<(), CapabilityError>)
        ensures
            r == spec_check_constant_current_voltage_charge(
                self@,
                charge_current_ma,
                charge_voltage_mv,
                cutoff_current_ma,
            ),
            limits_encodable(self@),
    {
        proof { use_type_invariant(self); }
        if !(self.min_charge_current_ma() <= charge_current_ma && charge_current_ma
            <= self.max_charge_current_ma()) {
            return Err(
                CapabilityError::CurrentOutOfRange {
                    min_ma: self.min_charge_current_ma(),
                    max_ma: self.max_charge_current_ma(),
                },
            );
        }
        if !(self.min_voltage_mv() <= charge_voltage_mv && charge_voltage_mv
            <= self.max_voltage_mv()) {
            return Err(
                CapabilityError::ChargeVoltageOutOfRange {
                    min_mv: self.min_voltage_mv(),
                    max_mv: self.max_voltage_mv(),
                },
            );
        }
        if !(self.min_charge_cutoff_current_ma() <= cutoff_current_ma && cutoff_current_ma
            <= self.max_charge_cutoff_current_ma()) {
            return Err(
                CapabilityError::CutoffCurrentOutOfRange {
                    min_ma: self.min_charge_cutoff_current_ma(),
                    max_ma: self.max_charge_cutoff_current_ma(),
                },
            );
        }
        Ok(())
    }
}

} // verus!
