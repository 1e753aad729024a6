use crate::victron::client::{i16_from_register, register_from_i16};
use crate::victron::{code_message, Line, VictronError};
use vstd::prelude::*;

verus! {

/// ESS mode of the inverter.
#[derive(Debug, Clone, Copy, PartialEq, Eq, Structural)]
pub enum Hub4Mode {
    WithPhaseCompensation,
    WithoutPhaseCompensation,
    External,
}

impl Hub4Mode {
    pub open spec fn code_spec(self) -> int {
        match self {
            Hub4Mode::WithPhaseCompensation => 1,
            Hub4Mode::WithoutPhaseCompensation => 2,
            Hub4Mode::External => 3,
        }
    }

    /// Register value of the mode.
    pub fn code(&self) -> (r: u16)
        ensures
            r == self.code_spec(),
    {
        match self {
            Hub4Mode::WithPhaseCompensation => 1,
            Hub4Mode::WithoutPhaseCompensation => 2,
            Hub4Mode::External => 3,
        }
    }

    /// The mode whose register value is `value`.
    pub fn try_from(value: u16) -> (r: Result<Hub4Mode, VictronError>)
        ensures
            r is Ok <==> 1 <= value <= 3,
            r matches Ok(m) ==> m.code_spec() == value,
            r matches Err(e) ==> e.0@ == "Invalid Hub4 mode "@ + crate::victron::decimal_text(
                value as nat,
            ) + "!"@,
    {
        if value == 1 {
            Ok(Hub4Mode::WithPhaseCompensation)
        } else if value == 2 {
            Ok(Hub4Mode::WithoutPhaseCompensation)
        } else if value == 3 {
            Ok(Hub4Mode::External)
        } else {
            Err(VictronError(code_message("Invalid Hub4 mode ", value)))
        }
    }

    pub open spec fn label(self) -> Seq<char> {
        match self {
            Hub4Mode::WithPhaseCompensation => "ESS with phase compensation"@,
            Hub4Mode::WithoutPhaseCompensation => "ESS without phase compensation"@,
            Hub4Mode::External => "Disabled / External Control"@,
        }
    }

    pub fn to_string(&self) -> (r: String)
        ensures
            r@ == self.label(),
    {
        match self {
            Hub4Mode::WithPhaseCompensation => "ESS with phase compensation".to_owned(),
            Hub4Mode::WithoutPhaseCompensation => "ESS without phase compensation".to_owned(),
            Hub4Mode::External => "Disabled / External Control".to_owned(),
        }
    }
}

/// An ESS control register, with the value it holds.
#[derive(Debug, Clone, PartialEq, Eq, Structural)]
pub enum Register {
    /// Value in watts.
    /// Positive values take power from grid.
    /// Negative values feed into the grid.
    PowerSetPoint(Line, i16),
    /// Control charger
    DisableCharge(bool),
    /// Control feed-in from battery
    DisableFeedIn(bool),
    /// ESS Mode
    Mode(Hub4Mode),
}

impl Register {
    pub open spec fn address_spec(self) -> int {
        match self {
            Register::PowerSetPoint(l, _) => match l {
                Line::L1 => 37,
                Line::L2 => 40,
                Line::L3 => 41,
            },
            Register::DisableCharge(_) => 38,
            Register::DisableFeedIn(_) => 39,
            Register::Mode(_) => 2902,
        }
    }

    /// Address of the register.
    pub fn address(&self) -> (r: u16)
        ensures
            r == self.address_spec(),
    {
        match self {
            Register::PowerSetPoint(l, _) => match l {
                Line::L1 => 37,
                Line::L2 => 40,
                Line::L3 => 41,
            },
            Register::DisableCharge(_) => 38,
            Register::DisableFeedIn(_) => 39,
            Register::Mode(_) => 2902,
        }
    }

    /// The value to write to the register: a set point in two's complement,
    /// 100 for a flag that is set and 0 for one that is not, a mode's code.
    pub fn encode(&self) -> (r: u16)
        ensures
            r == match *self {
                Register::PowerSetPoint(_, p) => if p >= 0 {
                    p as int
                } else {
                    p + 0x10000
                },
                Register::DisableCharge(v) => if v {
                    100
                } else {
                    0
                },
                Register::DisableFeedIn(v) => if v {
                    100
                } else {
                    0
                },
                Register::Mode(m) => m.code_spec(),
            },
    {
        match self {
            Register::PowerSetPoint(_, power) => register_from_i16(*power),
            Register::DisableCharge(v) => if *v {
                100
            } else {
                0
            },
            Register::DisableFeedIn(v) => if *v {
                100
            } else {
                0
            },
            Register::Mode(v) => v.code(),
        }
    }

    /// The register of the same kind as `self`, holding what was read from
    /// it: a set point in two's complement; a flag set when the low byte is 1;
    /// a mode by its code.
    pub fn decode(&self, raw: u16) -> (r: Result<Register, VictronError>)
        ensures
            r is Ok <==> !(self is Mode) || 1 <= raw <= 3,
            r matches Ok(v) ==> match *self {
                Register::PowerSetPoint(l, _) => v == Register::PowerSetPoint(
                    l,
                    (if raw < 0x8000 {
                        raw as int
                    } else {
                        raw - 0x10000
                    }) as i16,
                ),
                Register::DisableCharge(_) => v == Register::DisableCharge(raw % 256 == 1),
                Register::DisableFeedIn(_) => v == Register::DisableFeedIn(raw % 256 == 1),
                Register::Mode(_) => v matches Register::Mode(m) && m.code_spec() == raw,
            },
    {
        match self {
            Register::PowerSetPoint(l, _) => Ok(Register::PowerSetPoint(*l, i16_from_register(raw))),
            Register::DisableCharge(_) => Ok(Register::DisableCharge(raw % 256 == 1)),
            Register::DisableFeedIn(_) => Ok(Register::DisableFeedIn(raw % 256 == 1)),
            Register::Mode(_) => match Hub4Mode::try_from(raw) {
                Ok(m) => Ok(Register::Mode(m)),
                Err(e) => Err(e),
            },
        }
    }
}

} // verus!
