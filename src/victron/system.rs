use crate::victron::{code_message, decimal_text, Line, VictronError};
use vstd::prelude::*;

verus! {

/// Operating mode of the inverter/charger.
#[derive(Debug, Clone, Copy, PartialEq, Eq, Structural)]
pub enum VEBusMode {
    ChargerOnly,
    InverterOnly,
    On,
    Off,
}

impl VEBusMode {
    pub open spec fn code_spec(self) -> int {
        match self {
            VEBusMode::ChargerOnly => 1,
            VEBusMode::InverterOnly => 2,
            VEBusMode::On => 3,
            VEBusMode::Off => 4,
        }
    }

    /// Register value of the mode.
    pub fn code(&self) -> (r: u16)
        ensures
            r == self.code_spec(),
    {
        match self {
            VEBusMode::ChargerOnly => 1,
            VEBusMode::InverterOnly => 2,
            VEBusMode::On => 3,
            VEBusMode::Off => 4,
        }
    }

    /// The mode whose register value is `value`.
    pub fn try_from(value: u16) -> (r: Result<VEBusMode, VictronError>)
        ensures
            r is Ok <==> 1 <= value <= 4,
            r matches Ok(m) ==> m.code_spec() == value,
            r matches Err(e) ==> e.0@ == "Invalid mode "@ + decimal_text(value as nat) + "!"@,
    {
        if value == 1 {
            Ok(VEBusMode::ChargerOnly)
        } else if value == 2 {
            Ok(VEBusMode::InverterOnly)
        } else if value == 3 {
            Ok(VEBusMode::On)
        } else if value == 4 {
            Ok(VEBusMode::Off)
        } else {
            Err(VictronError(code_message("Invalid mode ", value)))
        }
    }

    pub open spec fn label(self) -> Seq<char> {
        match self {
            VEBusMode::ChargerOnly => "Charger Only"@,
            VEBusMode::InverterOnly => "Inverter Only"@,
            VEBusMode::On => "On"@,
            VEBusMode::Off => "Off"@,
        }
    }

    pub fn to_string(&self) -> (r: String)
        ensures
            r@ == self.label(),
    {
        match self {
            VEBusMode::ChargerOnly => "Charger Only".to_owned(),
            VEBusMode::InverterOnly => "Inverter Only".to_owned(),
            VEBusMode::On => "On".to_owned(),
            VEBusMode::Off => "Off".to_owned(),
        }
    }
}

/// A register of the inverter/charger.
#[derive(Debug, Clone, Copy, PartialEq, Eq, Structural)]
pub enum VEBus {
    InputVoltage(Line),
    InputCurrent(Line),
    InputFrequency(Line),
    InputPower(Line),
    OutputVoltage(Line),
    OutputCurrent(Line),
    OutputFrequency,
    OutputPower(Line),
    ActiveInputCurrentLimit,
    BatteryVoltage,
    BatteryCurrent,
    PhaseCount,
    ActiveInput,
    Mode,
    Alarm(VEBusAlarm),
}

impl VEBus {
    pub open spec fn address_spec(self) -> int {
        match self {
            VEBus::InputVoltage(l) => 2 + l.number_spec(),
            VEBus::InputCurrent(l) => 5 + l.number_spec(),
            VEBus::InputFrequency(l) => 8 + l.number_spec(),
            VEBus::InputPower(l) => 11 + l.number_spec(),
            VEBus::OutputVoltage(l) => 14 + l.number_spec(),
            VEBus::OutputCurrent(l) => 16 + l.number_spec(),
            VEBus::OutputFrequency => 21,
            VEBus::OutputPower(l) => 22 + l.number_spec(),
            VEBus::ActiveInputCurrentLimit => 22,
            VEBus::BatteryVoltage => 26,
            VEBus::BatteryCurrent => 27,
            VEBus::PhaseCount => 28,
            VEBus::ActiveInput => 29,
            VEBus::Mode => 33,
            VEBus::Alarm(a) => a.address_spec(),
        }
    }

    /// Address of the register.
    pub fn address(&self) -> (r: u16)
        ensures
            r == self.address_spec(),
    {
        match self {
            VEBus::InputVoltage(l) => 2 + l.number(),
            VEBus::InputCurrent(l) => 5 + l.number(),
            VEBus::InputFrequency(l) => 8 + l.number(),
            VEBus::InputPower(l) => 11 + l.number(),
            VEBus::OutputVoltage(l) => 14 + l.number(),
            VEBus::OutputCurrent(l) => 16 + l.number(),
            VEBus::OutputFrequency => 21,
            VEBus::OutputPower(l) => 22 + l.number(),
            VEBus::ActiveInputCurrentLimit => 22,
            VEBus::BatteryVoltage => 26,
            VEBus::BatteryCurrent => 27,
            VEBus::PhaseCount => 28,
            VEBus::ActiveInput => 29,
            VEBus::Mode => 33,
            VEBus::Alarm(a) => a.address(),
        }
    }
}

/// The AC input in use.
#[derive(Debug, Clone, Copy, PartialEq, Eq, Structural)]
pub enum ActiveInput {
    Line1,
    Line2,
    Disconnected,
}

impl ActiveInput {
    /// The input that the register value `value` names: 0 and 1 for the two
    /// lines, 240 when disconnected.
    pub fn try_from(value: u16) -> (r: Result<ActiveInput, VictronError>)
        ensures
            r is Ok <==> (value == 0 || value == 1 || value == 240),
            r matches Ok(a) ==> a == (if value == 0 {
                ActiveInput::Line1
            } else if value == 1 {
                ActiveInput::Line2
            } else {
                ActiveInput::Disconnected
            }),
            r matches Err(e) ==> e.0@ == "Unknown active input "@ + decimal_text(value as nat)
                + "!"@,
    {
        if value == 0 {
            Ok(ActiveInput::Line1)
        } else if value == 1 {
            Ok(ActiveInput::Line2)
        } else if value == 240 {
            Ok(ActiveInput::Disconnected)
        } else {
            Err(VictronError(code_message("Unknown active input ", value)))
        }
    }

    /// The line of the input; an error when disconnected.
    pub fn try_into(self) -> (r: Result<Line, VictronError>)
        ensures
            r is Ok <==> !(self is Disconnected),
            self is Line1 ==> r == Ok::<Line, VictronError>(Line::L1),
            self is Line2 ==> r == Ok::<Line, VictronError>(Line::L2),
            r matches Err(e) ==> e.0@ == "No active input!"@,
    {
        match self {
            ActiveInput::Line1 => Ok(Line::L1),
            ActiveInput::Line2 => Ok(Line::L2),
            ActiveInput::Disconnected => Err(VictronError("No active input!".to_owned())),
        }
    }

    pub open spec fn label(self) -> Seq<char> {
        match self {
            ActiveInput::Line1 => "Line 1"@,
            ActiveInput::Line2 => "Line 2"@,
            ActiveInput::Disconnected => "Disconnected"@,
        }
    }

    pub fn to_string(&self) -> (r: String)
        ensures
            r@ == self.label(),
    {
        match self {
            ActiveInput::Line1 => "Line 1".to_owned(),
            ActiveInput::Line2 => "Line 2".to_owned(),
            ActiveInput::Disconnected => "Disconnected".to_owned(),
        }
    }
}

/// State of one alarm.
#[derive(Debug, Clone, Copy, PartialEq, Eq, Structural)]
pub enum VEBusAlarmState {
    Normal,
    Warning,
    Alarm,
}

impl VEBusAlarmState {
    /// The state that the register value `value` gives: 0, 1 or 2.
    pub fn try_from(value: u16) -> (r: Result<VEBusAlarmState, VictronError>)
        ensures
            r is Ok <==> value <= 2,
            r matches Ok(s) ==> s == (if value == 0 {
                VEBusAlarmState::Normal
            } else if value == 1 {
                VEBusAlarmState::Warning
            } else {
                VEBusAlarmState::Alarm
            }),
            r matches Err(e) ==> e.0@ == "Invalid alarm state "@ + decimal_text(value as nat)
                + "!"@,
    {
        if value == 0 {
            Ok(VEBusAlarmState::Normal)
        } else if value == 1 {
            Ok(VEBusAlarmState::Warning)
        } else if value == 2 {
            Ok(VEBusAlarmState::Alarm)
        } else {
            Err(VictronError(code_message("Invalid alarm state ", value)))
        }
    }
}

/// An alarm of the inverter/charger, with its state.
#[derive(Debug, Clone, Copy, PartialEq, Eq, Structural)]
pub enum VEBusAlarm {
    HighTemperature(VEBusAlarmState),
    LowBattery(VEBusAlarmState),
    Overload(VEBusAlarmState),
    TemperatureSensor(VEBusAlarmState),
    VoltageSensor(VEBusAlarmState),
    LineTemperature(Line, VEBusAlarmState),
    LineLowBattery(Line, VEBusAlarmState),
    LineOverload(Line, VEBusAlarmState),
    LineRipple(Line, VEBusAlarmState),
    PhaseRotation(VEBusAlarmState),
    GridLost(VEBusAlarmState),
}

impl VEBusAlarm {
    pub open spec fn address_spec(self) -> int {
        match self {
            VEBusAlarm::HighTemperature(_) => 34,
            VEBusAlarm::LowBattery(_) => 35,
            VEBusAlarm::Overload(_) => 36,
            VEBusAlarm::TemperatureSensor(_) => 42,
            VEBusAlarm::VoltageSensor(_) => 43,
            VEBusAlarm::LineTemperature(l, _) => 44 + 4 * (l.number_spec() - 1),
            VEBusAlarm::LineLowBattery(l, _) => 45 + 4 * (l.number_spec() - 1),
            VEBusAlarm::LineOverload(l, _) => 46 + 4 * (l.number_spec() - 1),
            VEBusAlarm::LineRipple(l, _) => 47 + 4 * (l.number_spec() - 1),
            VEBusAlarm::PhaseRotation(_) => 63,
            VEBusAlarm::GridLost(_) => 64,
        }
    }

    /// Address of the alarm's register.
    pub fn address(&self) -> (r: u16)
        ensures
            r == self.address_spec(),
    {
        match self {
            VEBusAlarm::HighTemperature(_) => 34,
            VEBusAlarm::LowBattery(_) => 35,
            VEBusAlarm::Overload(_) => 36,
            VEBusAlarm::TemperatureSensor(_) => 42,
            VEBusAlarm::VoltageSensor(_) => 43,
            VEBusAlarm::LineTemperature(l, _) => 44 + 4 * (l.number() - 1),
            VEBusAlarm::LineLowBattery(l, _) => 45 + 4 * (l.number() - 1),
            VEBusAlarm::LineOverload(l, _) => 46 + 4 * (l.number() - 1),
            VEBusAlarm::LineRipple(l, _) => 47 + 4 * (l.number() - 1),
            VEBusAlarm::PhaseRotation(_) => 63,
            VEBusAlarm::GridLost(_) => 64,
        }
    }

    pub open spec fn state_spec(self) -> VEBusAlarmState {
        match self {
            VEBusAlarm::HighTemperature(s) => s,
            VEBusAlarm::LowBattery(s) => s,
            VEBusAlarm::Overload(s) => s,
            VEBusAlarm::TemperatureSensor(s) => s,
            VEBusAlarm::VoltageSensor(s) => s,
            VEBusAlarm::LineTemperature(_, s) => s,
            VEBusAlarm::LineLowBattery(_, s) => s,
            VEBusAlarm::LineOverload(_, s) => s,
            VEBusAlarm::LineRipple(_, s) => s,
            VEBusAlarm::PhaseRotation(s) => s,
            VEBusAlarm::GridLost(s) => s,
        }
    }

    /// The same alarm in state `state`.
    pub fn with_state(&self, state: VEBusAlarmState) -> (r: VEBusAlarm)
        ensures
            r.state_spec() == state,
            r.address_spec() == self.address_spec(),
            r == (match *self {
                VEBusAlarm::HighTemperature(_) => VEBusAlarm::HighTemperature(state),
                VEBusAlarm::LowBattery(_) => VEBusAlarm::LowBattery(state),
                VEBusAlarm::Overload(_) => VEBusAlarm::Overload(state),
                VEBusAlarm::TemperatureSensor(_) => VEBusAlarm::TemperatureSensor(state),
                VEBusAlarm::VoltageSensor(_) => VEBusAlarm::VoltageSensor(state),
                VEBusAlarm::LineTemperature(l, _) => VEBusAlarm::LineTemperature(l, state),
                VEBusAlarm::LineLowBattery(l, _) => VEBusAlarm::LineLowBattery(l, state),
                VEBusAlarm::LineOverload(l, _) => VEBusAlarm::LineOverload(l, state),
                VEBusAlarm::LineRipple(l, _) => VEBusAlarm::LineRipple(l, state),
                VEBusAlarm::PhaseRotation(_) => VEBusAlarm::PhaseRotation(state),
                VEBusAlarm::GridLost(_) => VEBusAlarm::GridLost(state),
            }),
    {
        match self {
            VEBusAlarm::HighTemperature(_) => VEBusAlarm::HighTemperature(state),
            VEBusAlarm::LowBattery(_) => VEBusAlarm::LowBattery(state),
            VEBusAlarm::Overload(_) => VEBusAlarm::Overload(state),
            VEBusAlarm::TemperatureSensor(_) => VEBusAlarm::TemperatureSensor(state),
            VEBusAlarm::VoltageSensor(_) => VEBusAlarm::VoltageSensor(state),
            VEBusAlarm::LineTemperature(l, _) => VEBusAlarm::LineTemperature(*l, state),
            VEBusAlarm::LineLowBattery(l, _) => VEBusAlarm::LineLowBattery(*l, state),
            VEBusAlarm::LineOverload(l, _) => VEBusAlarm::LineOverload(*l, state),
            VEBusAlarm::LineRipple(l, _) => VEBusAlarm::LineRipple(*l, state),
            VEBusAlarm::PhaseRotation(_) => VEBusAlarm::PhaseRotation(state),
            VEBusAlarm::GridLost(_) => VEBusAlarm::GridLost(state),
        }
    }

    /// Every alarm the inverter reports, each in state `Normal`, in the order
    /// they are polled.
    pub fn all() -> (r: Vec<VEBusAlarm>)
        ensures
            r@ == seq![
                VEBusAlarm::HighTemperature(VEBusAlarmState::Normal),
                VEBusAlarm::LowBattery(VEBusAlarmState::Normal),
                VEBusAlarm::Overload(VEBusAlarmState::Normal),
                VEBusAlarm::TemperatureSensor(VEBusAlarmState::Normal),
                VEBusAlarm::VoltageSensor(VEBusAlarmState::Normal),
                VEBusAlarm::LineTemperature(Line::L1, VEBusAlarmState::Normal),
                VEBusAlarm::LineLowBattery(Line::L1, VEBusAlarmState::Normal),
                VEBusAlarm::LineOverload(Line::L1, VEBusAlarmState::Normal),
                VEBusAlarm::LineRipple(Line::L1, VEBusAlarmState::Normal),
                VEBusAlarm::LineTemperature(Line::L2, VEBusAlarmState::Normal),
                VEBusAlarm::LineLowBattery(Line::L2, VEBusAlarmState::Normal),
                VEBusAlarm::LineOverload(Line::L2, VEBusAlarmState::Normal),
                VEBusAlarm::LineRipple(Line::L2, VEBusAlarmState::Normal),
                VEBusAlarm::LineTemperature(Line::L3, VEBusAlarmState::Normal),
                VEBusAlarm::LineLowBattery(Line::L3, VEBusAlarmState::Normal),
                VEBusAlarm::LineOverload(Line::L3, VEBusAlarmState::Normal),
                VEBusAlarm::LineRipple(Line::L3, VEBusAlarmState::Normal),
                VEBusAlarm::PhaseRotation(VEBusAlarmState::Normal),
                VEBusAlarm::GridLost(VEBusAlarmState::Normal),
            ],
    {
        let ok = VEBusAlarmState::Normal;
        vec![
            VEBusAlarm::HighTemperature(ok),
            VEBusAlarm::LowBattery(ok),
            VEBusAlarm::Overload(ok),
            VEBusAlarm::TemperatureSensor(ok),
            VEBusAlarm::VoltageSensor(ok),
            VEBusAlarm::LineTemperature(Line::L1, ok),
            VEBusAlarm::LineLowBattery(Line::L1, ok),
            VEBusAlarm::LineOverload(Line::L1, ok),
            VEBusAlarm::LineRipple(Line::L1, ok),
            VEBusAlarm::LineTemperature(Line::L2, ok),
            VEBusAlarm::LineLowBattery(Line::L2, ok),
            VEBusAlarm::LineOverload(Line::L2, ok),
            VEBusAlarm::LineRipple(Line::L2, ok),
            VEBusAlarm::LineTemperature(Line::L3, ok),
            VEBusAlarm::LineLowBattery(Line::L3, ok),
            VEBusAlarm::LineOverload(Line::L3, ok),
            VEBusAlarm::LineRipple(Line::L3, ok),
            VEBusAlarm::PhaseRotation(ok),
            VEBusAlarm::GridLost(ok),
        ]
    }
}

} // verus!
