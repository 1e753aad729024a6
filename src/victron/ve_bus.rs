use crate::victron::{code_message, decimal_text, Line, VictronError};
use vstd::prelude::*;

verus! {

/// Operating mode of the inverter/charger.
#[derive(Debug, Clone, Copy, PartialEq, Eq, Structural)]
pub enum Mode {
    ChargerOnly,
    InverterOnly,
    On,
    Off,
}

impl Mode {
    pub open spec fn code_spec(self) -> int {
        match self {
            Mode::ChargerOnly => 1,
            Mode::InverterOnly => 2,
            Mode::On => 3,
            Mode::Off => 4,
        }
    }

    /// Register value of the mode.
    pub fn code(&self) -> (r: u16)
        ensures
            r == self.code_spec(),
    {
        match self {
            Mode::ChargerOnly => 1,
            Mode::InverterOnly => 2,
            Mode::On => 3,
            Mode::Off => 4,
        }
    }

    /// The mode whose register value is `value`.
    pub fn try_from(value: u8) -> (r: Result<Mode, VictronError>)
        ensures
            r is Ok <==> 1 <= value <= 4,
            r matches Ok(m) ==> m.code_spec() == value,
            r matches Err(e) ==> e.0@ == "Invalid mode "@ + decimal_text(value as nat) + "!"@,
    {
        if value == 1 {
            Ok(Mode::ChargerOnly)
        } else if value == 2 {
            Ok(Mode::InverterOnly)
        } else if value == 3 {
            Ok(Mode::On)
        } else if value == 4 {
            Ok(Mode::Off)
        } else {
            Err(VictronError(code_message("Invalid mode ", value as u16)))
        }
    }

    pub open spec fn label(self) -> Seq<char> {
        match self {
            Mode::ChargerOnly => "Charger Only"@,
            Mode::InverterOnly => "Inverter Only"@,
            Mode::On => "On"@,
            Mode::Off => "Off"@,
        }
    }

    pub fn to_string(&self) -> (r: String)
        ensures
            r@ == self.label(),
    {
        match self {
            Mode::ChargerOnly => "Charger Only".to_owned(),
            Mode::InverterOnly => "Inverter Only".to_owned(),
            Mode::On => "On".to_owned(),
            Mode::Off => "Off".to_owned(),
        }
    }
}

/// A register of the inverter/charger.
#[derive(Debug, Clone, Copy, PartialEq, Eq, Structural)]
pub enum Register {
    InputVoltage(Line),
    InputCurrent(Line),
    InputFrequency(Line),
    InputPower(Line),
    OutputVoltage(Line),
    OutputCurrent(Line),
    OutputFrequency,
    OutputPower(Line),
    ActiveInputCurrentLimit,
    BatteryVoltage,
    BatteryCurrent,
    PhaseCount,
    ActiveInput,
    State,
    Mode,
    Alarm(Alarm),
    ACInputIgnore(Line, bool),
}

impl Register {
    /// Address of the register; there is none for ignoring AC input on the
    /// third line.
    pub open spec fn address_spec(self) -> Option<int> {
        match self {
            Register::InputVoltage(l) => Some(2 + l.number_spec()),
            Register::InputCurrent(l) => Some(5 + l.number_spec()),
            Register::InputFrequency(l) => Some(8 + l.number_spec()),
            Register::InputPower(l) => Some(11 + l.number_spec()),
            Register::OutputVoltage(l) => Some(14 + l.number_spec()),
            Register::OutputCurrent(l) => Some(16 + l.number_spec()),
            Register::OutputFrequency => Some(21),
            Register::OutputPower(l) => Some(22 + l.number_spec()),
            Register::ActiveInputCurrentLimit => Some(22),
            Register::BatteryVoltage => Some(26),
            Register::BatteryCurrent => Some(27),
            Register::PhaseCount => Some(28),
            Register::ActiveInput => Some(29),
            Register::State => Some(31),
            Register::Mode => Some(33),
            Register::Alarm(a) => Some(a.address_spec()),
            Register::ACInputIgnore(l, _) => match l {
                Line::L1 => Some(69),
                Line::L2 => Some(70),
                Line::L3 => None,
            },
        }
    }

    /// Address of the register.
    pub fn address(&self) -> (r: Result<u16, VictronError>)
        ensures
            r is Ok <==> self.address_spec() is Some,
            r matches Ok(a) ==> self.address_spec() == Some(a as int),
            r matches Err(e) ==> e.0@ == "No AC Input Ignore for Line 3!"@,
    {
        match self {
            Register::InputVoltage(l) => Ok(2 + l.number()),
            Register::InputCurrent(l) => Ok(5 + l.number()),
            Register::InputFrequency(l) => Ok(8 + l.number()),
            Register::InputPower(l) => Ok(11 + l.number()),
            Register::OutputVoltage(l) => Ok(14 + l.number()),
            Register::OutputCurrent(l) => Ok(16 + l.number()),
            Register::OutputFrequency => Ok(21),
            Register::OutputPower(l) => Ok(22 + l.number()),
            Register::ActiveInputCurrentLimit => Ok(22),
            Register::BatteryVoltage => Ok(26),
            Register::BatteryCurrent => Ok(27),
            Register::PhaseCount => Ok(28),
            Register::ActiveInput => Ok(29),
            Register::State => Ok(31),
            Register::Mode => Ok(33),
            Register::Alarm(a) => Ok(a.address()),
            Register::ACInputIgnore(l, _) => match l {
                Line::L1 => Ok(69),
                Line::L2 => Ok(70),
                Line::L3 => Err(VictronError("No AC Input Ignore for Line 3!".to_owned())),
            },
        }
    }
}

/// Charger state of the inverter/charger.
#[derive(Debug, Clone, Copy, PartialEq, Eq, Structural)]
pub enum State {
    Off,
    LowPower,
    Fault,
    Bulk,
    Absorption,
    Float,
    Storage,
    Equalize,
    Passthrough,
    Inverting,
    PowerAssist,
    PowerSupply,
    BulkProtection,
}

impl State {
    pub open spec fn code_spec(self) -> int {
        match self {
            State::Off => 0,
            State::LowPower => 1,
            State::Fault => 2,
            State::Bulk => 3,
            State::Absorption => 4,
            State::Float => 5,
            State::Storage => 6,
            State::Equalize => 7,
            State::Passthrough => 8,
            State::Inverting => 9,
            State::PowerAssist => 10,
            State::PowerSupply => 11,
            State::BulkProtection => 252,
        }
    }

    /// The state whose register value is `value`: 0 to 11, or 252.
    pub fn try_from(value: u8) -> (r: Result<State, VictronError>)
        ensures
            r is Ok <==> (value <= 11 || value == 252),
            r matches Ok(s) ==> s.code_spec() == value,
            r matches Err(e) ==> e.0@ == "Invalid mode "@ + decimal_text(value as nat) + "!"@,
    {
        match value {
            0 => Ok(State::Off),
            1 => Ok(State::LowPower),
            2 => Ok(State::Fault),
            3 => Ok(State::Bulk),
            4 => Ok(State::Absorption),
            5 => Ok(State::Float),
            6 => Ok(State::Storage),
            7 => Ok(State::Equalize),
            8 => Ok(State::Passthrough),
            9 => Ok(State::Inverting),
            10 => Ok(State::PowerAssist),
            11 => Ok(State::PowerSupply),
            252 => Ok(State::BulkProtection),
            _ => Err(VictronError(code_message("Invalid mode ", value as u16))),
        }
    }

    pub open spec fn label(self) -> Seq<char> {
        match self {
            State::Off => "Off"@,
            State::LowPower => "Low Power"@,
            State::Fault => "Fault"@,
            State::Bulk => "Bulk"@,
            State::Absorption => "Absorption"@,
            State::Float => "Float"@,
            State::Storage => "Storage"@,
            State::Equalize => "Equalize"@,
            State::Passthrough => "Passthrough"@,
            State::Inverting => "Inverting"@,
            State::PowerAssist => "Power Assist"@,
            State::PowerSupply => "Power Supply"@,
            State::BulkProtection => "Bulk Protection"@,
        }
    }

    pub fn to_string(&self) -> (r: String)
        ensures
            r@ == self.label(),
    {
        match self {
            State::Off => "Off".to_owned(),
            State::LowPower => "Low Power".to_owned(),
            State::Fault => "Fault".to_owned(),
            State::Bulk => "Bulk".to_owned(),
            State::Absorption => "Absorption".to_owned(),
            State::Float => "Float".to_owned(),
            State::Storage => "Storage".to_owned(),
            State::Equalize => "Equalize".to_owned(),
            State::Passthrough => "Passthrough".to_owned(),
            State::Inverting => "Inverting".to_owned(),
            State::PowerAssist => "Power Assist".to_owned(),
            State::PowerSupply => "Power Supply".to_owned(),
            State::BulkProtection => "Bulk Protection".to_owned(),
        }
    }
}

/// The AC input in use.
#[derive(Debug, Clone, Copy, PartialEq, Eq, Structural)]
pub enum ActiveInput {
    Line1,
    Line2,
    Disconnected,
}

impl ActiveInput {
    /// The input that the register value `value` names: 0 and 1 for the two
    /// lines, 240 when disconnected.
    pub fn try_from(value: u16) -> (r: Result<ActiveInput, VictronError>)
        ensures
            r is Ok <==> (value == 0 || value == 1 || value == 240),
            r matches Ok(a) ==> a == (if value == 0 {
                ActiveInput::Line1
            } else if value == 1 {
                ActiveInput::Line2
            } else {
                ActiveInput::Disconnected
            }),
            r matches Err(e) ==> e.0@ == "Unknown active input "@ + decimal_text(value as nat)
                + "!"@,
    {
        if value == 0 {
            Ok(ActiveInput::Line1)
        } else if value == 1 {
            Ok(ActiveInput::Line2)
        } else if value == 240 {
            Ok(ActiveInput::Disconnected)
        } else {
            Err(VictronError(code_message("Unknown active input ", value)))
        }
    }

    /// The line of the input; an error when disconnected.
    pub fn try_into(self) -> (r: Result<Line, VictronError>)
        ensures
            r is Ok <==> !(self is Disconnected),
            self is Line1 ==> r == Ok::<Line, VictronError>(Line::L1),
            self is Line2 ==> r == Ok::<Line, VictronError>(Line::L2),
            r matches Err(e) ==> e.0@ == "No active input!"@,
    {
        match self {
            ActiveInput::Line1 => Ok(Line::L1),
            ActiveInput::Line2 => Ok(Line::L2),
            ActiveInput::Disconnected => Err(VictronError("No active input!".to_owned())),
        }
    }

    pub open spec fn label(self) -> Seq<char> {
        match self {
            ActiveInput::Line1 => "Line 1"@,
            ActiveInput::Line2 => "Line 2"@,
            ActiveInput::Disconnected => "Disconnected"@,
        }
    }

    pub fn to_string(&self) -> (r: String)
        ensures
            r@ == self.label(),
    {
        match self {
            ActiveInput::Line1 => "Line 1".to_owned(),
            ActiveInput::Line2 => "Line 2".to_owned(),
            ActiveInput::Disconnected => "Disconnected".to_owned(),
        }
    }
}

/// State of one alarm.
#[derive(Debug, Clone, Copy, PartialEq, Eq, Structural)]
pub enum AlarmState {
    Normal,
    Warning,
    Alarm,
}

impl AlarmState {
    /// The state that the register value `value` gives: 0, 1 or 2.
    pub fn try_from(value: u8) -> (r: Result<AlarmState, VictronError>)
        ensures
            r is Ok <==> value <= 2,
            r matches Ok(s) ==> s == (if value == 0 {
                AlarmState::Normal
            } else if value == 1 {
                AlarmState::Warning
            } else {
                AlarmState::Alarm
            }),
            r matches Err(e) ==> e.0@ == "Invalid alarm state "@ + decimal_text(value as nat)
                + "!"@,
    {
        if value == 0 {
            Ok(AlarmState::Normal)
        } else if value == 1 {
            Ok(AlarmState::Warning)
        } else if value == 2 {
            Ok(AlarmState::Alarm)
        } else {
            Err(VictronError(code_message("Invalid alarm state ", value as u16)))
        }
    }
}

/// An alarm of the inverter/charger, with its state.
#[derive(Debug, Clone, Copy, PartialEq, Eq, Structural)]
pub enum Alarm {
    HighTemperature(AlarmState),
    LowBattery(AlarmState),
    Overload(AlarmState),
    TemperatureSensor(AlarmState),
    VoltageSensor(AlarmState),
    LineTemperature(Line, AlarmState),
    LineLowBattery(Line, AlarmState),
    LineOverload(Line, AlarmState),
    LineRipple(Line, AlarmState),
    PhaseRotation(AlarmState),
    GridLost(AlarmState),
}

impl Alarm {
    pub open spec fn address_spec(self) -> int {
        match self {
            Alarm::HighTemperature(_) => 34,
            Alarm::LowBattery(_) => 35,
            Alarm::Overload(_) => 36,
            Alarm::TemperatureSensor(_) => 42,
            Alarm::VoltageSensor(_) => 43,
            Alarm::LineTemperature(l, _) => 44 + 4 * (l.number_spec() - 1),
            Alarm::LineLowBattery(l, _) => 45 + 4 * (l.number_spec() - 1),
            Alarm::LineOverload(l, _) => 46 + 4 * (l.number_spec() - 1),
            Alarm::LineRipple(l, _) => 47 + 4 * (l.number_spec() - 1),
            Alarm::PhaseRotation(_) => 63,
            Alarm::GridLost(_) => 64,
        }
    }

    /// Address of the alarm's register.
    pub fn address(&self) -> (r: u16)
        ensures
            r == self.address_spec(),
    {
        match self {
            Alarm::HighTemperature(_) => 34,
            Alarm::LowBattery(_) => 35,
            Alarm::Overload(_) => 36,
            Alarm::TemperatureSensor(_) => 42,
            Alarm::VoltageSensor(_) => 43,
            Alarm::LineTemperature(l, _) => 44 + 4 * (l.number() - 1),
            Alarm::LineLowBattery(l, _) => 45 + 4 * (l.number() - 1),
            Alarm::LineOverload(l, _) => 46 + 4 * (l.number() - 1),
            Alarm::LineRipple(l, _) => 47 + 4 * (l.number() - 1),
            Alarm::PhaseRotation(_) => 63,
            Alarm::GridLost(_) => 64,
        }
    }

    pub open spec fn state_spec(self) -> AlarmState {
        match self {
            Alarm::HighTemperature(s) => s,
            Alarm::LowBattery(s) => s,
            Alarm::Overload(s) => s,
            Alarm::TemperatureSensor(s) => s,
            Alarm::VoltageSensor(s) => s,
            Alarm::LineTemperature(_, s) => s,
            Alarm::LineLowBattery(_, s) => s,
            Alarm::LineOverload(_, s) => s,
            Alarm::LineRipple(_, s) => s,
            Alarm::PhaseRotation(s) => s,
            Alarm::GridLost(s) => s,
        }
    }

    /// The same alarm in state `state`.
    pub fn with_state(&self, state: AlarmState) -> (r: Alarm)
        ensures
            r.state_spec() == state,
            r.address_spec() == self.address_spec(),
            r == (match *self {
                Alarm::HighTemperature(_) => Alarm::HighTemperature(state),
                Alarm::LowBattery(_) => Alarm::LowBattery(state),
                Alarm::Overload(_) => Alarm::Overload(state),
                Alarm::TemperatureSensor(_) => Alarm::TemperatureSensor(state),
                Alarm::VoltageSensor(_) => Alarm::VoltageSensor(state),
                Alarm::LineTemperature(l, _) => Alarm::LineTemperature(l, state),
                Alarm::LineLowBattery(l, _) => Alarm::LineLowBattery(l, state),
                Alarm::LineOverload(l, _) => Alarm::LineOverload(l, state),
                Alarm::LineRipple(l, _) => Alarm::LineRipple(l, state),
                Alarm::PhaseRotation(_) => Alarm::PhaseRotation(state),
                Alarm::GridLost(_) => Alarm::GridLost(state),
            }),
    {
        match self {
            Alarm::HighTemperature(_) => Alarm::HighTemperature(state),
            Alarm::LowBattery(_) => Alarm::LowBattery(state),
            Alarm::Overload(_) => Alarm::Overload(state),
            Alarm::TemperatureSensor(_) => Alarm::TemperatureSensor(state),
            Alarm::VoltageSensor(_) => Alarm::VoltageSensor(state),
            Alarm::LineTemperature(l, _) => Alarm::LineTemperature(*l, state),
            Alarm::LineLowBattery(l, _) => Alarm::LineLowBattery(*l, state),
            Alarm::LineOverload(l, _) => Alarm::LineOverload(*l, state),
            Alarm::LineRipple(l, _) => Alarm::LineRipple(*l, state),
            Alarm::PhaseRotation(_) => Alarm::PhaseRotation(state),
            Alarm::GridLost(_) => Alarm::GridLost(state),
        }
    }

    /// Every alarm the inverter reports, each in state `Normal`, in the order
    /// they are polled.
    pub fn all() -> (r: Vec<Alarm>)
        ensures
            r@ == seq![
                Alarm::HighTemperature(AlarmState::Normal),
                Alarm::LowBattery(AlarmState::Normal),
                Alarm::Overload(AlarmState::Normal),
                Alarm::TemperatureSensor(AlarmState::Normal),
                Alarm::VoltageSensor(AlarmState::Normal),
                Alarm::LineTemperature(Line::L1, AlarmState::Normal),
                Alarm::LineLowBattery(Line::L1, AlarmState::Normal),
                Alarm::LineOverload(Line::L1, AlarmState::Normal),
                Alarm::LineRipple(Line::L1, AlarmState::Normal),
                Alarm::LineTemperature(Line::L2, AlarmState::Normal),
                Alarm::LineLowBattery(Line::L2, AlarmState::Normal),
                Alarm::LineOverload(Line::L2, AlarmState::Normal),
                Alarm::LineRipple(Line::L2, AlarmState::Normal),
                Alarm::LineTemperature(Line::L3, AlarmState::Normal),
                Alarm::LineLowBattery(Line::L3, AlarmState::Normal),
                Alarm::LineOverload(Line::L3, AlarmState::Normal),
                Alarm::LineRipple(Line::L3, AlarmState::Normal),
                Alarm::PhaseRotation(AlarmState::Normal),
                Alarm::GridLost(AlarmState::Normal),
            ],
    {
        let ok = AlarmState::Normal;
        vec![
            Alarm::HighTemperature(ok),
            Alarm::LowBattery(ok),
            Alarm::Overload(ok),
            Alarm::TemperatureSensor(ok),
            Alarm::VoltageSensor(ok),
            Alarm::LineTemperature(Line::L1, ok),
            Alarm::LineLowBattery(Line::L1, ok),
            Alarm::LineOverload(Line::L1, ok),
            Alarm::LineRipple(Line::L1, ok),
            Alarm::LineTemperature(Line::L2, ok),
            Alarm::LineLowBattery(Line::L2, ok),
            Alarm::LineOverload(Line::L2, ok),
            Alarm::LineRipple(Line::L2, ok),
            Alarm::LineTemperature(Line::L3, ok),
            Alarm::LineLowBattery(Line::L3, ok),
            Alarm::LineOverload(Line::L3, ok),
            Alarm::LineRipple(Line::L3, ok),
            Alarm::PhaseRotation(ok),
            Alarm::GridLost(ok),
        ]
    }
}

} // verus!
