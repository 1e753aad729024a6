use ess_dispatch::victron::client::{bool_from_register, i16_from_register, register_from_i16};
use ess_dispatch::victron::ess::{Hub4Mode, Register as EssRegister};
use ess_dispatch::victron::system::{ActiveInput, VEBus, VEBusAlarm, VEBusAlarmState, VEBusMode};
use ess_dispatch::victron::ve_battery::capacity_wh;
use ess_dispatch::victron::ve_bus::{Alarm, AlarmState, Mode, Register as BusRegister, State};
use ess_dispatch::victron::{Line, LineDetail};

#[test]
fn ess_registers() {
    assert_eq!(EssRegister::PowerSetPoint(Line::L1, 0).address(), 37);
    assert_eq!(EssRegister::PowerSetPoint(Line::L3, 0).address(), 41);
    assert_eq!(EssRegister::DisableFeedIn(true).address(), 39);
    assert_eq!(EssRegister::Mode(Hub4Mode::External).address(), 2902);
    assert_eq!(EssRegister::PowerSetPoint(Line::L1, -50).encode(), 65486);
    assert_eq!(EssRegister::DisableCharge(true).encode(), 100);
    assert_eq!(EssRegister::DisableCharge(false).encode(), 0);
    assert_eq!(EssRegister::Mode(Hub4Mode::WithoutPhaseCompensation).encode(), 2);
    assert_eq!(
        EssRegister::PowerSetPoint(Line::L2, 0).decode(65486).unwrap(),
        EssRegister::PowerSetPoint(Line::L2, -50)
    );
    assert_eq!(EssRegister::DisableFeedIn(false).decode(1).unwrap(), EssRegister::DisableFeedIn(true));
    assert_eq!(EssRegister::DisableFeedIn(false).decode(100).unwrap(), EssRegister::DisableFeedIn(false));
    assert_eq!(EssRegister::Mode(Hub4Mode::External).decode(1).unwrap(), EssRegister::Mode(Hub4Mode::WithPhaseCompensation));
    assert_eq!(EssRegister::Mode(Hub4Mode::External).decode(9).unwrap_err().0, "Invalid Hub4 mode 9!");
}

#[test]
fn hub4_modes() {
    assert_eq!(Hub4Mode::try_from(3).unwrap(), Hub4Mode::External);
    assert_eq!(Hub4Mode::try_from(0).unwrap_err().0, "Invalid Hub4 mode 0!");
    assert_eq!(Hub4Mode::try_from(1234).unwrap_err().0, "Invalid Hub4 mode 1234!");
    assert_eq!(Hub4Mode::WithPhaseCompensation.to_string(), "ESS with phase compensation");
    assert_eq!(Hub4Mode::External.code(), 3);
}

#[test]
fn system_registers_and_codes() {
    assert_eq!(VEBus::InputVoltage(Line::L1).address(), 3);
    assert_eq!(VEBus::OutputPower(Line::L3).address(), 25);
    assert_eq!(VEBus::Mode.address(), 33);
    assert_eq!(VEBus::Alarm(VEBusAlarm::LineRipple(Line::L3, VEBusAlarmState::Normal)).address(), 55);
    assert_eq!(VEBusMode::try_from(2).unwrap(), VEBusMode::InverterOnly);
    assert_eq!(VEBusMode::try_from(5).unwrap_err().0, "Invalid mode 5!");
    assert_eq!(VEBusMode::Off.to_string(), "Off");
    assert_eq!(VEBusMode::On.code(), 3);
    assert_eq!(ActiveInput::try_from(240).unwrap(), ActiveInput::Disconnected);
    assert_eq!(ActiveInput::try_from(7).unwrap_err().0, "Unknown active input 7!");
    assert_eq!(ActiveInput::Line2.try_into().unwrap(), Line::L2);
    assert_eq!(ActiveInput::Disconnected.try_into().unwrap_err().0, "No active input!");
    assert_eq!(ActiveInput::Line1.to_string(), "Line 1");
    assert_eq!(VEBusAlarmState::try_from(1).unwrap(), VEBusAlarmState::Warning);
    assert_eq!(VEBusAlarmState::try_from(3).unwrap_err().0, "Invalid alarm state 3!");
}

#[test]
fn alarms_listed_and_updated() {
    let all = VEBusAlarm::all();
    assert_eq!(all.len(), 19);
    assert_eq!(all[0].address(), 34);
    assert_eq!(all[18].address(), 64);
    let raised = all[5].with_state(VEBusAlarmState::Alarm);
    assert_eq!(raised, VEBusAlarm::LineTemperature(Line::L1, VEBusAlarmState::Alarm));
    assert_eq!(raised.address(), 44);
    let bus = Alarm::all();
    assert_eq!(bus[13], Alarm::LineTemperature(Line::L3, AlarmState::Normal));
    assert_eq!(bus[13].address(), 52);
}

#[test]
fn bus_registers_and_codes() {
    assert_eq!(BusRegister::State.address().unwrap(), 31);
    assert_eq!(BusRegister::ACInputIgnore(Line::L2, true).address().unwrap(), 70);
    assert_eq!(BusRegister::ACInputIgnore(Line::L3, true).address().unwrap_err().0, "No AC Input Ignore for Line 3!");
    assert_eq!(State::try_from(252).unwrap(), State::BulkProtection);
    assert_eq!(State::try_from(12).unwrap_err().0, "Invalid mode 12!");
    assert_eq!(State::PowerAssist.to_string(), "Power Assist");
    assert_eq!(Mode::try_from(1).unwrap(), Mode::ChargerOnly);
    assert_eq!(Mode::try_from(0).unwrap_err().0, "Invalid mode 0!");
    assert_eq!(AlarmState::try_from(2).unwrap(), AlarmState::Alarm);
}

#[test]
fn register_values() {
    assert_eq!(bool_from_register(0).unwrap(), false);
    assert_eq!(bool_from_register(1).unwrap(), true);
    assert_eq!(bool_from_register(2).unwrap_err().0, "Unknown bool state!");
    assert_eq!(i16_from_register(65535), -1);
    assert_eq!(i16_from_register(32767), 32767);
    assert_eq!(register_from_i16(-32768), 32768);
    assert_eq!(capacity_wh(72), 7200);
    assert_eq!(
        LineDetail::from_registers(2301, 52, 5000, 120),
        LineDetail { voltage: 2301, current: 52, frequency: 5000, power: 1200 }
    );
}
