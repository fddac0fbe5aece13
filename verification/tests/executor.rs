use charger_control::ardu::{
    ArduCommand, ArduSketch, CommandState, ExecutionReport, ExecutorError,
};
use charger_control::battery_health::{BatteryReading, BatteryState, TelemetryError};

fn ok_state(state: BatteryState) -> Result<BatteryReading, TelemetryError> {
    Ok(BatteryReading {
        percentage_milli: 50_000,
        state,
    })
}

fn ok_percentage(percentage_milli: u64) -> Result<BatteryReading, TelemetryError> {
    Ok(BatteryReading {
        percentage_milli,
        state: BatteryState::Charging,
    })
}

fn fresh(sketch: ArduSketch) -> ArduCommand {
    ArduCommand {
        command_type: sketch,
        state: CommandState::ToExecute,
    }
}

#[test]
fn connect_polls_until_charging_then_grace() {
    let telemetry = vec![
        ok_state(BatteryState::Discharging),
        ok_state(BatteryState::Discharging),
        ok_state(BatteryState::Charging),
    ];
    let mut command = fresh(ArduSketch::Connect);
    let report = command.execute(true, &telemetry);
    assert_eq!(
        report,
        Ok(ExecutionReport {
            polls: 3,
            grace_secs: 19,
        })
    );
    assert_eq!(command.state, CommandState::Stopped);
}

#[test]
fn disconnect_polls_until_discharging_then_grace() {
    let telemetry = vec![
        ok_state(BatteryState::Charging),
        ok_state(BatteryState::Full),
        ok_state(BatteryState::Discharging),
    ];
    let mut command = fresh(ArduSketch::Disconnect);
    let report = command.execute(true, &telemetry);
    assert_eq!(
        report,
        Ok(ExecutionReport {
            polls: 3,
            grace_secs: 13,
        })
    );
    assert_eq!(command.state, CommandState::Stopped);
}

#[test]
fn do_nothing_idles_inside_band_and_exits_outside() {
    let telemetry = vec![
        ok_percentage(80_000),
        ok_percentage(79_900),
        ok_percentage(80_100),
        ok_percentage(80_101),
    ];
    let mut command = fresh(ArduSketch::DoNothing);
    let report = command.execute(true, &telemetry);
    assert_eq!(
        report,
        Ok(ExecutionReport {
            polls: 4,
            grace_secs: 0,
        })
    );
    assert_eq!(command.state, CommandState::Stopped);

    let telemetry = vec![ok_percentage(79_899)];
    let mut command = fresh(ArduSketch::DoNothing);
    let report = command.execute(true, &telemetry);
    assert_eq!(
        report,
        Ok(ExecutionReport {
            polls: 1,
            grace_secs: 0,
        })
    );
}

#[test]
fn flash_failure_is_fatal_before_any_poll() {
    // The telemetry would satisfy each exit condition at once; a flashing
    // failure must win without it ever being read.
    for sketch in [
        ArduSketch::DoNothing,
        ArduSketch::Connect,
        ArduSketch::Disconnect,
    ] {
        let telemetry = vec![
            ok_state(BatteryState::Charging),
            ok_state(BatteryState::Discharging),
            ok_percentage(0),
        ];
        let mut command = fresh(sketch);
        let report = command.execute(false, &telemetry);
        assert_eq!(report, Err(ExecutorError::FlashFailed));
        assert_eq!(command.state, CommandState::Executing);
    }
}

#[test]
fn telemetry_error_is_propagated_and_fatal() {
    let telemetry = vec![
        ok_state(BatteryState::Discharging),
        Err(TelemetryError::Unavailable),
        ok_state(BatteryState::Charging),
    ];
    let mut command = fresh(ArduSketch::Connect);
    let report = command.execute(true, &telemetry);
    assert_eq!(
        report,
        Err(ExecutorError::Telemetry(TelemetryError::Unavailable))
    );
    assert_eq!(command.state, CommandState::Executing);

    let telemetry = vec![Err(TelemetryError::UnknownState("Dead".to_string()))];
    let mut command = fresh(ArduSketch::Disconnect);
    let report = command.execute(true, &telemetry);
    assert_eq!(
        report,
        Err(ExecutorError::Telemetry(TelemetryError::UnknownState(
            "Dead".to_string()
        )))
    );
}

#[test]
fn exhausted_telemetry_times_out() {
    let telemetry = vec![
        ok_state(BatteryState::Discharging),
        ok_state(BatteryState::Full),
    ];
    let mut command = fresh(ArduSketch::Connect);
    let report = command.execute(true, &telemetry);
    assert_eq!(report, Err(ExecutorError::TimedOut));
    assert_eq!(command.state, CommandState::Executing);
}

#[test]
fn lifecycle_passes_through_executing_and_ends_stopped() {
    let mut command = fresh(ArduSketch::Connect);
    assert_eq!(command.state, CommandState::ToExecute);
    command.begin();
    assert_eq!(command.state, CommandState::Executing);
    command.stop();
    assert_eq!(command.state, CommandState::Stopped);
}

#[test]
fn grace_and_firmware_parameters_per_sketch() {
    let connect = fresh(ArduSketch::Connect);
    let disconnect = fresh(ArduSketch::Disconnect);
    let idle = fresh(ArduSketch::DoNothing);
    assert_eq!(connect.grace_secs(), 19);
    assert_eq!(disconnect.grace_secs(), 13);
    assert_eq!(idle.grace_secs(), 0);
    assert_eq!(
        ArduSketch::Connect.firmware_flash_arg(),
        "flash:w:target/avr-atmega328p/release/connect_charger.elf"
    );
    assert_eq!(
        ArduSketch::Disconnect.firmware_flash_arg(),
        "flash:w:target/avr-atmega328p/release/disconnect_charger.elf"
    );
    assert_eq!(
        ArduSketch::DoNothing.firmware_flash_arg(),
        "flash:w:target/avr-atmega328p/release/do_nothing.elf"
    );
    assert_eq!(ArduSketch::Connect.sketch_dir_name(), "connect_charger");
    assert_eq!(
        ArduSketch::Disconnect.sketch_dir_name(),
        "disconnect_charger"
    );
    assert_eq!(ArduSketch::DoNothing.sketch_dir_name(), "do_nothing");
}
