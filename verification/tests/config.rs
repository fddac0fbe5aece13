use charger_control::battery_health::{BatteryReading, BatteryState};
use charger_control::utils::{
    notifier_step, Config, MyError, NotifierFlags, NotifyLevel,
};

#[test]
fn parse_reads_the_three_fields_in_order() {
    let text = "battery_notifier = true\nhealth_stats = false\nwrite_every = 5\n";
    let config = Config::parse(text).expect("well-formed configuration");
    assert!(config.battery_notifier());
    assert!(!config.health_stats());
    assert_eq!(config.write_every(), 5);
}

#[test]
fn parse_tolerates_blanks_and_missing_trailing_newline() {
    let text = "battery_notifier=false\n  health_stats\t =  true \nwrite_every=120";
    let config = Config::parse(text).expect("well-formed configuration");
    assert!(!config.battery_notifier());
    assert!(config.health_stats());
    assert_eq!(config.write_every(), 120);
}

#[test]
fn parse_accepts_carriage_returns() {
    let text = "battery_notifier = true\r\nhealth_stats = true\r\nwrite_every = 1\r\n";
    let config = Config::parse(text).expect("well-formed configuration");
    assert!(config.battery_notifier());
    assert!(config.health_stats());
    assert_eq!(config.write_every(), 1);
}

#[test]
fn parse_rejects_malformed_texts() {
    // Too few lines.
    assert!(Config::parse("battery_notifier = true\nhealth_stats = false").is_none());
    assert!(Config::parse("").is_none());
    // Fields out of order.
    assert!(
        Config::parse("health_stats = true\nbattery_notifier = false\nwrite_every = 1\n")
            .is_none()
    );
    // Unknown field name.
    assert!(Config::parse("notifier = true\nhealth_stats = false\nwrite_every = 1\n").is_none());
    // Missing assignment.
    assert!(Config::parse("battery_notifier\nhealth_stats = false\nwrite_every = 1\n").is_none());
    // Value not a boolean.
    assert!(
        Config::parse("battery_notifier = yes\nhealth_stats = false\nwrite_every = 1\n").is_none()
    );
    // Value not a numeral.
    assert!(
        Config::parse("battery_notifier = true\nhealth_stats = false\nwrite_every = often\n")
            .is_none()
    );
}

#[test]
fn parse_bounds_the_interval() {
    let max = "battery_notifier = true\nhealth_stats = true\nwrite_every = 18446744073709551615\n";
    let config = Config::parse(max).expect("largest interval fits");
    assert_eq!(config.write_every(), u64::MAX);
    let over =
        "battery_notifier = true\nhealth_stats = true\nwrite_every = 18446744073709551616\n";
    assert!(Config::parse(over).is_none());
}

#[test]
fn validate_field_knows_the_three_fields() {
    assert!(Config::validate_field("battery_notifier"));
    assert!(Config::validate_field("health_stats"));
    assert!(Config::validate_field("write_every"));
    assert!(!Config::validate_field("battery_notifier "));
    assert!(!Config::validate_field("notify"));
    assert!(!Config::validate_field(""));
}

#[test]
fn config_new_keeps_the_values() {
    let config = Config::new(true, false, 42);
    assert!(config.battery_notifier());
    assert!(!config.health_stats());
    assert_eq!(config.write_every(), 42);
}

fn reading(percentage_milli: u64, state: BatteryState) -> BatteryReading {
    BatteryReading {
        percentage_milli,
        state,
    }
}

#[test]
fn notifier_announces_upper_crossing_once() {
    let mut flags = NotifierFlags {
        notified_upper: false,
        notified_lower: false,
    };
    let high = reading(80_000, BatteryState::Charging);
    assert_eq!(
        notifier_step(&high, &mut flags),
        Some(NotifyLevel::UpperLimitReached)
    );
    assert_eq!(
        flags,
        NotifierFlags {
            notified_upper: true,
            notified_lower: false,
        }
    );
    // The same crossing is not announced twice.
    assert_eq!(notifier_step(&high, &mut flags), None);
}

#[test]
fn notifier_announces_lower_crossing_and_rearms_upper() {
    let mut flags = NotifierFlags {
        notified_upper: true,
        notified_lower: false,
    };
    let low = reading(20_000, BatteryState::Discharging);
    assert_eq!(
        notifier_step(&low, &mut flags),
        Some(NotifyLevel::LowerLimitReached)
    );
    assert_eq!(
        flags,
        NotifierFlags {
            notified_upper: false,
            notified_lower: true,
        }
    );
}

#[test]
fn notifier_needs_the_matching_state() {
    let mut flags = NotifierFlags {
        notified_upper: false,
        notified_lower: false,
    };
    // High but not charging: nothing to announce.
    assert_eq!(
        notifier_step(&reading(95_000, BatteryState::Discharging), &mut flags),
        None
    );
    // Low but not discharging: nothing to announce.
    assert_eq!(
        notifier_step(&reading(10_000, BatteryState::Full), &mut flags),
        None
    );
    // In between: nothing to announce.
    assert_eq!(
        notifier_step(&reading(50_000, BatteryState::Charging), &mut flags),
        None
    );
    assert_eq!(
        flags,
        NotifierFlags {
            notified_upper: false,
            notified_lower: false,
        }
    );
}

#[test]
fn my_error_messages() {
    let notifier = MyError::NotifierError("no display server".to_string());
    assert_eq!(notifier.message(), "Notifier error: no display server");
    let stats = MyError::HealthStatsError("disk full".to_string());
    assert_eq!(stats.message(), "Health stats error: disk full");
}
