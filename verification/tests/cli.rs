use dmm_logger::cli::{Cli, InvalidSetting, PKG_VERSION};

fn settings() -> Cli {
    Cli {
        sample_period: 1_000_000_000,
        num_samples: None,
        display_off: false,
        display_text: None,
        drop_slow_samples: false,
        voltage: None,
        current: None,
        dc: false,
        ac: false,
        resistance: None,
        two: false,
        four: false,
        resolution: None,
        nplc: None,
        message: None,
        message_from: None,
        beep: false,
        reset: false,
        port: 5025,
        debug: false,
        host: "dmm.local".to_string(),
        output: None,
    }
}

fn pair(label: &str, value: &str) -> (String, String) {
    (label.to_string(), value.to_string())
}

#[test]
fn validate_accepts_the_defaults() {
    let cli = settings();
    assert_eq!(cli.validate(), Ok(&cli));
}

#[test]
fn validate_rejects_a_zero_interval() {
    let cli = Cli { sample_period: 0, ..settings() };
    assert_eq!(cli.validate(), Err(InvalidSetting::ZeroInterval));
    let both = Cli { sample_period: 0, num_samples: Some(0), ..settings() };
    assert_eq!(both.validate(), Err(InvalidSetting::ZeroInterval));
}

#[test]
fn validate_rejects_zero_samples() {
    let cli = Cli { num_samples: Some(0), ..settings() };
    assert_eq!(cli.validate(), Err(InvalidSetting::ZeroSamples));
    let one = Cli { num_samples: Some(1), ..settings() };
    assert_eq!(one.validate(), Ok(&one));
}

#[test]
fn num_samples_is_unlimited_by_default() {
    assert_eq!(settings().num_samples(), u32::MAX);
    assert_eq!(Cli { num_samples: Some(12), ..settings() }.num_samples(), 12);
}

#[test]
fn getters_hand_out_the_settings() {
    let cli = Cli {
        message: Some("note".to_string()),
        message_from: Some("note.txt".to_string()),
        output: Some("out.csv".to_string()),
        drop_slow_samples: true,
        reset: true,
        debug: true,
        port: 1234,
        ..settings()
    };
    assert_eq!(cli.message(), Some("note"));
    assert_eq!(cli.message_from(), Some("note.txt"));
    assert_eq!(cli.output(), Some("out.csv"));
    assert_eq!(cli.host(), "dmm.local");
    assert_eq!(cli.port(), 1234);
    assert_eq!(cli.sample_period(), 1_000_000_000);
    assert!(cli.drop_slow_samples() && cli.reset() && cli.debug());
    assert_eq!(settings().message(), None);
    assert_eq!(settings().output(), None);
}

#[test]
fn no_measurement_function_gives_no_commands() {
    assert!(settings().configuration_commands().is_empty());
    let detail_only = Cli { resolution: Some("0.001".to_string()), ..settings() };
    assert!(detail_only.configuration_commands().is_empty());
    assert!(settings().unconfiguration_commands().is_empty());
}

#[test]
fn voltage_with_resolution_and_integration_time() {
    let cli = Cli {
        voltage: Some("10".to_string()),
        resolution: Some("0.001".to_string()),
        nplc: Some("10".to_string()),
        ..settings()
    };
    assert_eq!(
        cli.configuration_commands(),
        vec!["CONF:VOLT:DC 10", "VOLT:DC:RES 0.001", "VOLT:DC:NPLC 10"]
    );
}

#[test]
fn alternating_current() {
    let cli = Cli {
        current: Some("AUTO".to_string()),
        ac: true,
        nplc: Some("1".to_string()),
        ..settings()
    };
    assert_eq!(cli.configuration_commands(), vec!["CONF:CURR:AC AUTO", "CURR:AC:NPLC 1"]);
}

#[test]
fn resistance_two_and_four_wire() {
    let two = Cli {
        resistance: Some("1E3".to_string()),
        resolution: Some("1".to_string()),
        ..settings()
    };
    assert_eq!(two.configuration_commands(), vec!["CONF:RES 1E3", "RES:RES 1"]);
    let four = Cli { four: true, nplc: Some("100".to_string()), ..two };
    assert_eq!(
        four.configuration_commands(),
        vec!["CONF:FRES 1E3", "FRES:RES 1", "FRES:NPLC 100"]
    );
}

#[test]
fn voltage_goes_before_current_and_resistance() {
    let cli = Cli {
        voltage: Some("1".to_string()),
        current: Some("2".to_string()),
        resistance: Some("3".to_string()),
        ..settings()
    };
    assert_eq!(cli.configuration_commands(), vec!["CONF:VOLT:DC 1"]);
}

#[test]
fn display_off_and_back_on() {
    let cli = Cli { display_off: true, beep: true, ..settings() };
    assert_eq!(cli.configuration_commands(), vec!["DISP OFF"]);
    assert_eq!(cli.unconfiguration_commands(), vec!["DISP ON", "SYST:BEEP"]);
}

#[test]
fn display_text_given_and_default() {
    let given = Cli { display_text: Some(Some("Logging".to_string())), ..settings() };
    assert_eq!(given.configuration_commands(), vec!["DISP OFF", "DISP:TEXT \"Logging\""]);
    assert_eq!(given.unconfiguration_commands(), vec!["DISP:TEXT:CLE", "DISP ON"]);
    let default = Cli { display_text: Some(None), ..settings() };
    assert_eq!(
        default.configuration_commands(),
        vec!["DISP OFF".to_string(), format!("DISP:TEXT \"DMM Logger ({PKG_VERSION})\"")]
    );
}

#[test]
fn beep_alone() {
    assert_eq!(Cli { beep: true, ..settings() }.unconfiguration_commands(), vec!["SYST:BEEP"]);
}

#[test]
fn describe_the_defaults() {
    assert_eq!(
        settings().describe("1", "1"),
        vec![pair("Sampling interval", "1 seconds"), pair("Sample rate", "1 Hz")]
    );
}

#[test]
fn describe_everything() {
    let cli = Cli {
        drop_slow_samples: true,
        display_off: true,
        display_text: Some(None),
        voltage: Some("10".to_string()),
        current: Some("1".to_string()),
        ac: true,
        resistance: Some("100".to_string()),
        four: true,
        resolution: Some("0.01".to_string()),
        nplc: Some("10".to_string()),
        reset: true,
        ..settings()
    };
    assert_eq!(
        cli.describe("0.5", "2"),
        vec![
            pair("Sampling interval", "0.5 seconds"),
            pair("Sample rate", "2 Hz"),
            pair("Drop slow samples", "ON"),
            pair("Display", "OFF"),
            pair("AC-Voltage", "10 Volts"),
            pair("Resistance (4-wire)", "100 Ohms"),
            pair("Resolution", "0.01"),
            pair("NPLC", "10"),
            pair("Reset instrument", "ON"),
        ]
    );
}

#[test]
fn describe_current_and_display_text() {
    let cli = Cli {
        display_text: Some(Some("hi".to_string())),
        current: Some("3".to_string()),
        resistance: Some("5".to_string()),
        ..settings()
    };
    assert_eq!(
        cli.describe("1", "1"),
        vec![
            pair("Sampling interval", "1 seconds"),
            pair("Sample rate", "1 Hz"),
            pair("Display", "Text"),
            pair("DC-Current", "3 Amperes"),
            pair("Resistance (2-wire)", "5 Ohms"),
        ]
    );
}
