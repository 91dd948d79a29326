use dmm_logger::instrument::{
    batch_commands, configure, judge, judge_error, unconfigure, Command, ConfigurationError, Stage,
};
use dmm_logger::scpi::{Fault, ScpiError};

fn send(line: &str) -> Command {
    Command::Send(line.to_string())
}

fn check(stage: Stage) -> Command {
    Command::CheckError { line: "SYST:ERR?".to_string(), stage }
}

#[test]
fn configure_clears_checks_sends_and_checks() {
    let script = configure(vec!["CONF:VOLT:DC 10".to_string(), "VOLT:DC:NPLC 1".to_string()], false);
    assert_eq!(
        script,
        vec![
            send("*CLS"),
            check(Stage::Clearing),
            send("CONF:VOLT:DC 10"),
            send("VOLT:DC:NPLC 1"),
            check(Stage::Configuring),
        ]
    );
}

#[test]
fn configure_with_reset_and_no_commands() {
    assert_eq!(configure(vec![], true), vec![send("*RST"), check(Stage::Clearing)]);
    assert_eq!(configure(vec![], false), vec![send("*CLS"), check(Stage::Clearing)]);
}

#[test]
fn configure_succeeds_after_two_clean_checks() {
    let script = configure(vec!["CONF:RES 100".to_string()], true);
    let mut checks = 0;
    for command in &script {
        if let Command::CheckError { stage, .. } = command {
            assert_eq!(judge(*stage, "+0,\"No error\""), Ok(()));
            checks += 1;
        }
    }
    assert_eq!(checks, 2);
    assert_eq!(script.last(), Some(&check(Stage::Configuring)));
}

#[test]
fn batch_without_commands_is_empty() {
    assert_eq!(batch_commands(Stage::Configuring, vec![]), vec![]);
    assert_eq!(unconfigure(vec![]), vec![]);
}

#[test]
fn unconfigure_sends_in_order_and_checks_once() {
    assert_eq!(
        unconfigure(vec!["DISP:TEXT:CLE".to_string(), "DISP ON".to_string()]),
        vec![send("DISP:TEXT:CLE"), send("DISP ON"), check(Stage::Unconfiguring)]
    );
}

#[test]
fn judge_passes_an_empty_error_queue() {
    assert_eq!(judge(Stage::Clearing, "+0,\"No error\""), Ok(()));
    assert_eq!(judge(Stage::Configuring, " 0 , \"No error\""), Ok(()));
}

#[test]
fn judge_fails_on_a_device_error_with_its_code_and_text() {
    assert_eq!(
        judge(Stage::Configuring, "-113,\"Undefined header\""),
        Err(ConfigurationError::Device {
            stage: Stage::Configuring,
            error: ScpiError { code: -113, text: "Undefined header".to_string() },
        })
    );
    assert_eq!(
        judge(Stage::Clearing, " 42 ,\"Oops\""),
        Err(ConfigurationError::Device {
            stage: Stage::Clearing,
            error: ScpiError { code: 42, text: "Oops".to_string() },
        })
    );
}

#[test]
fn judge_fails_on_an_unreadable_error_answer() {
    assert_eq!(
        judge(Stage::Clearing, "garbage"),
        Err(ConfigurationError::Unreadable(Fault::Protocol))
    );
    assert_eq!(
        judge_error(Stage::Clearing, Err(Fault::Pattern)),
        Err(ConfigurationError::Unreadable(Fault::Pattern))
    );
    assert_eq!(judge_error(Stage::Clearing, Ok(None)), Ok(()));
}
