//! Configuring the instrument: which lines to send in which order, and what
//! the instrument's answers to the checks in between mean.
//!
//! The caller performs each step of a script in turn and stops at the first
//! failure, its own or one that [`judge`] reports.

use vstd::prelude::*;
use crate::scpi::{
    error_of_response, error_view, fetch_error, Fault, ScpiError, ScpiErrorView, ERROR_QUERY,
};
use crate::text::lines_view;

verus! {

/// Resets the instrument to its defaults.
pub const RESET_COMMAND: &'static str = "*RST";

/// Clears the instrument's status and its error queue.
pub const CLEAR_COMMAND: &'static str = "*CLS";

/// The part of a session that a check of the error queue belongs to.
#[derive(Clone, Copy, Debug, PartialEq, Eq, Structural)]
pub enum Stage {
    /// Clearing the error state before anything is configured.
    Clearing,
    /// Sending the configuration commands.
    Configuring,
    /// Sending the commands that undo the configuration.
    Unconfiguring,
}

/// One step of a script.
#[derive(Clone, Debug, PartialEq, Eq)]
pub enum Command {
    /// Send the line; no answer is expected.
    Send(String),
    /// Send the error query, receive the answer and hand it to [`judge`]
    /// with this stage.
    CheckError { line: String, stage: Stage },
}

/// A step of a script as a mathematical value.
pub ghost enum CommandView {
    Send(Seq<char>),
    CheckError { line: Seq<char>, stage: Stage },
}

impl View for Command {
    type V = CommandView;

    open spec fn view(&self) -> CommandView {
        match self {
            Command::Send(line) => CommandView::Send(line@),
            Command::CheckError { line, stage } => CommandView::CheckError {
                line: line@,
                stage: *stage,
            },
        }
    }
}

/// Why a script was given up although the connection worked.
#[derive(Clone, Debug, PartialEq, Eq)]
pub enum ConfigurationError {
    /// The instrument reported an error of its own.
    Device { stage: Stage, error: ScpiError },
    /// The answer to the error query could not be read.
    Unreadable(Fault),
}

/// Such a failure as a mathematical value.
pub ghost enum ConfigurationErrorView {
    Device { stage: Stage, error: ScpiErrorView },
    Unreadable(Fault),
}

impl View for ConfigurationError {
    type V = ConfigurationErrorView;

    open spec fn view(&self) -> ConfigurationErrorView {
        match self {
            ConfigurationError::Device { stage, error } => ConfigurationErrorView::Device {
                stage: *stage,
                error: error@,
            },
            ConfigurationError::Unreadable(fault) => ConfigurationErrorView::Unreadable(*fault),
        }
    }
}

/// The steps of a script as mathematical values.
pub open spec fn script_view(script: Seq<Command>) -> Seq<CommandView> {
    script.map_values(|command: Command| command@)
}

/// The step that checks the error queue at `stage`.
pub open spec fn error_check(stage: Stage) -> CommandView {
    CommandView::CheckError { line: ERROR_QUERY@, stage }
}

/// The script that sends `commands` in order and then checks the error
/// queue once; no commands, no script.
pub open spec fn batch_script(stage: Stage, commands: Seq<Seq<char>>) -> Seq<CommandView> {
    if commands.len() == 0 {
        Seq::empty()
    } else {
        commands.map_values(|line: Seq<char>| CommandView::Send(line)).push(error_check(stage))
    }
}

/// The script that configures the instrument: reset or clear it, check the
/// error queue, then send the configuration and check the error queue once
/// more. Nothing else is sent, and nothing but the two checks can fail it.
pub open spec fn configure_script(configs: Seq<Seq<char>>, reset: bool) -> Seq<CommandView> {
    seq![
        CommandView::Send(
            if reset {
                RESET_COMMAND@
            } else {
                CLEAR_COMMAND@
            },
        ),
        error_check(Stage::Clearing),
    ] + batch_script(Stage::Configuring, configs)
}

/// The script for a batch of commands with one check of the error queue at
/// its end.
pub fn batch_commands(stage: Stage, commands: Vec<String>) -> (script: Vec<Command>)
    ensures
        script_view(script@) == batch_script(stage, lines_view(commands@)),
{
    let mut script: Vec<Command> = Vec::new();
    if commands.len() > 0 {
        let mut i: usize = 0;
        while i < commands.len()
            invariant
                i <= commands@.len(),
                script@.len() == i,
                forall|j: int|
                    0 <= j < i ==> (#[trigger] script@[j])@ == CommandView::Send(commands@[j]@),
            decreases commands@.len() - i,
        {
            script.push(Command::Send(commands[i].clone()));
            i = i + 1;
        }
        script.push(Command::CheckError { line: ERROR_QUERY.to_owned(), stage });
    }
    assert(script_view(script@) =~= batch_script(stage, lines_view(commands@)));
    script
}

/// The script that configures the instrument.
pub fn configure(configs: Vec<String>, reset: bool) -> (script: Vec<Command>)
    ensures
        script_view(script@) == configure_script(lines_view(configs@), reset),
{
    let mut script: Vec<Command> = Vec::new();
    let first = if reset {
        RESET_COMMAND
    } else {
        CLEAR_COMMAND
    };
    script.push(Command::Send(first.to_owned()));
    script.push(Command::CheckError { line: ERROR_QUERY.to_owned(), stage: Stage::Clearing });
    let mut batch = batch_commands(Stage::Configuring, configs);
    let ghost head = script@;
    let ghost rest = batch@;
    script.append(&mut batch);
    assert(script_view(script@) =~= script_view(head) + script_view(rest));
    assert(script_view(head) =~= seq![
        CommandView::Send(
            if reset {
                RESET_COMMAND@
            } else {
                CLEAR_COMMAND@
            },
        ),
        error_check(Stage::Clearing),
    ]);
    script
}

/// The script that undoes the configuration.
pub fn unconfigure(unconfigs: Vec<String>) -> (script: Vec<Command>)
    ensures
        script_view(script@) == batch_script(Stage::Unconfiguring, lines_view(unconfigs@)),
{
    batch_commands(Stage::Unconfiguring, unconfigs)
}

/// The mathematical value of a verdict.
pub open spec fn verdict_view(outcome: Result<(), ConfigurationError>) -> Result<
    (),
    ConfigurationErrorView,
> {
    match outcome {
        Ok(()) => Ok(()),
        Err(failure) => Err(failure@),
    }
}

/// The verdict on the error queue at `stage`: an empty queue passes, an
/// entry fails with its code and text, a fault fails as unreadable.
pub open spec fn error_verdict(stage: Stage, fetched: Result<Option<ScpiErrorView>, Fault>) -> Result<
    (),
    ConfigurationErrorView,
> {
    match fetched {
        Ok(None) => Ok(()),
        Ok(Some(error)) => Err(ConfigurationErrorView::Device { stage, error }),
        Err(fault) => Err(ConfigurationErrorView::Unreadable(fault)),
    }
}

/// The verdict on the answer to the error query at `stage`.
pub open spec fn verdict(stage: Stage, response: Seq<char>) -> Result<(), ConfigurationErrorView> {
    error_verdict(stage, error_of_response(response))
}

/// Judges what the error query gave at `stage`.
pub fn judge_error(stage: Stage, fetched: Result<Option<ScpiError>, Fault>) -> (outcome: Result<
    (),
    ConfigurationError,
>)
    ensures
        verdict_view(outcome) == error_verdict(stage, error_view(fetched)),
        outcome is Ok <==> fetched matches Ok(None),
{
    match fetched {
        Ok(None) => Ok(()),
        Ok(Some(error)) => Err(ConfigurationError::Device { stage, error }),
        Err(fault) => Err(ConfigurationError::Unreadable(fault)),
    }
}

/// Judges the answer to the error query at `stage`: `Ok` lets the script go
/// on, an error ends it.
pub fn judge(stage: Stage, response: &str) -> (outcome: Result<(), ConfigurationError>)
    ensures
        verdict_view(outcome) == verdict(stage, response@),
{
    judge_error(stage, fetch_error(response))
}

/// A script ends well exactly where each of its checks found the error
/// queue empty: the verdict on an answer is `Ok` if and only if the answer
/// means code 0, at every stage alike.
pub proof fn clean_checks_pass(stage: Stage, response: Seq<char>)
    ensures
        verdict(stage, response) is Ok <==> error_of_response(response) == Ok::<
            Option<ScpiErrorView>,
            Fault,
        >(None),
{
}

} // verus!
