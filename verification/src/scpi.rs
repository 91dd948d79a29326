//! The instrument's line protocol: framing, identification and the error
//! queue.

use vstd::prelude::*;
use vstd::string::StringSliceAdditionalSpecFns;
use vstd::string::StrSliceExecFns;
use vstd::slice::slice_subrange;
use vstd::utf8::{decode_utf8, valid_utf8};
use crate::pattern::{captures, captures_of, pattern_compiles};
use crate::text::{decimal_i32, fields, parse_i32, split, trim, trimmed, utf8_text};

verus! {

/// The TCP port on which instruments listen for commands.
pub const DEFAULT_PORT: u16 = 5025;

/// Read and write timeout of the connection, in seconds.
pub const DEFAULT_TIMEOUT_SECS: u64 = 5;

/// A response has to arrive within one read of this many bytes.
pub const RECEIVE_BUFFER_SIZE: usize = 2048;

/// Asks the instrument who it is.
pub const IDENTIFICATION_QUERY: &'static str = "*IDN?";

/// Asks the instrument for the oldest entry of its error queue.
pub const ERROR_QUERY: &'static str = "SYST:ERR?";

/// Asks the instrument for one measurement.
pub const READ_QUERY: &'static str = "READ?";

/// The shape of an answer to the error query: an integer, a comma and a
/// quoted text, with optional white space around the integer, after the
/// comma and at the end. The first group is the integer with its sign, the
/// second the text between the quotes.
pub const ERROR_PATTERN: &'static str = r#"^\s*([-+]?\d+)\s*,\s*"(.+)"\s*$"#;

/// Why an answer of the instrument could not be used.
#[derive(Clone, Copy, Debug, PartialEq, Eq, Structural)]
pub enum Fault {
    /// The bytes received are not UTF-8.
    Decode,
    /// The answer to the error query does not have the expected shape.
    Protocol,
    /// The pattern for the error query's answer was not accepted.
    Pattern,
}

/// An entry of the instrument's error queue. The code is never 0, which
/// stands for an empty queue.
#[derive(Debug, Clone, Eq, PartialEq)]
pub struct ScpiError {
    pub code: i32,
    pub text: String,
}

/// What the instrument says about itself.
#[derive(Debug, Clone, Eq, PartialEq)]
pub struct Identification {
    pub manufacturer: String,
    pub model: String,
    pub serial: String,
    pub firmware: String,
}

/// An entry of the error queue as a mathematical value.
pub ghost struct ScpiErrorView {
    pub code: i32,
    pub text: Seq<char>,
}

/// An identification as a mathematical value.
pub ghost struct IdentificationView {
    pub manufacturer: Seq<char>,
    pub model: Seq<char>,
    pub serial: Seq<char>,
    pub firmware: Seq<char>,
}

impl ScpiError {
    /// Code 0 stands for an empty queue and is never an error.
    pub open spec fn wf(&self) -> bool {
        self.code != 0
    }
}

impl View for ScpiError {
    type V = ScpiErrorView;

    open spec fn view(&self) -> ScpiErrorView {
        ScpiErrorView { code: self.code, text: self.text@ }
    }
}

impl View for Identification {
    type V = IdentificationView;

    open spec fn view(&self) -> IdentificationView {
        IdentificationView {
            manufacturer: self.manufacturer@,
            model: self.model@,
            serial: self.serial@,
            firmware: self.firmware@,
        }
    }
}

/// The bytes that send `msg`: its text, then carriage return and line feed.
pub fn command_bytes(msg: &str) -> (bytes: Vec<u8>)
    ensures
        bytes@ == msg.spec_bytes() + seq![13u8, 10u8],
{
    let mut bytes = msg.as_bytes_vec();
    bytes.push(13u8);
    bytes.push(10u8);
    bytes
}

/// `data` without one line ending at its end: carriage return and line
/// feed, or a line feed alone.
pub open spec fn without_line_ending(data: Seq<u8>) -> Seq<u8> {
    if data.len() >= 2 && data[data.len() - 2] == 13 && data[data.len() - 1] == 10 {
        data.take(data.len() - 2)
    } else if data.len() >= 1 && data[data.len() - 1] == 10 {
        data.take(data.len() - 1)
    } else {
        data
    }
}

/// The identification that `response` gives: four comma-separated fields,
/// each trimmed, or else the whole trimmed response as the model and a
/// question mark for the rest.
pub open spec fn identification_of(response: Seq<char>) -> IdentificationView {
    let pieces = fields(response, ',');
    if pieces.len() == 4 {
        IdentificationView {
            manufacturer: trimmed(pieces[0]),
            model: trimmed(pieces[1]),
            serial: trimmed(pieces[2]),
            firmware: trimmed(pieces[3]),
        }
    } else {
        IdentificationView {
            manufacturer: seq!['?'],
            model: trimmed(response),
            serial: seq!['?'],
            firmware: seq!['?'],
        }
    }
}

/// Reads the answer to the identification query.
pub fn identification(response: &str) -> (ident: Identification)
    ensures
        ident@ == identification_of(response@),
{
    let pieces = split(response, ',');
    if pieces.len() == 4 {
        Identification {
            manufacturer: trim(pieces[0]).to_owned(),
            model: trim(pieces[1]).to_owned(),
            serial: trim(pieces[2]).to_owned(),
            firmware: trim(pieces[3]).to_owned(),
        }
    } else {
        proof {
            reveal_strlit("?");
            assert("?"@ == seq!['?']);
        }
        Identification {
            manufacturer: "?".to_owned(),
            model: trim(response).to_owned(),
            serial: "?".to_owned(),
            firmware: "?".to_owned(),
        }
    }
}

/// Reads the bytes of one read as the text of a response: one line ending
/// at the end is dropped, and the rest has to be UTF-8.
pub fn response_text(data: &[u8]) -> (text: Result<String, Fault>)
    ensures
        match text {
            Ok(s) => valid_utf8(without_line_ending(data@)) && s@ == decode_utf8(
                without_line_ending(data@),
            ),
            Err(fault) => !valid_utf8(without_line_ending(data@)) && fault == Fault::Decode,
        },
{
    let n: usize = data.len();
    let body = if n >= 2 && data[n - 2] == 13u8 && data[n - 1] == 10u8 {
        slice_subrange(data, 0, n - 2)
    } else if n >= 1 && data[n - 1] == 10u8 {
        slice_subrange(data, 0, n - 1)
    } else {
        data
    };
    assert(body@ == without_line_ending(data@));
    match utf8_text(body) {
        Some(s) => Ok(s),
        None => Err(Fault::Decode),
    }
}

/// What a code and a text from the error queue mean: code 0 is an empty
/// queue, any other code an error with that text. White space around the
/// code is ignored; a code that is no 32-bit decimal integer is a fault.
pub open spec fn error_of_fields(code: Seq<char>, text: Seq<char>) -> Result<
    Option<ScpiErrorView>,
    Fault,
> {
    match decimal_i32(trimmed(code)) {
        Some(value) => if value == 0 {
            Ok(None)
        } else {
            Ok(Some(ScpiErrorView { code: value, text }))
        },
        None => Err(Fault::Protocol),
    }
}

/// What the capture groups of the error pattern mean: the first group is
/// the code and the second the text; anything else is a fault.
pub open spec fn error_of_captures(found: Option<Seq<Option<Seq<char>>>>) -> Result<
    Option<ScpiErrorView>,
    Fault,
> {
    match found {
        Some(groups) => if groups.len() == 3 && groups[1] is Some && groups[2] is Some {
            error_of_fields(groups[1]->0, groups[2]->0)
        } else {
            Err(Fault::Protocol)
        },
        None => Err(Fault::Protocol),
    }
}

/// What an answer to the error query means.
pub open spec fn error_of_response(response: Seq<char>) -> Result<Option<ScpiErrorView>, Fault> {
    if pattern_compiles(ERROR_PATTERN@) {
        error_of_captures(captures_of(ERROR_PATTERN@, response))
    } else {
        Err(Fault::Pattern)
    }
}

/// The mathematical value of an outcome of the error query.
pub open spec fn error_view(outcome: Result<Option<ScpiError>, Fault>) -> Result<
    Option<ScpiErrorView>,
    Fault,
> {
    match outcome {
        Ok(Some(error)) => Ok(Some(error@)),
        Ok(None) => Ok(None),
        Err(fault) => Err(fault),
    }
}

/// Turns the code and the text of an error queue entry into an error, or
/// into `None` for code 0.
pub fn error_from_fields(code: &str, text: String) -> (outcome: Result<Option<ScpiError>, Fault>)
    ensures
        error_view(outcome) == error_of_fields(code@, text@),
        outcome is Ok <==> decimal_i32(trimmed(code@)) is Some,
        outcome matches Ok(None) <==> decimal_i32(trimmed(code@)) == Some(0i32),
        outcome matches Ok(Some(error)) ==> error.wf() && error.text@ == text@ && Some(error.code)
            == decimal_i32(trimmed(code@)),
{
    match parse_i32(trim(code)) {
        Some(value) => {
            if value != 0 {
                Ok(Some(ScpiError { code: value, text }))
            } else {
                Ok(None)
            }
        },
        None => Err(Fault::Protocol),
    }
}

/// Turns what the error pattern captured into an error, `None` for code 0,
/// or a fault where the pattern did not match.
pub fn error_from_captures(found: Option<Vec<Option<String>>>) -> (outcome: Result<
    Option<ScpiError>,
    Fault,
>)
    ensures
        error_view(outcome) == error_of_captures(found.deep_view()),
        outcome matches Ok(Some(error)) ==> error.wf(),
{
    match found {
        Some(groups) => {
            let mut groups = groups;
            let ghost all = groups.deep_view();
            assert(all.len() == groups@.len());
            if groups.len() != 3 {
                return Err(Fault::Protocol);
            }
            assert(all[1] == groups@[1].deep_view());
            assert(all[2] == groups@[2].deep_view());
            let text = groups.pop().unwrap();
            let code = groups.pop().unwrap();
            match (code, text) {
                (Some(code), Some(text)) => error_from_fields(code.as_str(), text),
                _ => Err(Fault::Protocol),
            }
        },
        None => Err(Fault::Protocol),
    }
}

/// Reads the answer to the error query: `None` exactly where the answer has
/// the expected shape and its code is 0.
pub fn fetch_error(response: &str) -> (outcome: Result<Option<ScpiError>, Fault>)
    ensures
        error_view(outcome) == error_of_response(response@),
        outcome matches Ok(Some(error)) ==> error.wf(),
{
    match captures(ERROR_PATTERN, response) {
        Ok(found) => error_from_captures(found),
        Err(_) => Err(Fault::Pattern),
    }
}

/// Whether `groups` hold a code and a text, and the code is the decimal
/// integer `code` once the white space around it is dropped.
pub open spec fn captured_code(found: Option<Seq<Option<Seq<char>>>>, code: i32) -> bool {
    match found {
        Some(groups) => groups.len() == 3 && groups[1] is Some && groups[2] is Some && decimal_i32(
            trimmed(groups[1]->0),
        ) == Some(code),
        None => false,
    }
}

/// An answer to the error query means an empty queue exactly where it has
/// the expected shape and its code is 0; any other code comes back as it
/// was written, with the text between the quotes.
pub proof fn empty_queue_is_code_zero(response: Seq<char>)
    ensures
        error_of_response(response) == Ok::<Option<ScpiErrorView>, Fault>(None) <==> (
        pattern_compiles(ERROR_PATTERN@) && captured_code(
            captures_of(ERROR_PATTERN@, response),
            0i32,
        )),
        match error_of_response(response) {
            Ok(Some(error)) => error.code != 0 && captured_code(
                captures_of(ERROR_PATTERN@, response),
                error.code,
            ) && captures_of(ERROR_PATTERN@, response)->0[2] == Some(error.text),
            _ => true,
        },
{
}

} // verus!
