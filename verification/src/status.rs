//! The progress display: which template the bar is drawn with.

use vstd::prelude::*;
use vstd::string::StringExecFns;

verus! {

/// The template of the progress display. A run without a limit shows the
/// spinner, the elapsed time, the position and the message; a run with a
/// limit shows a bar, the length and the remaining time as well.
pub open spec fn template(num_samples: u32, spinner: Seq<char>, msg: Seq<char>, eta: Seq<char>) -> Seq<
    char,
> {
    if num_samples == u32::MAX {
        spinner + " [{elapsed_precise}] #{pos}: "@ + msg
    } else {
        spinner + " [{elapsed_precise}] {bar:40.cyan/blue} #{pos}/{len}: "@ + msg + " "@ + eta
    }
}

/// Puts the template of the progress display together from the styled
/// placeholders for the spinner, the message and the remaining time.
pub fn progress_template(num_samples: u32, spinner: &str, msg: &str, eta: &str) -> (text: String)
    ensures
        text@ == template(num_samples, spinner@, msg@, eta@),
{
    if num_samples == u32::MAX {
        String::from_str(spinner).concat(" [{elapsed_precise}] #{pos}: ").concat(msg)
    } else {
        String::from_str(spinner).concat(
            " [{elapsed_precise}] {bar:40.cyan/blue} #{pos}/{len}: ",
        ).concat(msg).concat(" ").concat(eta)
    }
}

} // verus!
