//! The outcome of asking the browser-automation tool to make sure a browser
//! is installed.

use crate::text::{decode_lossy, lossy_text};
use vstd::prelude::*;
use vstd::string::*;

verus! {

/// The text a run leaves: its standard output and error, each when not
/// empty, on separate lines.
pub open spec fn combined(stdout: Seq<char>, stderr: Seq<char>) -> Seq<char> {
    if stderr.len() == 0 {
        stdout
    } else if stdout.len() == 0 {
        stderr
    } else {
        stdout + "\n"@ + stderr
    }
}

/// Puts the two outputs of a run together.
pub fn combine_output(stdout: &str, stderr: &str) -> (r: String)
    ensures
        r@ == combined(stdout@, stderr@),
{
    if stderr.unicode_len() == 0 {
        stdout.to_owned()
    } else if stdout.unicode_len() == 0 {
        stderr.to_owned()
    } else {
        stdout.to_owned().concat("\n").concat(stderr)
    }
}

/// Whether the browser check succeeded, and what it printed.
#[derive(Debug, Clone)]
pub struct BrowserCheckResult {
    pub success: bool,
    pub output: String,
}

impl BrowserCheckResult {
    /// The result of a run that exited as `success` says and printed the
    /// bytes `stdout` and `stderr`.
    pub fn from_run(success: bool, stdout: &[u8], stderr: &[u8]) -> (r: BrowserCheckResult)
        ensures
            r.success == success,
            r.output@ == combined(lossy_text(stdout@), lossy_text(stderr@)),
    {
        let out = decode_lossy(stdout);
        let err = decode_lossy(stderr);
        BrowserCheckResult { success, output: combine_output(out.as_str(), err.as_str()) }
    }

    /// The result when the tool could not be run, for `reason`.
    pub fn not_run(reason: &str) -> (r: BrowserCheckResult)
        ensures
            !r.success,
            r.output@ == "Failed to run latchkey: "@ + reason@,
    {
        BrowserCheckResult {
            success: false,
            output: String::from_str("Failed to run latchkey: ").concat(reason),
        }
    }
}

} // verus!
