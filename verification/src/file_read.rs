//! Reply shaping for the file-read request handler. The read itself is
//! file I/O and stays with the host; this module fixes what the handler
//! answers for each outcome of that read: contents pass through unchanged,
//! and a failure is always reported with a non-empty description.

use vstd::prelude::*;
use vstd::string::StringExecFns;

verus! {

/// The description reported when the underlying error carried no text.
pub open spec fn unnamed_error_text() -> Seq<char> {
    "unknown error"@
}

/// Shapes the handler's reply from the outcome of the underlying read.
///
/// `outcome` is `Ok` with the file's contents, or `Err` with the text of
/// the I/O error. Contents pass through unchanged. A failure stays a
/// failure, never a panic, and its description is never empty: an error
/// without text is reported as `unknown error`.
pub fn file_read_response(outcome: Result<String, String>) -> (r: Result<String, String>)
    ensures
        r is Ok <==> outcome is Ok,
        outcome is Ok ==> r->Ok_0@ == outcome->Ok_0@,
        r is Err ==> r->Err_0@.len() > 0,
        outcome is Err ==> r->Err_0@ == if outcome->Err_0@.len() > 0 {
            outcome->Err_0@
        } else {
            unnamed_error_text()
        },
{
    match outcome {
        Ok(content) => Ok(content),
        Err(msg) => {
            if msg.as_str().is_empty() {
                proof {
                    reveal_strlit("unknown error");
                }
                Err(String::from_str("unknown error"))
            } else {
                Err(msg)
            }
        },
    }
}

} // verus!
