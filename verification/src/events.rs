//! The drop-listener decision: whether a file-drop notification from the
//! host is forwarded to the main window, and as what.

use vstd::prelude::*;

verus! {

/// The name of the outbound event carried to the main window.
pub open spec fn file_open_event() -> Seq<char> {
    "file-open"@
}

/// An event to emit on the main window: its name and its payload.
pub struct Emission {
    pub event: String,
    pub payload: String,
}

/// Decides what the drop listener does with one inbound drop notification.
///
/// `payload` is the notification's payload, if it carried one;
/// `window_present` says whether the main window still exists. Exactly when
/// both hold, one event named `file-open` is emitted, carrying the payload
/// unchanged; otherwise nothing is emitted.
pub fn drop_response(payload: Option<String>, window_present: bool) -> (r: Option<Emission>)
    ensures
        r is Some <==> (payload is Some && window_present),
        r is Some ==> r->0.event@ == file_open_event() && r->0.payload@ == payload->0@,
{
    match payload {
        Some(p) => {
            if window_present {
                Some(Emission { event: "file-open".to_owned(), payload: p })
            } else {
                None
            }
        },
        None => None,
    }
}

} // verus!
