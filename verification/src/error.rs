//! The one failure shape a compression call can surface: a diagnostic
//! message, taken from the codec at the moment of failure, or a fixed
//! placeholder where no message could be read.

use vstd::prelude::*;

verus! {

/// Report of a failed compression call.
///
/// Carries the diagnostic text the codec gave for its last error on this
/// context; the codec exposes no structured kind beyond the message.
#[derive(Debug)]
pub struct Error {
    pub message: String,
}

/// The message an [`Error`] carries when the codec's diagnostic text
/// could not be read.
pub open spec fn fallback_message() -> Seq<char> {
    "unknown error"@
}

impl Error {
    /// Builds the error for a failed call: the codec's diagnostic text
    /// where one could be read, otherwise the fixed placeholder.
    pub fn from_diagnostic(diagnostic: Option<String>) -> (r: Error)
        ensures
            (diagnostic matches Some(d) ==> r.message@ == d@),
            diagnostic is None ==> r.message@ == fallback_message(),
    {
        match diagnostic {
            Some(d) => Error { message: d },
            None => Error { message: String::from_str("unknown error") },
        }
    }
}

} // verus!
