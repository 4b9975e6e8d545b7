//! Translation of a native status code into the library's result shape.
//!
//! The codec reports success as status zero and failure as any other
//! status; on failure the shell reads the codec's diagnostic text and
//! hands it in here, already decoded (or `None` where decoding failed).

use vstd::prelude::*;
use crate::error::Error;
use crate::error::fallback_message;

verus! {

/// Turns the status a native compression call returned into the result
/// the caller sees: `Ok` exactly for status zero, otherwise an [`Error`]
/// carrying the codec's diagnostic text, or the fixed placeholder where
/// none could be decoded.
pub fn check(status: i32, diagnostic: Option<String>) -> (r: Result<(), Error>)
    ensures
        r is Ok <==> status == 0,
        status != 0 ==> (r matches Err(e) && {
            &&& (diagnostic matches Some(d) ==> e.message@ == d@)
            &&& diagnostic is None ==> e.message@ == fallback_message()
        }),
{
    if status == 0 {
        Ok(())
    } else {
        Err(Error::from_diagnostic(diagnostic))
    }
}

} // verus!
