//! The sending side of a stream.

use vstd::prelude::*;
use vstd::string::StringExecFns;

use crate::text;

verus! {

/// An error of a stream, as the browser reports it.
#[derive(Debug)]
pub enum Error {
    /// The stream failed, perhaps with the code that the peer gave.
    Stream { code: Option<u8>, message: String },
    /// Anything else failed.
    Other(String),
}

/// The code with which a stream was closed, if any; an error that carries no code stays an error.
pub fn closed(res: Result<(), Error>) -> (r: Result<Option<u8>, Error>)
    ensures
        r == match res {
            Ok(_) => Ok(None),
            Err(Error::Stream { code: Some(code), .. }) => Ok(Some(code)),
            Err(err) => Err(err),
        },
{
    match res {
        Ok(_) => Ok(None),
        Err(err) => match err {
            Error::Stream { code: Some(code), .. } => Ok(Some(code)),
            err => Err(err),
        },
    }
}

/// The reason that the browser is given for a reset with a code.
pub fn reset_reason(code: u32) -> (r: String)
    ensures
        r@ == "code = "@ + text::decimal(code as nat),
{
    let mut out: String = "code = ".to_owned();
    out.append(text::u64_text(code as u64).as_str());
    out
}

/// A stream is closed with the code that the peer gave, whatever it is; without a code it is closed
/// without one if it did not fail, and otherwise it failed as it did.
pub proof fn stream_is_closed_with_its_code(
    res: Result<(), Error>,
    closing: Result<Option<u8>, Error>,
    code: u8,
)
    requires
        call_ensures(closed, (res,), closing),
    ensures
        closing == Ok::<Option<u8>, Error>(None) <==> res is Ok,
        closing == Ok::<Option<u8>, Error>(Some(code)) <==> res is Err && (res->Err_0 matches
            Error::Stream { code: given, .. } && given == Some(code)),
        closing matches Err(err) ==> res == Err::<(), Error>(err),
{
}

/// The reason of a reset names the code in full.
pub proof fn reset_reason_names_the_code(code: u32, reason: String)
    requires
        call_ensures(reset_reason, (code,), reason),
    ensures
        reason@.take(7) == "code = "@,
        reason@.skip(7) == text::decimal(code as nat),
{
    reveal_strlit("code = ");
    assert(reason@.take(7) =~= "code = "@);
    assert(reason@.skip(7) =~= text::decimal(code as nat));
}

} // verus!
