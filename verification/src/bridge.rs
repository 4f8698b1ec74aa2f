//! What the entry points of the bridge decide once a call into the backend
//! has returned or panicked.

use vstd::prelude::*;
use vstd::string::StringExecFns;

verus! {

/// The message of the error that reports a panic: the text that the panic
/// carried as a string slice, else the text that it carried as a string,
/// else `unknown panic`.
pub open spec fn panic_message_text(
    as_str: Option<Seq<char>>,
    as_string: Option<Seq<char>>,
) -> Seq<char> {
    match as_str {
        Some(message) => message,
        None => match as_string {
            Some(message) => message,
            None => "unknown panic"@,
        },
    }
}

/// The message of the error that reports a panic, of what the panic
/// carried: `as_str` where it was a string slice, `as_string` where it was
/// a string.
pub fn panic_message(as_str: Option<&str>, as_string: Option<&str>) -> (message: String)
    ensures
        message@ == panic_message_text(
            match as_str {
                Some(m) => Some(m@),
                None => None,
            },
            match as_string {
                Some(m) => Some(m@),
                None => None,
            },
        ),
{
    match as_str {
        Some(msg) => String::from_str(msg),
        None => match as_string {
            Some(msg) => String::from_str(msg),
            None => String::from_str("unknown panic"),
        },
    }
}

/// The two elements of the array that carries the outcome of a call to the
/// caller: the bytes of the answer and nothing, or nothing and the bytes of
/// the error.
pub fn pack_result(result: Result<Vec<u8>, Vec<u8>>) -> (slots: (Option<Vec<u8>>, Option<Vec<u8>>))
    ensures
        slots == match result {
            Ok(msg) => (Some(msg), None::<Vec<u8>>),
            Err(err) => (None::<Vec<u8>>, Some(err)),
        },
{
    match result {
        Ok(msg) => (Some(msg), None),
        Err(err) => (None, Some(err)),
    }
}

} // verus!
