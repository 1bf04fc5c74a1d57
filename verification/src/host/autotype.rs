//! The errors of typing, as the host is told them.

use vstd::prelude::*;

use crate::autotype::type_input::AutotypeError;
use crate::text::joined;

verus! {

/// What the host is told when the title of the foreground window cannot be
/// read.
pub open spec fn window_title_error() -> Seq<char> {
    "Autotype Error: failed to get foreground window title"@
}

/// The title of the foreground window as the system reported it, or the
/// error that the host is told: the cause is not passed on.
pub fn get_foreground_window_title(reported: Result<String, String>) -> (title: Result<
    String,
    String,
>)
    ensures
        match reported {
            Ok(found) => title == Ok::<String, String>(found),
            Err(_) => title matches Err(reason) && reason@ == window_title_error(),
        },
{
    match reported {
        Ok(found) => Ok(found),
        Err(_) => Err("Autotype Error: failed to get foreground window title".to_owned()),
    }
}

/// What the host is told when input cannot be typed.
pub fn type_input_error(error: &AutotypeError) -> (reason: String)
    ensures
        reason@ == "Autotype Error: "@ + error.message_text(),
{
    let message = error.message();
    joined("Autotype Error: ", message.as_str())
}

} // verus!
