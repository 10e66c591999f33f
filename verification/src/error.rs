//! The slot that keeps the message of the last failure.
//!
//! Entry points answer with a status code; the message that explains a
//! failure waits here until the host asks for it. Each thread of the host
//! owns one slot and passes it to the entry points it calls.

use vstd::prelude::*;
use crate::text::concat;

verus! {

/// The message of the last failure, if any.
pub struct LastError {
    message: Option<String>,
}

impl View for LastError {
    type V = Option<Seq<char>>;

    open spec fn view(&self) -> Option<Seq<char>> {
        match self.spec_message() {
            Some(text) => Some(text@),
            None => None,
        }
    }
}

impl LastError {
    /// The stored message.
    pub closed spec fn spec_message(&self) -> Option<String> {
        self.message
    }

    /// An empty slot.
    pub fn new() -> (slot: Self)
        ensures
            slot@ is None,
    {
        LastError { message: None }
    }
}

/// Stores `error` as the last failure, in place of what was there.
pub fn set_last_error(slot: &mut LastError, error: &str)
    ensures
        final(slot)@ == Some(error@),
{
    slot.message = Some(error.to_owned());
}

/// Empties the slot. Entry points do this first, so that a message never
/// outlives the call it belongs to.
pub fn clear_last_error(slot: &mut LastError)
    ensures
        final(slot)@ is None,
{
    slot.message = None;
}

/// A copy of the stored message, or `None` where the slot is empty.
pub fn rhai_get_last_error(slot: &LastError) -> (message: Option<String>)
    ensures
        match message {
            Some(text) => slot@ == Some(text@),
            None => slot@ is None,
        },
{
    match &slot.message {
        Some(text) => Some(text.clone()),
        None => None,
    }
}

/// What is said of a panic that brought no message.
pub const UNKNOWN_PANIC_TEXT: &'static str = "Unknown panic occurred";

/// The message for an entry point that panicked: `detail` is the message of
/// the panic, where it had one.
pub open spec fn panic_message(detail: Option<Seq<char>>) -> Seq<char> {
    "Panic in FFI call: "@ + match detail {
        Some(text) => text,
        None => UNKNOWN_PANIC_TEXT@,
    }
}

/// Records that an entry point panicked, and returns the status code that
/// the host gets in place of the panic: -1.
pub fn report_panic(slot: &mut LastError, detail: Option<&str>) -> (status: i32)
    ensures
        status == -1,
        final(slot)@ == Some(
            panic_message(
                match detail {
                    Some(text) => Some(text@),
                    None => None,
                },
            ),
        ),
{
    let message = match detail {
        Some(text) => concat("Panic in FFI call: ", text),
        None => concat("Panic in FFI call: ", UNKNOWN_PANIC_TEXT),
    };
    set_last_error(slot, message.as_str());
    -1
}

} // verus!
