//! Opening a URI through the shell: what is handed to the shell, and what its
//! answer means.
//!
//! The shell's "execute" facility is asked to `open` the URI, which makes it
//! launch whatever handler is registered for the URI's scheme at that moment.
//! It answers with a status. Only a status above [`SHELL_OPEN_ERROR_MAX`]
//! says that the shell accepted the URI; every other status is one of its
//! error values and says that nothing was launched.

use vstd::prelude::*;
use crate::errors::SystemUriError;
use crate::escape::{escape_controls, escaped, is_ascii_control, lemma_escaped_has_no_control};
use crate::wide::{lemma_utf16_units_come_from_chars, to_wide_chars, utf16, wide_chars};

verus! {

/// The highest status with which the shell reports an error. The shell
/// answers with a greater value when it accepted the URI; 32 itself is the
/// error of a library that was not found.
pub const SHELL_OPEN_ERROR_MAX: i32 = 32;

/// The way of showing a window that asks for it to be activated and shown
/// at its normal size and place.
pub const SHOW_NORMAL: i32 = 1;

/// What the shell's "execute" facility is called with to open a URI. Both
/// texts are zero-terminated wide strings. No owner window, no parameters
/// and no working directory are given.
#[derive(Debug, PartialEq, Eq)]
pub struct ShellOpen {
    /// The action to perform: `open`.
    pub operation: Vec<u16>,
    /// What to perform it on: the URI, with its control characters escaped.
    pub file: Vec<u16>,
    /// How a window that opens is to be shown.
    pub show_command: i32,
}

/// The wide string of the action `open`, unit by unit.
proof fn lemma_open_units()
    ensures
        wide_chars("open"@) == seq![0x6Fu16, 0x70u16, 0x65u16, 0x6Eu16, 0u16],
{
    reveal_strlit("open");
    reveal_with_fuel(utf16, 5);
    assert(utf16("open"@) =~= seq![0x6Fu16, 0x70u16, 0x65u16, 0x6Eu16]);
}

/// Prepares the call of the shell that opens `uri` with the handler
/// registered for its scheme. Every ASCII control character in the URI is
/// passed as its percent-encoding, a line feed as `%0A`, a carriage return
/// as `%0D`, a NUL as `%00`: nothing in the URI can be taken for a line of
/// its own, and the zero that ends the text is the only one in it.
pub fn open(uri: &str) -> (request: ShellOpen)
    ensures
        request.operation@ == seq![0x6Fu16, 0x70u16, 0x65u16, 0x6Eu16, 0u16],
        request.operation@ == wide_chars("open"@),
        request.file@ == wide_chars(escaped(uri@)),
        request.show_command == SHOW_NORMAL,
        request.file@.last() == 0,
        forall|i: int|
            0 <= i < request.file@.len() - 1 ==> request.file@[i] > 0x1F && request.file@[i]
                != 0x7F,
{
    let escaped_uri = escape_controls(uri);
    proof {
        lemma_open_units();
        let text = escaped(uri@);
        lemma_escaped_has_no_control(uri@);
        lemma_utf16_units_come_from_chars(text);
        assert forall|i: int| 0 <= i < utf16(text).len() implies utf16(text)[i] > 0x1F && utf16(
            text,
        )[i] != 0x7F by {
            if utf16(text)[i] < 0xD800 {
                let k = choose|k: int| 0 <= k < text.len() && text[k] as u32 == utf16(text)[i];
                assert(!is_ascii_control(text[k]));
            }
        }
    }
    ShellOpen {
        operation: to_wide_chars("open"),
        file: to_wide_chars(escaped_uri.as_str()),
        show_command: SHOW_NORMAL,
    }
}

/// Turns the status that the shell returned into the result of opening.
/// Opening succeeded only if the shell confirmed it with a status above
/// [`SHELL_OPEN_ERROR_MAX`]; any status up to and including it is a failure
/// that carries the status.
pub fn open_result(status: i32) -> (result: Result<(), SystemUriError>)
    ensures
        result == if status <= SHELL_OPEN_ERROR_MAX {
            Err::<(), SystemUriError>(SystemUriError::ShellOpenError(status))
        } else {
            Ok(())
        },
        result is Ok <==> status > 32,
{
    if status <= SHELL_OPEN_ERROR_MAX {
        Err(SystemUriError::ShellOpenError(status))
    } else {
        Ok(())
    }
}

} // verus!
