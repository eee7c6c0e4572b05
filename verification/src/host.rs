//! The prototype core's side of calls from the game: reading the game's memory and decoding the
//! arguments of a log call.

use crate::logging::{invalid_level_text, level_of_code, LogLevel};
use crate::surface::slice_subrange;
use crate::text::{decimal, push_decimal};
use vstd::prelude::*;
use vstd::string::StringExecFns;

verus! {

/// The text that the bytes `bytes` encode in UTF-8, if they are valid UTF-8.
pub uninterp spec fn utf8_decoding(bytes: Seq<u8>) -> Option<Seq<char>>;

/// Decodes UTF-8 text (`std::str::from_utf8`): the text when the bytes are valid UTF-8, else
/// nothing. What makes bytes valid, and the text they encode, is left to the name
/// [`utf8_decoding`].
#[verifier::external_body]
fn decode_utf8(data: &[u8]) -> (r: Option<&str>)
    ensures
        match r {
            Some(s) => utf8_decoding(data@) == Some(s@),
            None => utf8_decoding(data@) is None,
        },
{
    std::str::from_utf8(data).ok()
}

/// The message of the error for a slice outside the game's memory.
pub open spec fn slice_error_text(ptr: u32, len: u32) -> Seq<char> {
    "Could not get slice with pointer "@ + decimal(ptr as nat) + " and length "@ + decimal(
        len as nat,
    ) + "."@
}

/// The message of the error for bytes that are not valid UTF-8.
pub open spec fn invalid_utf8_text() -> Seq<char> {
    "Invalid UTF-8"@
}

/// The `len` bytes of the game's memory `mem` from `ptr` on.
pub fn get_slice(mem: &[u8], ptr: u32, len: u32) -> (r: Result<&[u8], String>)
    ensures
        ptr + len <= mem@.len() ==> (r matches Ok(s) && s@ == mem@.subrange(ptr as int, ptr + len)),
        ptr + len > mem@.len() ==> (r matches Err(m) && m@ == slice_error_text(ptr, len)),
{
    let from = ptr as usize;
    let count = len as usize;
    if from <= mem.len() && count <= mem.len() - from {
        Ok(slice_subrange(mem, from, from + count))
    } else {
        let mut text = "Could not get slice with pointer ".to_owned();
        push_decimal(&mut text, ptr as u64);
        text.append(" and length ");
        push_decimal(&mut text, len as u64);
        text.append(".");
        proof {
            reveal_strlit("Could not get slice with pointer ");
            reveal_strlit(" and length ");
            reveal_strlit(".");
        }
        Err(text)
    }
}

/// The text that the bytes `data` encode in UTF-8.
pub fn get_str(data: &[u8]) -> (r: Result<&str, String>)
    ensures
        match utf8_decoding(data@) {
            Some(text) => r matches Ok(s) && s@ == text,
            None => r matches Err(m) && m@ == invalid_utf8_text(),
        },
{
    match decode_utf8(data) {
        Some(s) => Ok(s),
        None => {
            proof {
                reveal_strlit("Invalid UTF-8");
            }
            Err("Invalid UTF-8".to_owned())
        },
    }
}

/// Decodes a log call of the game: the level code `level` and the message of `len` bytes at
/// `ptr` in the game's memory `mem`. The message is checked first: it must lie in the memory and
/// be valid UTF-8; then the level code must name a level.
pub fn decode_log_call(mem: &[u8], level: u32, ptr: u32, len: u32) -> (r: Result<
    (LogLevel, &str),
    String,
>)
    ensures
        ptr + len > mem@.len() ==> (r matches Err(m) && m@ == slice_error_text(ptr, len)),
        ptr + len <= mem@.len() ==> match utf8_decoding(mem@.subrange(ptr as int, ptr + len)) {
            None => r matches Err(m) && m@ == invalid_utf8_text(),
            Some(text) => match level_of_code(level) {
                None => r matches Err(m) && m@ == invalid_level_text(level),
                Some(l) => r matches Ok((decoded, message)) && decoded == l && message@ == text,
            },
        },
{
    let bytes = get_slice(mem, ptr, len)?;
    let message = get_str(bytes)?;
    let decoded = LogLevel::try_from_u32(level)?;
    Ok((decoded, message))
}

} // verus!
