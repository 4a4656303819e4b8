//! Reading the texts that LibRaw hands out as C strings (version, progress
//! stage names, decoder names) and the length of its camera list.
use vstd::prelude::*;
use vstd::utf8::{decode_utf8, valid_utf8};
use crate::metadata::decode_or;

verus! {

/// A C string returned by LibRaw, read as text: `bytes` are its bytes without
/// the terminating NUL, or nothing when LibRaw returned a null pointer. The
/// text is `fallback` when there is none or when it is not valid UTF-8.
pub fn c_text_or<'a>(bytes: Option<&'a [u8]>, fallback: &'a str) -> (s: &'a str)
    ensures
        s@ == (match bytes {
            Some(b) => if valid_utf8(b@) {
                decode_utf8(b@)
            } else {
                fallback@
            },
            None => fallback@,
        }),
{
    match bytes {
        Some(b) => decode_or(b, fallback),
        None => fallback,
    }
}

/// Number of entries of LibRaw's camera list (the names, then the null pointer
/// that ends the list): none when LibRaw returned no list, or a negative count.
pub fn camera_list_len(list_present: bool, count: i32) -> (n: usize)
    ensures
        n == (if !list_present || count < 0 {
            0
        } else {
            count + 1
        }),
{
    if !list_present || count < 0 {
        0
    } else {
        count as usize + 1
    }
}

} // verus!
