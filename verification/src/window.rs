//! The title of a window, from the buffer the platform filled.

use vstd::prelude::*;
use vstd::slice::slice_subrange;

verus! {

/// The text that a sequence of UTF-16 code units decodes to, with each
/// ill-formed unit replaced by U+FFFD.
pub uninterp spec fn utf16_lossy(units: Seq<u16>) -> Seq<char>;

/// `String::from_utf16_lossy` of the standard library. The contract only
/// names the decoded text: the same units always decode to the same text.
#[verifier::external_body]
fn decode_utf16_lossy(units: &[u16]) -> (text: String)
    ensures
        text@ == utf16_lossy(units@),
{
    String::from_utf16_lossy(units)
}

/// The title shown for a window that has none.
pub open spec fn unknown_window() -> Seq<char> {
    "\u{672a}\u{77e5}\u{7a97}\u{53e3}"@
}

/// The title of a window, given the buffer that was offered to the platform
/// and the number of code units it says it wrote.
pub open spec fn window_title(buffer: Seq<u16>, len: i32) -> Seq<char> {
    if 0 < len <= buffer.len() {
        utf16_lossy(buffer.take(len as int))
    } else {
        unknown_window()
    }
}

/// Decodes a window's title. A window without a title, and a length that
/// does not fit the buffer, give the title for unknown windows.
pub fn get_window_info(buffer: &[u16], len: i32) -> (title: String)
    ensures
        title@ == window_title(buffer@, len),
{
    if len > 0 && len as usize <= buffer.len() {
        let written = slice_subrange(buffer, 0, len as usize);
        assert(written@ == buffer@.take(len as int));
        decode_utf16_lossy(written)
    } else {
        String::from_str("\u{672a}\u{77e5}\u{7a97}\u{53e3}")
    }
}

} // verus!
