//! Window titles: decoding the caption that the system hands out, and the
//! test that picks the windows to place.

use vstd::prelude::*;
use vstd::slice::slice_subrange;
use crate::text::starts_with;

verus! {

/// Windows whose title begins with this text are placed.
pub const TITLE_PREFIX: &'static str = "Playwright";

/// The text that a sequence of UTF-16 code units decodes to when every
/// unpaired surrogate is replaced by U+FFFD.
pub uninterp spec fn utf16_lossy(units: Seq<u16>) -> Seq<char>;

/// `String::from_utf16_lossy`: decodes UTF-16, putting U+FFFD in place of
/// each unpaired surrogate. The result depends on the code units alone.
#[verifier::external_body]
fn decode_utf16_lossy(units: &[u16]) -> (text: String)
    ensures
        text@ == utf16_lossy(units@),
{
    String::from_utf16_lossy(units)
}

/// The title held in a caption buffer of which the system filled the first
/// `copied` code units. There is no title when nothing was copied, which is
/// how an empty caption and a stale handle both show, nor when `copied` is
/// not a length within the buffer.
pub fn window_title(buffer: &[u16], copied: i32) -> (title: Option<String>)
    ensures
        title is Some <==> 0 < copied <= buffer@.len(),
        title matches Some(t) ==> t@ == utf16_lossy(buffer@.subrange(0, copied as int)),
{
    if copied <= 0 {
        return None;
    }
    let len: usize = copied as usize;
    if len > buffer.len() {
        return None;
    }
    Some(decode_utf16_lossy(slice_subrange(buffer, 0, len)))
}

/// Whether a window with this title is one to place.
pub fn title_matches(title: &str) -> (b: bool)
    ensures
        b == TITLE_PREFIX@.is_prefix_of(title@),
{
    starts_with(title, TITLE_PREFIX)
}

} // verus!
