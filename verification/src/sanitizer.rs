//! Neutralising untrusted text before it is embedded in markup.
//!
//! The sanitizer is ammonia's, with its default policy. It works on the whole text and
//! truncates nothing, but it does not take every text: its parser keeps each piece of text in
//! a buffer that cannot grow past 2^31 bytes, and panics where one would. A piece can be
//! three times as long as the text it is read from, because a NUL byte is read as the
//! three-byte replacement character. So a text is handed to ammonia only where three times
//! its length stays within that bound, and a longer one is refused here.

use vstd::prelude::*;
use vstd::string::*;
use vstd::utf8::encode_utf8;

verus! {

/// The longest text, in bytes, that is handed to the sanitizer: a third of 2^31.
pub const SANITIZER_LIMIT: usize = 715_827_882;

/// True where `text`, encoded as UTF-8, is no longer than [`SANITIZER_LIMIT`].
pub open spec fn sanitizable(text: Seq<char>) -> bool {
    encode_utf8(text).len() <= SANITIZER_LIMIT
}

/// The sanitized form of `text`: what `ammonia::clean` makes of it.
pub uninterp spec fn sanitized(text: Seq<char>) -> Seq<char>;

/// The contract of `ammonia::clean`. Trusted, not proved: on a text of which three times the
/// length in bytes is at most 2^31 the call returns, and what it returns depends on the text
/// alone, so it is [`sanitized`] of that text. Of a longer text nothing is claimed: the call
/// may panic on it.
pub assume_specification[ ammonia::clean ](src: &str) -> (cleaned: String)
    requires
        3 * src.spec_bytes().len() <= 0x8000_0000,
    ensures
        cleaned@ == sanitized(src@),
;

/// Sanitizes untrusted text for embedding in markup. A text longer than [`SANITIZER_LIMIT`]
/// is not sanitized at all: the result is `None`, and nothing of the text comes back.
pub fn sanitize(text: &str) -> (cleaned: Option<String>)
    ensures
        match cleaned {
            Some(safe) => sanitizable(text@) && safe@ == sanitized(text@),
            None => !sanitizable(text@),
        },
{
    if text.as_bytes().len() <= SANITIZER_LIMIT {
        Some(ammonia::clean(text))
    } else {
        None
    }
}

} // verus!
