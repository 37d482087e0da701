//! Commit-hook helpers: the duplicate check that keeps a second glyph out of
//! a commit message, and the prefixed message built once a glyph is chosen.
//! Reading and writing the message file stays outside the library.

use crate::emoji::Emoji;
use crate::emoji::EmojiView;
use crate::text::contains_seq;
use crate::text::str_contains;
use vstd::prelude::*;
use vstd::string::StringExecFns;

verus! {

/// The line already mentions the record: it contains the record's glyph or
/// its short code.
pub open spec fn line_mentions(line: Seq<char>, e: EmojiView) -> bool {
    contains_seq(line, e.emoji) || contains_seq(line, e.code)
}

/// The duplicate check of hook mode: whether the first line of a commit
/// message already mentions some record of the dataset, by glyph or by code.
pub fn line_has_known_emoji(line: &str, emojis: &Vec<Emoji>) -> (r: bool)
    ensures
        r == exists|i: int| 0 <= i < emojis@.len() && line_mentions(line@, #[trigger] emojis@[i]@),
{
    let n = emojis.len();
    let mut i: usize = 0;
    while i < n
        invariant
            i <= n,
            n == emojis@.len(),
            forall|k: int| 0 <= k < i ==> !line_mentions(line@, #[trigger] emojis@[k]@),
        decreases n - i,
    {
        let e = &emojis[i];
        if str_contains(line, e.emoji()) || str_contains(line, e.code()) {
            return true;
        }
        i += 1;
    }
    false
}

/// The new commit-message content once a glyph is chosen: the glyph, one
/// space, then the message's prior content.
pub fn prefixed_message(glyph: &str, content: &str) -> (r: String)
    ensures
        r@ == glyph@ + " "@ + content@,
{
    let mut s = glyph.to_owned();
    s.append(" ");
    s.append(content);
    s
}

} // verus!
