//! Width-limited labels.

use vstd::prelude::*;
use vstd::string::*;

verus! {

/// What [`truncate_string`] returns, over characters: a text shorter than
/// `limit - end.len()` is kept; any other is cut to that many characters and
/// `end` is appended, which gives exactly `limit` characters.
pub open spec fn truncated(text: Seq<char>, limit: int, end: Seq<char>) -> Seq<char> {
    let keep = limit - end.len();
    if text.len() >= keep {
        text.take(keep) + end
    } else {
        text
    }
}

/// Cuts `text` to at most `limit` characters, marking a cut with `string_end`.
///
/// Lengths are counted in characters (Unicode scalar values), never in bytes,
/// so no character is ever split.
pub fn truncate_string(text: String, limit: usize, string_end: String) -> (result: String)
    requires
        string_end@.len() <= limit,
    ensures
        result@ == truncated(text@, limit as int, string_end@),
        text@.len() < limit - string_end@.len() ==> result@ == text@,
        text@.len() >= limit - string_end@.len() ==> {
            &&& result@.len() == limit
            &&& result@.subrange(limit - string_end@.len(), limit as int) == string_end@
            &&& result@.subrange(0, limit - string_end@.len()) == text@.subrange(
                0,
                limit - string_end@.len(),
            )
        },
{
    let end_len: usize = string_end.as_str().unicode_len();
    let keep: usize = limit - end_len;
    let text_len: usize = text.as_str().unicode_len();
    if text_len >= keep {
        let head: &str = text.as_str().substring_char(0, keep);
        let mut result: String = String::from_str(head);
        result.append(string_end.as_str());
        assert(result@.subrange(keep as int, limit as int) =~= string_end@);
        assert(result@.subrange(0, keep as int) =~= text@.subrange(0, keep as int));
        result
    } else {
        text
    }
}

} // verus!
