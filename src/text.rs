use vstd::prelude::*;
use vstd::string::*;

verus! {

/// The text shown for `text` in at most `max_length` characters: the text itself when it
/// fits, else its first `max_length - 1` characters followed by an ellipsis.
pub open spec fn ellipsized(text: Seq<char>, max_length: nat) -> Seq<char> {
    if text.len() <= max_length {
        text
    } else {
        text.subrange(0, max_length - 1).push('\u{2026}')
    }
}

/// Shortens `text` to `max_length` characters, marking the cut with a trailing ellipsis.
pub fn ellipsize(text: &str, max_length: usize) -> (r: String)
    requires
        text@.len() <= max_length || max_length >= 1,
    ensures
        r@ == ellipsized(text@, max_length as nat),
        r@.len() == if text@.len() <= max_length { text@.len() } else { max_length as nat },
        text@.len() > max_length ==> r@.last() == '\u{2026}'
            && r@.subrange(0, max_length - 1) == text@.subrange(0, max_length - 1),
{
    let n = text.unicode_len();
    if n <= max_length {
        return text.to_owned();
    }
    let head = text.substring_char(0, max_length - 1);
    let marker = "\u{2026}";
    proof {
        reveal_strlit("\u{2026}");
    }
    let r = String::from_str(head).concat(marker);
    assert(r@ =~= ellipsized(text@, max_length as nat));
    r
}

} // verus!
