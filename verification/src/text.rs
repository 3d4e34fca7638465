//! Optional texts as sequences of characters.

use vstd::prelude::*;

verus! {

/// The characters of an optional owned text.
pub open spec fn owned_text(text: Option<String>) -> Option<Seq<char>> {
    match text {
        Some(t) => Some(t@),
        None => None,
    }
}

/// The characters of an optional borrowed text.
pub open spec fn borrowed_text(text: Option<&str>) -> Option<Seq<char>> {
    match text {
        Some(t) => Some(t@),
        None => None,
    }
}

/// `text` ends with `suffix`.
pub open spec fn ends_with(text: Seq<char>, suffix: Seq<char>) -> bool {
    suffix.len() <= text.len() && text.subrange(text.len() - suffix.len(), text.len() as int)
        == suffix
}

/// No character of `text` is a colon.
pub open spec fn has_no_colon(text: Seq<char>) -> bool {
    forall|i: int| 0 <= i < text.len() ==> text[i] != ':'
}

/// A text without a colon ends with no text that holds one.
pub proof fn lemma_colon_free_text_has_colon_free_ends(text: Seq<char>, suffix: Seq<char>)
    requires
        has_no_colon(text),
        !has_no_colon(suffix),
    ensures
        !ends_with(text, suffix),
{
    if ends_with(text, suffix) {
        let i = choose|i: int| 0 <= i < suffix.len() && suffix[i] == ':';
        let start = text.len() - suffix.len();
        assert(text.subrange(start, text.len() as int)[i] == text[start + i]);
    }
}

} // verus!
