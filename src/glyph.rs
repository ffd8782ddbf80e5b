use vstd::prelude::*;
use unicode_segmentation::UnicodeSegmentation;
use crate::error::RunError;

verus! {

/// The number of extended grapheme clusters (user-perceived characters)
/// in a text.
pub uninterp spec fn grapheme_count_of(s: Seq<char>) -> nat;

/// Relies on unicode_segmentation's `graphemes(true)`: the extended grapheme
/// clusters of the text, each a non-empty run of its characters, so an
/// empty text has none and no text has more clusters than characters.
#[verifier::external_body]
fn grapheme_count(s: &str) -> (r: usize)
    ensures
        r == grapheme_count_of(s@),
        (r == 0) == (s@.len() == 0),
        r <= s@.len(),
{
    s.graphemes(true).count()
}

/// The glyph drawn when no `-c` option is given: a space, which shows the
/// pixel color once foreground and background are swapped.
pub fn default_glyph() -> (r: String)
    ensures
        r@ == seq![' '],
{
    proof {
        reveal_strlit(" ");
    }
    " ".to_owned()
}

/// Accepts a glyph whose grapheme count is exactly one.
pub fn check_character_count(glyph: String, graphemes: usize) -> (r: Result<String, RunError>)
    ensures
        graphemes == 1 ==> r == Ok::<String, RunError>(glyph),
        graphemes != 1 ==> r == Err::<String, RunError>(RunError::InvalidCharacter(glyph)),
{
    if graphemes == 1 {
        Ok(glyph)
    } else {
        Err(RunError::InvalidCharacter(glyph))
    }
}

/// Accepts a glyph that is exactly one user-perceived character; an empty
/// glyph or one of several characters is an invalid character.
pub fn check_character(glyph: String) -> (r: Result<String, RunError>)
    ensures
        grapheme_count_of(glyph@) == 1 ==> r == Ok::<String, RunError>(glyph),
        grapheme_count_of(glyph@) != 1 ==> r == Err::<String, RunError>(RunError::InvalidCharacter(glyph)),
        glyph@.len() == 0 ==> grapheme_count_of(glyph@) == 0,
        glyph@.len() == 1 ==> grapheme_count_of(glyph@) == 1,
{
    let n = grapheme_count(glyph.as_str());
    check_character_count(glyph, n)
}

} // verus!
