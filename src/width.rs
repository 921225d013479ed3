//! Display widths of characters and character sequences.
use vstd::prelude::*;
use unicode_width::UnicodeWidthChar;

verus! {

/// The terminal column width that `unicode_width` assigns to a character,
/// `None` for a control character.
pub uninterp spec fn unicode_width_of(c: char) -> Option<usize>;

/// Relies on `UnicodeWidthChar::width` for `char`: the result depends on the
/// character alone, and a width it reports is at most 3 columns (the crate's
/// width rules name widths 0, 1, 2 and, for one character, 3).
#[verifier::external_body]
fn unicode_width(c: char) -> (r: Option<usize>)
    ensures
        r == unicode_width_of(c),
        r matches Some(w) ==> w <= 3,
{
    UnicodeWidthChar::width(c)
}

/// Whether a character is ASCII.
pub open spec fn is_ascii_char(c: char) -> bool {
    '\0' <= c <= '\u{7f}'
}

/// Columns a character occupies: one for every ASCII character, and for any
/// other the measured width, an unmeasurable character counting as zero.
pub open spec fn char_columns(c: char) -> nat {
    if is_ascii_char(c) {
        1
    } else {
        match unicode_width_of(c) {
            Some(w) => w as nat,
            None => 0,
        }
    }
}

/// Display width of a character sequence: the sum of its characters' columns.
pub open spec fn display_width(s: Seq<char>) -> nat
    decreases s.len(),
{
    if s.len() == 0 {
        0
    } else {
        display_width(s.drop_last()) + char_columns(s.last())
    }
}

/// The columns that one character occupies.
pub fn columns_of(c: char) -> (r: usize)
    ensures
        r == char_columns(c),
        r <= 3,
{
    if '\0' <= c && c <= '\u{7f}' {
        1
    } else {
        match unicode_width(c) {
            Some(w) => w,
            None => 0,
        }
    }
}

/// Display width of `s.push(c)` from that of `s`.
pub proof fn lemma_display_width_push(s: Seq<char>, c: char)
    ensures
        display_width(s.push(c)) == display_width(s) + char_columns(c),
{
    assert(s.push(c).drop_last() =~= s);
}

/// A sequence of ASCII characters is exactly as wide as it is long.
pub proof fn lemma_ascii_width(s: Seq<char>)
    requires
        forall|i: int| 0 <= i < s.len() ==> is_ascii_char(#[trigger] s[i]),
    ensures
        display_width(s) == s.len(),
    decreases s.len(),
{
    if s.len() > 0 {
        lemma_ascii_width(s.drop_last());
    }
}

/// Where no character is narrower than one column, a text is at least as
/// wide as it is long, and exactly as wide only when no character takes more
/// than one column.
pub proof fn lemma_width_at_least_length(s: Seq<char>)
    requires
        forall|i: int| 0 <= i < s.len() ==> char_columns(#[trigger] s[i]) >= 1,
    ensures
        display_width(s) >= s.len(),
        display_width(s) == s.len() <==> forall|i: int| 0 <= i < s.len() ==> char_columns(#[trigger] s[i]) <= 1,
    decreases s.len(),
{
    if s.len() > 0 {
        let t = s.drop_last();
        assert forall|i: int| 0 <= i < t.len() implies char_columns(#[trigger] t[i]) >= 1 by {
            assert(t[i] == s[i]);
        }
        lemma_width_at_least_length(t);
        assert(char_columns(s[s.len() - 1]) >= 1);
        if forall|i: int| 0 <= i < s.len() ==> char_columns(#[trigger] s[i]) <= 1 {
            assert forall|i: int| 0 <= i < t.len() implies char_columns(#[trigger] t[i]) <= 1 by {
                assert(t[i] == s[i]);
            }
            assert(char_columns(s[s.len() - 1]) <= 1);
        }
        if display_width(s) == s.len() {
            assert forall|i: int| 0 <= i < s.len() implies char_columns(#[trigger] s[i]) <= 1 by {
                if i < t.len() {
                    assert(t[i] == s[i]);
                }
            }
        }
    }
}

/// A text holding a character two columns wide, and none of zero width, is
/// wider than it is long: its width is at least its length, and equal only
/// if no character is wider than one column, which here fails.
pub proof fn lemma_wide_text_width(s: Seq<char>)
    requires
        exists|i: int| 0 <= i < s.len() && char_columns(#[trigger] s[i]) == 2,
        forall|i: int| 0 <= i < s.len() ==> char_columns(#[trigger] s[i]) >= 1,
    ensures
        display_width(s.take(s.len() as int)) >= s.len(),
        display_width(s.take(s.len() as int)) == s.len() <==> forall|i: int|
            0 <= i < s.len() ==> char_columns(#[trigger] s[i]) <= 1,
        display_width(s.take(s.len() as int)) > s.len(),
{
    assert(s.take(s.len() as int) =~= s);
    lemma_width_at_least_length(s);
}

} // verus!
