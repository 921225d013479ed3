//! One editable line of text, with its character count and display width
//! kept current on every change.
use vstd::prelude::*;
use vstd::utf8::is_ascii_chars;
use vstd::string::StringSliceAdditionalSpecFns;
use std::str::Chars;
use vstd::std_specs::iter::IteratorSpec;
use crate::width::{char_columns, columns_of, display_width, is_ascii_char, lemma_ascii_width, lemma_display_width_push};

verus! {

/// The most characters a line holds: every display width up to three
/// columns per character then fits in a `usize`.
pub const MAX_LINE_CHARS: usize = usize::MAX / 3;

/// Relies on `String::push`: appends one character.
#[verifier::external_body]
fn string_push(s: &mut String, c: char)
    ensures
        final(s)@ == old(s)@.push(c),
{
    s.push(c)
}

/// Relies on `String::clear`: the string becomes empty.
#[verifier::external_body]
fn string_clear(s: &mut String)
    ensures
        final(s)@ == Seq::<char>::empty(),
{
    s.clear()
}

/// Relies on `String::reserve`: only capacity changes, never the contents.
#[verifier::external_body]
fn string_reserve(s: &mut String, additional: usize)
    ensures
        final(s)@ == old(s)@,
{
    s.reserve(additional)
}

/// One line of text.
///
/// Besides the text it caches the number of characters, the display width,
/// and whether any character is outside ASCII; while no such character is
/// present, a character index is also a display column.
#[derive(Debug)]
pub struct Line {
    text: String,
    has_utf8: bool,
    len: usize,
    width: usize,
}

impl View for Line {
    type V = Seq<char>;

    closed spec fn view(&self) -> Seq<char> {
        self.text@
    }
}

impl Line {
    #[verifier::type_invariant]
    spec fn inv(self) -> bool {
        &&& self.len == self.text@.len()
        &&& self.len <= MAX_LINE_CHARS
        &&& self.width == display_width(self.text@)
        &&& self.width <= 3 * self.len
        &&& self.has_utf8 == !is_ascii_chars(self.text@)
    }

    /// An empty line.
    #[must_use]
    pub fn new() -> (r: Line)
        ensures
            r@ == Seq::<char>::empty(),
    {
        Line { text: String::new(), has_utf8: false, len: 0, width: 0 }
    }

    /// The line holding `s`. An ASCII string is counted by its byte length;
    /// any other is walked once to count its characters and sum their widths.
    #[must_use]
    pub fn with_string(s: String) -> (r: Line)
        requires
            s@.len() <= MAX_LINE_CHARS,
        ensures
            r@ == s@,
    {
        let has_utf8 = !s.as_str().is_ascii();
        if has_utf8 {
            let mut len: usize = 0;
            let mut width: usize = 0;
            let ghost text = s@;
            for c in it: s.chars()
                invariant
                    text == s@,
                    text.len() <= MAX_LINE_CHARS,
                    it.seq() == text,
                    len == it.index(),
                    len <= text.len(),
                    width == display_width(text.take(len as int)),
                    width <= 3 * len,
            {
                proof {
                    assert(text.take(len + 1) =~= text.take(len as int).push(c));
                    lemma_display_width_push(text.take(len as int), c);
                }
                width = width + columns_of(c);
                len = len + 1;
            }
            assert(text.take(len as int) =~= text);
            Line { has_utf8: true, len, width, text: s }
        } else {
            let st = s.as_str();
            proof {
                vstd::string::is_ascii_spec_bytes(st);
                lemma_ascii_chars(s@);
            }
            let n = st.len();
            Line { has_utf8: false, len: n, width: n, text: s }
        }
    }

    /// The display column at which the character at `index` starts, that is
    /// the width of the first `index` characters.
    #[must_use]
    pub fn get_unicode_width_at(&self, index: usize) -> (r: usize)
        requires
            index <= self@.len(),
        ensures
            r == display_width(self@.take(index as int)),
    {
        proof {
            use_type_invariant(self);
        }
        if !self.has_utf8 {
            proof {
                lemma_ascii_chars(self@.take(index as int));
            }
            return index;
        }
        if index == self.len {
            assert(self@.take(index as int) =~= self@);
            return self.width;
        }
        let mut it = self.text.chars();
        let mut i: usize = 0;
        let mut acc: usize = 0;
        while i < index
            invariant
                i <= index <= self@.len() <= MAX_LINE_CHARS,
                it.remaining() == self@.skip(i as int),
                acc == display_width(self@.take(i as int)),
                acc <= 3 * i,
            decreases index - i,
        {
            let c = it.next().unwrap();
            proof {
                assert(self@.take(i + 1) =~= self@.take(i as int).push(c));
                assert(self@.skip(i + 1) =~= self@.skip(i as int).drop_first());
                lemma_display_width_push(self@.take(i as int), c);
            }
            acc = acc + columns_of(c);
            i = i + 1;
        }
        acc
    }

    /// The text of the line.
    #[must_use]
    pub fn as_str(&self) -> (r: &str)
        ensures
            r@ == self@,
    {
        self.text.as_str()
    }

    /// The number of characters.
    #[must_use]
    pub fn len(&self) -> (r: usize)
        ensures
            r == self@.len(),
            r <= MAX_LINE_CHARS,
    {
        proof {
            use_type_invariant(self);
        }
        self.len
    }

    /// The characters of the line, in order.
    pub fn chars(&self) -> (r: Chars<'_>)
        ensures
            r.remaining() == self@,
            r.decrease() is Some,
            r.initial_value_relation(&r),
    {
        self.text.chars()
    }

    /// Empties the line.
    pub fn clear(&mut self)
        ensures
            final(self)@ == Seq::<char>::empty(),
    {
        let mut taken = Line::new();
        std::mem::swap(self, &mut taken);
        let Line { mut text, .. } = taken;
        string_clear(&mut text);
        *self = Line { text, len: 0, width: 0, has_utf8: false };
    }

    /// Makes room for at least `additional` more bytes; the text is unchanged.
    pub fn reserve(&mut self, additional: usize)
        ensures
            final(self)@ == old(self)@,
    {
        let mut taken = Line::new();
        std::mem::swap(self, &mut taken);
        proof {
            use_type_invariant(&taken);
        }
        let Line { mut text, has_utf8, len, width } = taken;
        string_reserve(&mut text, additional);
        *self = Line { text, has_utf8, len, width };
    }

    /// Appends one character.
    pub fn push(&mut self, ch: char)
        requires
            old(self)@.len() < MAX_LINE_CHARS,
        ensures
            final(self)@ == old(self)@.push(ch),
    {
        let mut taken = Line::new();
        std::mem::swap(self, &mut taken);
        proof {
            use_type_invariant(&taken);
            lemma_display_width_push(taken@, ch);
            lemma_ascii_push(taken@, ch);
        }
        let Line { mut text, has_utf8, len, width } = taken;
        string_push(&mut text, ch);
        let ascii = '\0' <= ch && ch <= '\u{7f}';
        *self = Line {
            text,
            has_utf8: has_utf8 || !ascii,
            len: len + 1,
            width: width + columns_of(ch),
        };
    }

    /// Appends the characters of `chars`, in order.
    pub fn extend(&mut self, chars: &[char])
        requires
            old(self)@.len() + chars@.len() <= MAX_LINE_CHARS,
        ensures
            final(self)@ == old(self)@ + chars@,
    {
        self.reserve(chars.len());
        let ghost start = self@;
        let mut i: usize = 0;
        while i < chars.len()
            invariant
                start == old(self)@,
                i <= chars@.len(),
                start.len() + chars@.len() <= MAX_LINE_CHARS,
                self@ == start + chars@.take(i as int),
            decreases chars@.len() - i,
        {
            assert(chars@.take(i + 1) =~= chars@.take(i as int).push(chars@[i as int]));
            self.push(chars[i]);
            i = i + 1;
        }
        assert(chars@.take(i as int) =~= chars@);
    }
}

/// An ASCII text is as wide as it has characters, and has as many
/// characters as bytes.
pub proof fn lemma_ascii_text_width(s: &str)
    requires
        vstd::string::is_ascii(s),
    ensures
        display_width(s@.take(s@.len() as int)) == s@.len(),
        s@.len() == s.spec_bytes().len(),
{
    vstd::string::is_ascii_spec_bytes(s);
    assert(s@.take(s@.len() as int) =~= s@);
    lemma_ascii_chars(s@);
}

/// `is_ascii_chars` in terms of each character.
proof fn lemma_ascii_chars(s: Seq<char>)
    ensures
        is_ascii_chars(s) <==> forall|i: int| 0 <= i < s.len() ==> is_ascii_char(#[trigger] s[i]),
        is_ascii_chars(s) ==> display_width(s) == s.len(),
{
    if is_ascii_chars(s) {
        lemma_ascii_width(s);
    }
}

/// How appending a character changes `is_ascii_chars`.
proof fn lemma_ascii_push(s: Seq<char>, c: char)
    ensures
        is_ascii_chars(s.push(c)) == (is_ascii_chars(s) && is_ascii_char(c)),
{
    lemma_ascii_chars(s);
    lemma_ascii_chars(s.push(c));
    if is_ascii_chars(s) && is_ascii_char(c) {
        assert forall|i: int| 0 <= i < s.push(c).len() implies is_ascii_char(#[trigger] s.push(c)[i]) by {
            if i < s.len() {
                assert(s.push(c)[i] == s[i]);
            }
        }
    }
    if is_ascii_chars(s.push(c)) {
        assert(s.push(c)[s.len() as int] == c);
        assert forall|i: int| 0 <= i < s.len() implies is_ascii_char(#[trigger] s[i]) by {
            assert(s.push(c)[i] == s[i]);
        }
    }
}

} // verus!
