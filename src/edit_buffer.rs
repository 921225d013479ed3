//! The buffer of an insertion session: the line under edit, split at the
//! cursor.
use vstd::prelude::*;
use std::collections::VecDeque;
use crate::line::{Line, MAX_LINE_CHARS};
use crate::width::{columns_of, display_width, lemma_display_width_push};

verus! {

/// The line under edit, split at the cursor into the characters before it
/// and those after it.
///
/// The split point is the cursor's character index: typing appends to
/// `before` and deleting takes from its end, so no character after the
/// cursor ever moves.
#[derive(Debug)]
pub struct EditBuffer {
    before: Vec<char>,
    after: VecDeque<char>,
}

impl View for EditBuffer {
    /// The characters before the cursor, and those after it.
    type V = (Seq<char>, Seq<char>);

    closed spec fn view(&self) -> (Seq<char>, Seq<char>) {
        (self.before@, self.after@)
    }
}

impl EditBuffer {
    /// The whole line under edit: the characters before the cursor, then
    /// those after it.
    pub open spec fn content(&self) -> Seq<char> {
        self@.0 + self@.1
    }

    /// Splits the text of `line` before its character at `split_index`.
    pub fn open(line: &Line, split_index: usize) -> (r: EditBuffer)
        requires
            split_index <= line@.len(),
        ensures
            r@.0 == line@.take(split_index as int),
            r@.1 == line@.skip(split_index as int),
    {
        let n = line.len();
        let mut capacity: usize = 30;
        if capacity < split_index * 3 {
            capacity = split_index * 3;
        }
        if capacity < n * 2 {
            capacity = n * 2;
        }
        let mut before: Vec<char> = Vec::with_capacity(capacity);
        let mut after: VecDeque<char> = VecDeque::new();
        let ghost text = line@;
        let mut i: usize = 0;
        for c in it: line.chars()
            invariant
                text == line@,
                split_index <= text.len() <= MAX_LINE_CHARS,
                it.seq() == text,
                i == it.index(),
                i <= text.len(),
                i <= split_index ==> before@ == text.take(i as int) && after@.len() == 0,
                i > split_index ==> before@ == text.take(split_index as int)
                    && after@ == text.subrange(split_index as int, i as int),
        {
            if i < split_index {
                assert(text.take(i + 1) =~= text.take(i as int).push(c));
                before.push(c);
            } else {
                assert(text.subrange(split_index as int, i + 1) =~= after@.push(c));
                after.push_back(c);
            }
            i = i + 1;
        }
        assert(text.take(i as int) =~= text);
        assert(text.subrange(split_index as int, i as int) =~= text.skip(split_index as int));
        assert(text.skip(split_index as int) =~= Seq::<char>::empty() || i > split_index);
        EditBuffer { before, after }
    }

    /// Inserts `c` at the cursor, which then stands after it.
    pub fn insert_before_cursor(&mut self, c: char)
        ensures
            final(self)@ == (old(self)@.0.push(c), old(self)@.1),
    {
        self.before.push(c);
    }

    /// Deletes the character just before the cursor, if there is one, and
    /// reports whether there was.
    pub fn delete_before_cursor(&mut self) -> (r: bool)
        ensures
            r == (old(self)@.0.len() > 0),
            final(self)@ == if r {
                (old(self)@.0.drop_last(), old(self)@.1)
            } else {
                old(self)@
            },
    {
        match self.before.pop() {
            Some(_) => true,
            None => false,
        }
    }

    /// The number of characters before the cursor: the cursor's index.
    pub fn cursor_index(&self) -> (r: usize)
        ensures
            r == self@.0.len(),
    {
        self.before.len()
    }

    /// The number of characters of the line under edit.
    pub fn len(&self) -> (r: usize)
        requires
            self.content().len() <= MAX_LINE_CHARS,
        ensures
            r == self.content().len(),
    {
        self.before.len() + self.after.len()
    }

    /// The characters before the cursor.
    pub fn before(&self) -> (r: &[char])
        ensures
            r@ == self@.0,
    {
        self.before.as_slice()
    }

    /// The characters after the cursor.
    pub fn after(&self) -> (r: &VecDeque<char>)
        ensures
            r@ == self@.1,
    {
        &self.after
    }

    /// The display column of the cursor: the width of the characters before
    /// it. The characters after it play no part.
    pub fn cursor_width(&self) -> (r: usize)
        requires
            self@.0.len() <= MAX_LINE_CHARS,
        ensures
            r == display_width(self@.0),
    {
        let mut acc: usize = 0;
        let mut i: usize = 0;
        while i < self.before.len()
            invariant
                i <= self@.0.len() <= MAX_LINE_CHARS,
                acc == display_width(self@.0.take(i as int)),
                acc <= 3 * i,
            decreases self@.0.len() - i,
        {
            let c = self.before[i];
            proof {
                assert(self@.0.take(i + 1) =~= self@.0.take(i as int).push(c));
                lemma_display_width_push(self@.0.take(i as int), c);
            }
            acc = acc + columns_of(c);
            i = i + 1;
        }
        assert(self@.0.take(i as int) =~= self@.0);
        acc
    }

    /// Writes the line under edit into `line`, replacing its text, and
    /// empties the buffer.
    pub fn commit(&mut self, line: &mut Line)
        requires
            old(self).content().len() <= MAX_LINE_CHARS,
        ensures
            final(line)@ == old(self).content(),
            final(self)@ == (Seq::<char>::empty(), Seq::<char>::empty()),
    {
        line.reserve(self.before.len() + self.after.len());
        line.clear();
        line.extend(self.before.as_slice());
        let ghost start = line@;
        let mut i: usize = 0;
        while i < self.after.len()
            invariant
                start == self@.0,
                start.len() + self@.1.len() <= MAX_LINE_CHARS,
                i <= self@.1.len(),
                line@ == start + self@.1.take(i as int),
            decreases self@.1.len() - i,
        {
            assert(self@.1.take(i + 1) =~= self@.1.take(i as int).push(self@.1[i as int]));
            line.push(self.after[i]);
            i = i + 1;
        }
        assert(self@.1.take(i as int) =~= self@.1);
        self.before.clear();
        self.after.clear();
    }
}

/// Opening a buffer on a line at any split point and committing it at once
/// gives back the line's text: the part before the split and the part after
/// it make up the whole.
pub proof fn lemma_open_then_commit(line: Seq<char>, k: int)
    requires
        0 <= k <= line.len(),
    ensures
        line.take(k) + line.skip(k) == line,
{
    assert(line.take(k) + line.skip(k) =~= line);
}

} // verus!
