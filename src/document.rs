//! The ordered lines of the text being edited.
use vstd::prelude::*;
use crate::line::Line;

verus! {

/// The lines of a text, in display order; row `i` is the `i`-th line.
#[derive(Debug)]
pub struct Document {
    lines: Vec<Line>,
}

impl View for Document {
    type V = Seq<Seq<char>>;

    closed spec fn view(&self) -> Seq<Seq<char>> {
        self.lines@.map_values(|l: Line| l@)
    }
}

impl Document {
    /// The document made of `lines`, in order.
    pub fn from_lines(lines: Vec<Line>) -> (r: Document)
        ensures
            r@ == lines@.map_values(|l: Line| l@),
    {
        Document { lines }
    }

    /// The number of lines.
    pub fn len(&self) -> (r: usize)
        ensures
            r == self@.len(),
    {
        self.lines.len()
    }

    /// The line at `row`, or `None` where there is no such line.
    pub fn get(&self, row: usize) -> (r: Option<&Line>)
        ensures
            r is Some <==> row < self@.len(),
            r matches Some(l) ==> l@ == self@[row as int],
    {
        if row < self.lines.len() {
            Some(&self.lines[row])
        } else {
            None
        }
    }

    /// All lines, in order.
    pub fn lines(&self) -> (r: &[Line])
        ensures
            r@.map_values(|l: Line| l@) == self@,
    {
        self.lines.as_slice()
    }

    /// Inserts `line` at `row`; the lines from `row` on move down by one.
    /// `row` equal to the number of lines appends.
    pub fn insert(&mut self, row: usize, line: Line)
        requires
            row <= old(self)@.len(),
        ensures
            final(self)@ == old(self)@.insert(row as int, line@),
    {
        self.lines.insert(row, line);
        assert(self@ =~= old(self)@.insert(row as int, line@));
    }

    /// Replaces the line at `row` by `line`.
    pub fn set(&mut self, row: usize, line: Line)
        requires
            row < old(self)@.len(),
        ensures
            final(self)@ == old(self)@.update(row as int, line@),
    {
        self.lines.set(row, line);
        assert(self@ =~= old(self)@.update(row as int, line@));
    }

    /// Clears the line at `row`, then rotates the lines from `row` to the
    /// end left by one: each line below moves up a row and the cleared line
    /// becomes the last. The number of lines never changes; a `row` past the
    /// end changes nothing.
    pub fn clear_and_shift(&mut self, row: usize)
        ensures
            row < old(self)@.len() ==> final(self)@ == old(self)@.remove(row as int).push(
                Seq::<char>::empty(),
            ),
            row >= old(self)@.len() ==> final(self)@ == old(self)@,
    {
        if row < self.lines.len() {
            let mut line = self.lines.remove(row);
            line.clear();
            self.lines.push(line);
            assert(self@ =~= old(self)@.remove(row as int).push(Seq::<char>::empty()));
        }
    }
}

} // verus!
