//! The modal editor: a cursor over a document, and the state machine that
//! turns input bytes into cursor moves and edits.
use vstd::prelude::*;
use crate::document::Document;
use crate::edit_buffer::EditBuffer;
use crate::line::{Line, MAX_LINE_CHARS};
use crate::width::display_width;

verus! {

/// Navigation: move the cursor one character left.
pub const KEY_LEFT: u8 = 0x68;
/// Navigation: move the cursor one row down.
pub const KEY_DOWN: u8 = 0x6a;
/// Navigation: move the cursor one row up.
pub const KEY_UP: u8 = 0x6b;
/// Navigation: move the cursor one character right.
pub const KEY_RIGHT: u8 = 0x6c;
/// Navigation: clear the current line and shift the lines below it up.
pub const KEY_CLEAR_LINE: u8 = 0x64;
/// Navigation: start inserting at the cursor.
pub const KEY_INSERT: u8 = 0x69;
/// Navigation: open a new empty line below the cursor and insert there.
pub const KEY_OPEN_BELOW: u8 = 0x6f;
/// Navigation: ask to end the editor.
pub const KEY_QUIT: u8 = 0x71;
/// Insertion: write the line back and return to navigation.
pub const KEY_ESCAPE: u8 = 27;
/// Insertion: delete the character before the cursor.
pub const KEY_BACKSPACE: u8 = 127;

/// The size of the visible text area, in columns and rows.
#[derive(Debug, Clone, Copy)]
pub struct Viewport {
    pub cols: usize,
    pub rows: usize,
}

/// The interaction mode; an insertion session owns its edit buffer.
#[derive(Debug)]
pub enum Mode {
    Navigation,
    Insertion { buffer: EditBuffer },
}

/// The mode as a value: in an insertion session, the characters before and
/// after the cursor.
pub ghost enum ModeView {
    Navigation,
    Insertion { before: Seq<char>, after: Seq<char> },
}

impl View for Mode {
    type V = ModeView;

    open spec fn view(&self) -> ModeView {
        match self {
            Mode::Navigation => ModeView::Navigation,
            Mode::Insertion { buffer } => ModeView::Insertion { before: buffer@.0, after: buffer@.1 },
        }
    }
}

/// The editor as a value.
///
/// `col` is a character index within the current line, not a display
/// column; `target_col` is the column the cursor returns to when it moves
/// between rows. While inserting, the edit buffer, not the row of `lines`,
/// holds the current line.
pub ghost struct EditorView {
    pub lines: Seq<Seq<char>>,
    pub row: nat,
    pub col: nat,
    pub target_col: nat,
    pub rows: nat,
    pub cols: nat,
    pub mode: ModeView,
}

/// The smaller of two naturals.
pub open spec fn min_nat(a: nat, b: nat) -> nat {
    if a <= b {
        a
    } else {
        b
    }
}

/// A byte that insertion mode types into the line: a visible ASCII
/// character or a space.
pub open spec fn is_typed_byte(c: u8) -> bool {
    0x20 <= c <= 0x7e
}

impl EditorView {
    /// The document is never empty, the cursor stands on one of its lines and
    /// within that line, and the line under edit fits in a `Line`.
    pub open spec fn wf(self) -> bool {
        &&& 0 < self.lines.len()
        &&& self.row < self.lines.len()
        &&& match self.mode {
            ModeView::Navigation => self.col <= self.lines[self.row as int].len(),
            ModeView::Insertion { before, after } => {
                &&& self.col == before.len()
                &&& before.len() + after.len() <= MAX_LINE_CHARS
            },
        }
    }

    /// The length of the line at row `r`.
    pub open spec fn len_at(self, r: nat) -> nat {
        self.lines[r as int].len()
    }
}

/// The state after a byte in navigation mode, and whether the editor goes
/// on (`false` only for a request to quit). A move that cannot be made is
/// swallowed.
pub open spec fn navigation_step(v: EditorView, c: u8) -> (EditorView, bool) {
    if c == KEY_LEFT {
        if v.col == 0 {
            (v, true)
        } else {
            (EditorView { col: (v.col - 1) as nat, target_col: (v.col - 1) as nat, ..v }, true)
        }
    } else if c == KEY_RIGHT {
        if v.col >= v.len_at(v.row) {
            (v, true)
        } else {
            (EditorView { col: v.col + 1, target_col: v.col + 1, ..v }, true)
        }
    } else if c == KEY_DOWN {
        if v.row + 1 >= v.rows || v.row + 1 >= v.lines.len() {
            (v, true)
        } else {
            (EditorView { row: v.row + 1, col: min_nat(v.target_col, v.len_at(v.row + 1)), ..v }, true)
        }
    } else if c == KEY_UP {
        if v.row == 0 {
            (v, true)
        } else {
            let r = (v.row - 1) as nat;
            (EditorView { row: r, col: min_nat(v.target_col, v.len_at(r)), ..v }, true)
        }
    } else if c == KEY_CLEAR_LINE {
        let lines = v.lines.remove(v.row as int).push(Seq::<char>::empty());
        (EditorView { lines, col: min_nat(v.target_col, lines[v.row as int].len()), ..v }, true)
    } else if c == KEY_INSERT {
        let line = v.lines[v.row as int];
        (
            EditorView {
                mode: ModeView::Insertion {
                    before: line.take(v.col as int),
                    after: line.skip(v.col as int),
                },
                ..v
            },
            true,
        )
    } else if c == KEY_OPEN_BELOW {
        (
            EditorView {
                lines: v.lines.insert((v.row + 1) as int, Seq::<char>::empty()),
                row: v.row + 1,
                col: 0,
                mode: ModeView::Insertion { before: Seq::<char>::empty(), after: Seq::<char>::empty() },
                ..v
            },
            true,
        )
    } else if c == KEY_QUIT {
        (v, false)
    } else {
        (v, true)
    }
}

/// The state after a byte in insertion mode. Escape writes the line under
/// edit back to its row; backspace deletes before the cursor unless it is at
/// the start; a typed byte is inserted unless the line is full; any other
/// byte is ignored.
pub open spec fn insertion_step(v: EditorView, c: u8) -> EditorView {
    match v.mode {
        ModeView::Navigation => v,
        ModeView::Insertion { before, after } => {
            if c == KEY_ESCAPE {
                EditorView {
                    lines: v.lines.update(v.row as int, before + after),
                    target_col: v.col,
                    mode: ModeView::Navigation,
                    ..v
                }
            } else if c == KEY_BACKSPACE {
                if v.col > 0 {
                    EditorView {
                        col: (v.col - 1) as nat,
                        mode: ModeView::Insertion { before: before.drop_last(), after },
                        ..v
                    }
                } else {
                    v
                }
            } else if is_typed_byte(c) && before.len() + after.len() < MAX_LINE_CHARS {
                EditorView {
                    col: v.col + 1,
                    mode: ModeView::Insertion { before: before.push(c as char), after },
                    ..v
                }
            } else {
                v
            }
        },
    }
}

/// The state after one input byte, and whether the editor goes on.
pub open spec fn key_step(v: EditorView, c: u8) -> (EditorView, bool) {
    match v.mode {
        ModeView::Navigation => navigation_step(v, c),
        ModeView::Insertion { .. } => (insertion_step(v, c), true),
    }
}

/// The state after the same byte `n` times over.
pub open spec fn repeat_key(v: EditorView, c: u8, n: nat) -> EditorView
    decreases n,
{
    if n == 0 {
        v
    } else {
        repeat_key(key_step(v, c).0, c, (n - 1) as nat)
    }
}

/// The editor: a document, a cursor, and the current mode.
#[derive(Debug)]
pub struct EditorState {
    lines: Document,
    viewport: Viewport,
    row: usize,
    col: usize,
    target_col: usize,
    mode: Mode,
}

impl View for EditorState {
    type V = EditorView;

    closed spec fn view(&self) -> EditorView {
        EditorView {
            lines: self.lines@,
            row: self.row as nat,
            col: self.col as nat,
            target_col: self.target_col as nat,
            rows: self.viewport.rows as nat,
            cols: self.viewport.cols as nat,
            mode: self.mode@,
        }
    }
}

impl EditorState {
    pub open spec fn wf(&self) -> bool {
        self@.wf()
    }

    /// An editor on `lines` (one empty line where there are none), in
    /// navigation mode with the cursor at the start of the first line.
    pub fn new(lines: Vec<Line>, viewport: Viewport) -> (r: EditorState)
        ensures
            r.wf(),
            lines@.len() > 0 ==> r@.lines == lines@.map_values(|l: Line| l@),
            lines@.len() == 0 ==> r@.lines == seq![Seq::<char>::empty()],
            r@.row == 0,
            r@.col == 0,
            r@.target_col == 0,
            r@.rows == viewport.rows,
            r@.cols == viewport.cols,
            r@.mode == ModeView::Navigation,
    {
        let mut lines = lines;
        if lines.len() == 0 {
            lines.push(Line::new());
            assert(lines@.map_values(|l: Line| l@) =~= seq![Seq::<char>::empty()]);
        }
        EditorState {
            lines: Document::from_lines(lines),
            viewport,
            row: 0,
            col: 0,
            target_col: 0,
            mode: Mode::Navigation,
        }
    }

    /// The document.
    pub fn lines(&self) -> (r: &Document)
        ensures
            r@ == self@.lines,
    {
        &self.lines
    }

    /// The mode, with the edit buffer of an insertion session.
    pub fn mode(&self) -> (r: &Mode)
        ensures
            r@ == self@.mode,
    {
        &self.mode
    }

    /// The cursor's row.
    pub fn row(&self) -> (r: usize)
        ensures
            r == self@.row,
    {
        self.row
    }

    /// The cursor's character index within its line.
    pub fn col(&self) -> (r: usize)
        ensures
            r == self@.col,
    {
        self.col
    }

    /// The column the cursor keeps to when it moves between rows.
    pub fn target_col(&self) -> (r: usize)
        ensures
            r == self@.target_col,
    {
        self.target_col
    }

    /// The size of the visible text area.
    pub fn viewport(&self) -> (r: Viewport)
        ensures
            r.rows == self@.rows,
            r.cols == self@.cols,
    {
        self.viewport
    }

    /// The line the cursor stands on.
    pub fn get_current_line(&self) -> (r: Option<&Line>)
        ensures
            r is Some <==> self@.row < self@.lines.len(),
            r matches Some(l) ==> l@ == self@.lines[self@.row as int],
    {
        self.lines.get(self.row)
    }

    /// Brings the cursor to the remembered column, or to the end of the
    /// current line where that is shorter.
    fn clamp_col_to_current_line(&mut self)
        requires
            old(self)@.row < old(self)@.lines.len(),
        ensures
            final(self)@ == (EditorView {
                col: min_nat(old(self)@.target_col, old(self)@.len_at(old(self)@.row)),
                ..old(self)@
            }),
    {
        let len = match self.get_current_line() {
            Some(l) => l.len(),
            None => 0,
        };
        self.col = if self.target_col <= len {
            self.target_col
        } else {
            len
        };
    }

    /// Opens an insertion session at the cursor.
    fn enable_insertion_mode(&mut self)
        requires
            old(self).wf(),
            old(self)@.mode is Navigation,
        ensures
            final(self)@ == (EditorView {
                mode: ModeView::Insertion {
                    before: old(self)@.lines[old(self)@.row as int].take(old(self)@.col as int),
                    after: old(self)@.lines[old(self)@.row as int].skip(old(self)@.col as int),
                },
                ..old(self)@
            }),
            final(self).wf(),
    {
        if let Some(line) = self.lines.get(self.row) {
            if self.col <= line.len() {
                let buffer = EditBuffer::open(line, self.col);
                self.mode = Mode::Insertion { buffer };
            }
        }
    }

    /// Handles one byte in navigation mode; returns whether the editor goes
    /// on.
    pub fn handle_keypress_normal(&mut self, c: u8) -> (r: bool)
        requires
            old(self).wf(),
            old(self)@.mode is Navigation,
        ensures
            final(self).wf(),
            (final(self)@, r) == navigation_step(old(self)@, c),
    {
        if c == KEY_LEFT {
            if self.col == 0 {
                return true;
            }
            self.col = self.col - 1;
            self.target_col = self.col;
        } else if c == KEY_RIGHT {
            if let Some(line) = self.get_current_line() {
                if self.col >= line.len() {
                    return true;
                }
            }
            self.col = self.col + 1;
            self.target_col = self.col;
        } else if c == KEY_DOWN {
            let n = self.lines.len();
            if self.row + 1 >= self.viewport.rows || self.row + 1 >= n {
                return true;
            }
            self.row = self.row + 1;
            self.clamp_col_to_current_line();
        } else if c == KEY_UP {
            if self.row == 0 {
                return true;
            }
            self.row = self.row - 1;
            self.clamp_col_to_current_line();
        } else if c == KEY_CLEAR_LINE {
            self.lines.clear_and_shift(self.row);
            self.clamp_col_to_current_line();
        } else if c == KEY_INSERT {
            self.enable_insertion_mode();
        } else if c == KEY_OPEN_BELOW {
            let _n = self.lines.len();
            self.row = self.row + 1;
            self.lines.insert(self.row, Line::new());
            self.col = 0;
            assert(self@.lines[self@.row as int] =~= Seq::<char>::empty());
            assert(Seq::<char>::empty().take(0) =~= Seq::<char>::empty());
            assert(Seq::<char>::empty().skip(0) =~= Seq::<char>::empty());
            self.enable_insertion_mode();
        } else if c == KEY_QUIT {
            return false;
        }
        true
    }

    /// Handles one byte in insertion mode; the editor always goes on.
    pub fn handle_keypress_insertion(&mut self, c: u8) -> (r: bool)
        requires
            old(self).wf(),
            old(self)@.mode is Insertion,
        ensures
            final(self).wf(),
            final(self)@ == insertion_step(old(self)@, c),
            r,
    {
        let mut mode = Mode::Navigation;
        std::mem::swap(&mut self.mode, &mut mode);
        let mut buffer = match mode {
            Mode::Insertion { buffer } => buffer,
            Mode::Navigation => {
                return true;
            },
        };
        if c == KEY_ESCAPE {
            self.target_col = self.col;
            let mut line = Line::new();
            buffer.commit(&mut line);
            self.lines.set(self.row, line);
            return true;
        } else if c == KEY_BACKSPACE {
            if self.col != 0 && buffer.delete_before_cursor() {
                self.col = self.col - 1;
            }
        } else if 0x20 <= c && c <= 0x7e {
            if buffer.len() < MAX_LINE_CHARS {
                buffer.insert_before_cursor(c as char);
                self.col = self.col + 1;
            }
        }
        self.mode = Mode::Insertion { buffer };
        true
    }

    /// Handles one input byte in the current mode; returns whether the
    /// editor goes on.
    pub fn handle_keypress(&mut self, c: u8) -> (r: bool)
        requires
            old(self).wf(),
        ensures
            final(self).wf(),
            (final(self)@, r) == key_step(old(self)@, c),
    {
        if matches!(self.mode, Mode::Navigation) {
            self.handle_keypress_normal(c)
        } else {
            self.handle_keypress_insertion(c)
        }
    }

    /// The display column of the cursor: the width of the characters before
    /// it on the line under edit, or on the current line.
    pub fn cursor_columns(&self) -> (r: usize)
        requires
            self.wf(),
        ensures
            r == match self@.mode {
                ModeView::Navigation => display_width(
                    self@.lines[self@.row as int].take(self@.col as int),
                ),
                ModeView::Insertion { before, .. } => display_width(before),
            },
    {
        match &self.mode {
            Mode::Insertion { buffer } => buffer.cursor_width(),
            Mode::Navigation => match self.lines.get(self.row) {
                Some(line) => line.get_unicode_width_at(self.col),
                None => self.col,
            },
        }
    }
}

/// At the start of a line, moving left any number of times changes
/// nothing.
pub proof fn lemma_left_at_line_start(v: EditorView, n: nat)
    requires
        v.wf(),
        v.mode is Navigation,
        v.col == 0,
    ensures
        repeat_key(v, KEY_LEFT, n) == v,
    decreases n,
{
    if n > 0 {
        lemma_left_at_line_start(v, (n - 1) as nat);
    }
}

/// On the first row, moving up any number of times changes nothing.
pub proof fn lemma_up_at_first_row(v: EditorView, n: nat)
    requires
        v.wf(),
        v.mode is Navigation,
        v.row == 0,
    ensures
        repeat_key(v, KEY_UP, n) == v,
    decreases n,
{
    if n > 0 {
        lemma_up_at_first_row(v, (n - 1) as nat);
    }
}

/// Backspace with the cursor at the start of the line under edit, as at the
/// start of a session opened at column zero, changes nothing.
pub proof fn lemma_backspace_at_session_start(v: EditorView)
    requires
        v.wf(),
        v.mode is Insertion,
        v.col == 0,
    ensures
        key_step(v, KEY_BACKSPACE) == (v, true),
{
}

/// Moving down and then back up returns to the row, with the cursor at the
/// remembered column or the end of the row, whichever comes first; the
/// column it started from is not restored as such.
pub proof fn lemma_down_then_up(v: EditorView)
    requires
        v.wf(),
        v.mode is Navigation,
        v.row + 1 < v.rows,
        v.row + 1 < v.lines.len(),
    ensures
        ({
            let w = key_step(key_step(v, KEY_DOWN).0, KEY_UP).0;
            &&& w.row == v.row
            &&& w.col == min_nat(v.target_col, v.len_at(v.row))
            &&& w.target_col == v.target_col
            &&& w.lines == v.lines
            &&& w.mode == v.mode
        }),
{
}

} // verus!
