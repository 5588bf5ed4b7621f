//! The buffer that holds the text of the block under the cursor.
//!
//! Editing itself is done by the `tui_textarea` widget. The buffer states
//! what the editor needs of it: the lines it holds and where its cursor is.

use crate::text::{join, joined, lines, same_lines, split_lines, views};
use tui_textarea::{Input, Key, TextArea};
use vstd::prelude::*;

verus! {

/// The editing widget, `tui_textarea::TextArea`.
#[verifier::external_body]
pub struct Area {
    inner: TextArea<'static>,
}

impl Clone for Area {
    /// `TextArea::clone`: a text area that holds the same lines, with its
    /// cursor at the same place.
    #[verifier::external_body]
    fn clone(&self) -> (r: Self)
        ensures
            textarea_lines(r) == textarea_lines(*self),
            textarea_cursor(r) == textarea_cursor(*self),
    {
        Area { inner: self.inner.clone() }
    }
}

/// The lines of text that a text area holds.
pub uninterp spec fn textarea_lines(area: Area) -> Seq<Seq<char>>;

/// The row and column of a text area's cursor, both counted from 0, the
/// column in characters.
pub uninterp spec fn textarea_cursor(area: Area) -> (int, int);

/// A movement of the cursor inside the buffer.
#[derive(Clone, Copy, Debug, PartialEq, Eq)]
pub enum CursorMove {
    Up,
    Down,
    Left,
    Right,
    Top,
    Bottom,
    WordForward,
    WordBackward,
    /// To the given row and column, or as near to them as the text allows.
    Jump(u16, u16),
}

/// The column `col`, or the end of `line` if the line is shorter.
pub open spec fn fit_col(col: int, line: Seq<char>) -> int {
    if col < line.len() {
        col
    } else {
        line.len() as int
    }
}

/// Where `TextArea::move_cursor` puts a cursor that stands at the row
/// `row` and the column `col` of `lines` when it is moved by one word,
/// forward or backward. The widget looks for the next or the previous
/// place where a word begins, a word being a run of characters of one kind
/// (whitespace, ASCII punctuation, any other), and goes on to the line
/// after or before where the line has no such place. What it finds depends
/// on the lines and on the cursor alone.
pub uninterp spec fn word_target(lines: Seq<Seq<char>>, row: int, col: int, forward: bool) -> (
    int,
    int,
);

/// Where the cursor at `at` stands after the movement `m` over `lines`.
pub open spec fn moved(lines: Seq<Seq<char>>, at: (int, int), m: CursorMove) -> (int, int) {
    let (row, col) = at;
    match m {
        CursorMove::Up => if row > 0 {
            (row - 1, fit_col(col, lines[row - 1]))
        } else {
            at
        },
        CursorMove::Down => if row + 1 < lines.len() {
            (row + 1, fit_col(col, lines[row + 1]))
        } else {
            at
        },
        CursorMove::Left => if col > 0 {
            (row, col - 1)
        } else if row > 0 {
            (row - 1, lines[row - 1].len() as int)
        } else {
            at
        },
        CursorMove::Right => if col < lines[row].len() {
            (row, col + 1)
        } else if row + 1 < lines.len() {
            (row + 1, 0)
        } else {
            at
        },
        CursorMove::Top => (0, fit_col(col, lines[0])),
        CursorMove::Bottom => (lines.len() - 1, fit_col(col, lines[lines.len() - 1])),
        CursorMove::Jump(r, c) => {
            let to = if r < lines.len() - 1 {
                r as int
            } else {
                lines.len() - 1
            };
            (to, fit_col(c as int, lines[to]))
        },
        CursorMove::WordForward => word_target(lines, row, col, true),
        CursorMove::WordBackward => word_target(lines, row, col, false),
    }
}

/// `TextArea::new`: a text area over the given lines, or over one empty
/// line if there are none, with the cursor at the top left.
#[verifier::external_body]
fn area_new(lines: Vec<String>) -> (area: Area)
    ensures
        textarea_lines(area) == (if lines@.len() == 0 {
            seq![Seq::<char>::empty()]
        } else {
            views(lines@)
        }),
        textarea_cursor(area) == (0int, 0int),
{
    Area { inner: TextArea::new(lines) }
}

/// `TextArea::lines`: the lines that the text area holds.
#[verifier::external_body]
fn area_lines(area: &Area) -> (lines: Vec<String>)
    ensures
        views(lines@) == textarea_lines(*area),
{
    area.inner.lines().to_vec()
}

/// `TextArea::cursor`: the row and column of the cursor.
#[verifier::external_body]
fn area_cursor(area: &Area) -> (at: (usize, usize))
    ensures
        (at.0 as int, at.1 as int) == textarea_cursor(*area),
{
    area.inner.cursor()
}

/// What a text area holds after `TextArea::input` has handled `input`: its
/// lines, and the row and the column of its cursor. The widget decides by
/// its own key mappings, and from all that it holds (the lines, the cursor,
/// a selection, what was cut, what can be undone) and the input alone.
pub uninterp spec fn after_input(area: Area, input: Input) -> (Seq<Seq<char>>, int, int);

/// `TextArea::input`: handles one key input with the widget's default key
/// mappings. What the text area holds afterwards has a name. The widget
/// also says whether it changed the text; nothing is claimed of that
/// answer.
#[verifier::external_body]
fn area_input(area: &mut Area, input: Input) -> (changed: bool)
    ensures
        (
            textarea_lines(*final(area)),
            textarea_cursor(*final(area)).0,
            textarea_cursor(*final(area)).1,
        ) == after_input(*old(area), input),
{
    area.inner.input(input)
}

/// `TextArea::move_cursor`: moves the cursor and leaves the text alone.
/// Where the cursor lands depends on the lines and on where it stood: it
/// is written out for every movement but the two by words, which have a
/// name.
#[verifier::external_body]
fn area_move_cursor(area: &mut Area, m: CursorMove)
    ensures
        textarea_lines(*final(area)) == textarea_lines(*old(area)),
        m is WordForward ==> textarea_cursor(*final(area)) == word_target(
            textarea_lines(*old(area)),
            textarea_cursor(*old(area)).0,
            textarea_cursor(*old(area)).1,
            true,
        ),
        m is WordBackward ==> textarea_cursor(*final(area)) == word_target(
            textarea_lines(*old(area)),
            textarea_cursor(*old(area)).0,
            textarea_cursor(*old(area)).1,
            false,
        ),
        !(m is WordForward) && !(m is WordBackward) ==> textarea_cursor(*final(area)) == moved(
            textarea_lines(*old(area)),
            textarea_cursor(*old(area)),
            m,
        ),
{
    area.inner.move_cursor(match m {
        CursorMove::Up => tui_textarea::CursorMove::Up,
        CursorMove::Down => tui_textarea::CursorMove::Down,
        CursorMove::Left => tui_textarea::CursorMove::Back,
        CursorMove::Right => tui_textarea::CursorMove::Forward,
        CursorMove::Top => tui_textarea::CursorMove::Top,
        CursorMove::Bottom => tui_textarea::CursorMove::Bottom,
        CursorMove::WordForward => tui_textarea::CursorMove::WordForward,
        CursorMove::WordBackward => tui_textarea::CursorMove::WordBack,
        CursorMove::Jump(row, col) => tui_textarea::CursorMove::Jump(row, col),
    })
}

/// The input that the widget takes for Backspace with the modifiers
/// given.
pub uninterp spec fn backspace_with(ctrl: bool, alt: bool, shift: bool) -> Input;

/// Builds a `tui_textarea::Input`: the key Backspace with the modifiers
/// given.
#[verifier::external_body]
pub(crate) fn backspace(ctrl: bool, alt: bool, shift: bool) -> (r: Input)
    ensures
        r == backspace_with(ctrl, alt, shift),
{
    Input { key: Key::Backspace, ctrl, alt, shift }
}

/// What a buffer holds: its lines, the row and column of its cursor, and
/// whether an input has changed the text since the buffer was made.
pub struct BufferView {
    pub lines: Seq<Seq<char>>,
    pub cursor: (int, int),
    pub modified: bool,
}

/// An editable text of one line or more, with a cursor.
pub struct TextBuffer {
    area: Area,
    modified: bool,
}

impl View for TextBuffer {
    type V = BufferView;

    closed spec fn view(&self) -> BufferView {
        BufferView {
            lines: textarea_lines(self.area),
            cursor: textarea_cursor(self.area),
            modified: self.modified,
        }
    }
}

/// The lines that a buffer made from `text` holds: the lines of the text,
/// or one empty line if the text has none.
pub open spec fn seeded(text: Seq<char>) -> Seq<Seq<char>> {
    if lines(text).len() == 0 {
        seq![Seq::<char>::empty()]
    } else {
        lines(text)
    }
}

/// `n`, or the largest `u16` if `n` is larger.
pub open spec fn clamp_u16(n: int) -> u16 {
    if n > u16::MAX {
        u16::MAX
    } else {
        n as u16
    }
}

/// Where a cursor asked to stand at `at` stands over `lines`: on the last
/// row if there is no such row, at the end of the row if it is shorter.
pub open spec fn placed(lines: Seq<Seq<char>>, at: (int, int)) -> (int, int) {
    moved(lines, (0, 0), CursorMove::Jump(clamp_u16(at.0), clamp_u16(at.1)))
}

/// The text that the lines `lines` make: the lines with a line feed between
/// each two neighbours.
pub open spec fn text_of(lines: Seq<Seq<char>>) -> Seq<char> {
    joined(lines, seq!['\n'])
}

pub(crate) fn to_u16(n: usize) -> (r: u16)
    ensures
        r == clamp_u16(n as int),
{
    if n > 65535 {
        65535
    } else {
        n as u16
    }
}

impl TextBuffer {
    /// A buffer over the lines of `text`, with the cursor at the top left.
    pub fn new(text: &str) -> (r: Self)
        ensures
            r@.lines == seeded(text@),
            r@.cursor == (0int, 0int),
            !r@.modified,
    {
        let lines = split_lines(text);
        TextBuffer { area: area_new(lines), modified: false }
    }

    /// The same buffer with the cursor moved to `at`, or as near to it as
    /// the text allows.
    pub fn with_cursor_position(self, at: (usize, usize)) -> (r: Self)
        ensures
            r@.lines == self@.lines,
            r@.modified == self@.modified,
            r@.cursor == placed(self@.lines, (at.0 as int, at.1 as int)),
    {
        let mut r = self;
        area_move_cursor(&mut r.area, CursorMove::Jump(to_u16(at.0), to_u16(at.1)));
        r
    }

    /// The row and column of the cursor.
    pub fn cursor(&self) -> (at: (usize, usize))
        ensures
            (at.0 as int, at.1 as int) == self@.cursor,
    {
        area_cursor(&self.area)
    }

    /// The lines of the buffer.
    pub fn lines(&self) -> (lines: Vec<String>)
        ensures
            views(lines@) == self@.lines,
    {
        area_lines(&self.area)
    }

    /// The text of the buffer.
    pub fn to_string(&self) -> (text: String)
        ensures
            text@ == text_of(self@.lines),
    {
        let lines = area_lines(&self.area);
        proof {
            reveal_strlit("\n");
            assert("\n"@ =~= seq!['\n']);
        }
        join(&lines, "\n")
    }

    /// Whether an input has changed the text since the buffer was made.
    pub fn is_modified(&self) -> (r: bool)
        ensures
            r == self@.modified,
    {
        self.modified
    }

    /// What the buffer holds after the widget has handled `input`. The
    /// buffer counts as modified from the first input after which it holds
    /// other lines than before.
    pub closed spec fn typed(&self, input: Input) -> BufferView {
        let held = after_input(self.area, input);
        BufferView {
            lines: held.0,
            cursor: (held.1, held.2),
            modified: self.modified || held.0 != textarea_lines(self.area),
        }
    }

    /// Notes whether an input changed the text: the buffer counts as
    /// modified from the first input that did.
    pub fn note_change(&mut self, changed: bool)
        ensures
            final(self)@ == (BufferView {
                modified: old(self)@.modified || changed,
                ..old(self)@
            }),
    {
        if changed {
            self.modified = true;
        }
    }

    /// Hands one key input to the widget, and notes whether the lines are
    /// other than before.
    pub fn edit(&mut self, input: Input)
        ensures
            final(self)@ == old(self).typed(input),
    {
        let before = area_lines(&self.area);
        let _ = area_input(&mut self.area, input);
        let after = area_lines(&self.area);
        let changed = !same_lines(&before, &after);
        self.note_change(changed);
    }

    /// Moves the cursor; the text stays as it is.
    pub fn cursor_move(&mut self, m: CursorMove)
        ensures
            final(self)@.lines == old(self)@.lines,
            final(self)@.modified == old(self)@.modified,
            final(self)@.cursor == moved(old(self)@.lines, old(self)@.cursor, m),
    {
        area_move_cursor(&mut self.area, m);
    }
}

impl Clone for TextBuffer {
    fn clone(&self) -> (r: Self)
        ensures
            r@ == self@,
    {
        TextBuffer { area: self.area.clone(), modified: self.modified }
    }
}

impl Default for TextBuffer {
    fn default() -> (r: Self)
        ensures
            r@.lines == seq![Seq::<char>::empty()],
            r@.cursor == (0int, 0int),
            !r@.modified,
    {
        TextBuffer { area: area_new(Vec::new()), modified: false }
    }
}

} // verus!
