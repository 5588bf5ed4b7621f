//! The state of the editor: the text of a note, its blocks, the block under
//! the cursor and the buffer that holds that block while it is edited.

use crate::note_editor::markdown_parser::{
    blocks, copy_nodes, fits, from_str, lemma_kept_well_placed, markdown_nodes, well_placed,
    within_reach, Node,
};
use crate::note_editor::text_buffer::{
    backspace, backspace_with, clamp_u16, moved, placed, seeded, text_of, to_u16, BufferView,
    CursorMove, TextBuffer,
};
use crate::text::{
    blank, byte_len, byte_slice, head_to, is_blank, lemma_slice_split, lemma_slice_whole, lines,
    on_boundary, slice, split_lines, str_eq, tail_from, views,
};
use ratatui::widgets::ScrollbarState;
use std::ops::Range;
use tui_textarea::Input;
use vstd::prelude::*;
use vstd::string::*;
use vstd::utf8::*;

verus! {

/// `ratatui::widgets::ScrollbarState`: what a scrollbar is drawn from.
#[verifier::external_type_specification]
#[verifier::external_body]
pub struct ExScrollbarState(ScrollbarState);

/// `ScrollbarState::new`: the state of a scrollbar over content of the
/// given length.
#[verifier::external_body]
pub(crate) fn scrollbar_state(content_length: usize) -> ScrollbarState {
    ScrollbarState::new(content_length)
}

/// `ScrollbarState::position`: the same state at another position.
#[verifier::external_body]
pub(crate) fn scrollbar_state_at(state: ScrollbarState, position: usize) -> ScrollbarState {
    state.position(position)
}

/// A scrollbar: what the widget draws from, and the position it stands at.
#[derive(Clone, Copy, Debug, PartialEq)]
pub struct Scrollbar {
    pub state: ScrollbarState,
    pub position: usize,
}

/// How far the editor lets its user into a note.
#[derive(Clone, Copy, Debug, PartialEq, Eq, Structural)]
pub enum Mode {
    Read,
    View,
    Edit,
}

impl Default for Mode {
    fn default() -> (r: Self)
        ensures
            r == Mode::Read,
    {
        Mode::Read
    }
}

impl Mode {
    /// The name of the mode as the status line shows it.
    pub fn to_string(&self) -> (r: String)
        ensures
            r@ == (match *self {
                Mode::View => "VIEW"@,
                Mode::Edit => "EDIT"@,
                Mode::Read => "READ"@,
            }),
    {
        match self {
            Mode::View => "VIEW".to_owned(),
            Mode::Edit => "EDIT".to_owned(),
            Mode::Read => "READ".to_owned(),
        }
    }
}

/// What the editor holds, as plain values.
pub struct EditorView {
    pub mode: Mode,
    pub buffer: BufferView,
    pub content: Seq<char>,
    pub content_original: Seq<char>,
    pub path: Seq<char>,
    pub nodes: Seq<Node>,
    pub scroll_position: usize,
    pub current_row: usize,
    pub active: bool,
    pub modified: bool,
    pub dirty: bool,
    /// Whether the text of a note was loaded into the editor.
    pub has_note: bool,
}

/// What is to be written when a note is saved.
#[derive(Clone, Debug, PartialEq, Eq)]
pub struct SaveRequest {
    pub path: String,
    pub content: String,
}

/// The editor of one note.
pub struct EditorState {
    mode: Mode,
    text_buffer: TextBuffer,
    content: String,
    content_original: String,
    path: String,
    nodes: Vec<Node>,
    scrollbar: Scrollbar,
    current_row: usize,
    active: bool,
    modified: bool,
    dirty: bool,
    has_note: bool,
}

impl View for EditorState {
    type V = EditorView;

    closed spec fn view(&self) -> EditorView {
        EditorView {
            mode: self.mode,
            buffer: self.text_buffer@,
            content: self.content@,
            content_original: self.content_original@,
            path: self.path@,
            nodes: self.nodes@,
            scroll_position: self.scrollbar.position,
            current_row: self.current_row,
            active: self.active,
            modified: self.modified,
            dirty: self.dirty,
            has_note: self.has_note,
        }
    }
}

/// The row `row` held to a document of `n` blocks: the last block where
/// there is no such row. With no block at all the row stays.
pub open spec fn clamp_row(row: usize, n: nat) -> usize {
    if n > 0 && row >= n {
        (n - 1) as usize
    } else {
        row
    }
}

/// The text `content` with the block at `range` replaced by `text`: what
/// stands before the block without its last byte, a line feed, `text`, a
/// line feed, and what stands after the block.
pub open spec fn folded(content: Seq<char>, range: Range<usize>, text: Seq<char>) -> Seq<char> {
    let cut = if range.start > 0 {
        range.start - 1
    } else {
        0
    };
    byte_slice(content, 0, cut) + seq!['\n'] + text + seq!['\n'] + byte_slice(
        content,
        range.end as int,
        byte_len(content),
    )
}

/// The source text of the block at `row`.
pub open spec fn block_text(v: EditorView, row: int) -> Seq<char> {
    byte_slice(
        v.content,
        v.nodes[row].source_range.start as int,
        v.nodes[row].source_range.end as int,
    )
}

/// The buffer after it is filled from the block under the cursor: the lines
/// of that block, the cursor where it was or as near as the new text allows.
/// Without such a block the buffer stays.
pub open spec fn reseeded(v: EditorView) -> BufferView {
    if v.current_row < v.nodes.len() {
        let lines = seeded(block_text(v, v.current_row as int));
        BufferView { lines, cursor: placed(lines, v.buffer.cursor), modified: false }
    } else {
        v.buffer
    }
}

/// The editor after the buffer is folded back into the text. Where that
/// changes the text, the blocks are those of the new text, the row is held
/// to them and the buffer is filled anew.
pub open spec fn reconciled(v: EditorView) -> EditorView {
    if v.current_row < v.nodes.len() {
        let text = folded(
            v.content,
            v.nodes[v.current_row as int].source_range,
            text_of(v.buffer.lines),
        );
        if text == v.content {
            EditorView { modified: v.content != v.content_original, ..v }
        } else {
            let nodes = blocks(text);
            let w = EditorView {
                content: text,
                nodes,
                current_row: clamp_row(v.current_row, nodes.len()),
                modified: text != v.content_original,
                ..v
            };
            EditorView { buffer: reseeded(w), ..w }
        }
    } else {
        v
    }
}

/// Whether the blocks are well placed in the text, the row names one of
/// them where there is any, and the flag `modified` says whether the text
/// differs from what was loaded or last saved.
pub open spec fn well_formed(v: EditorView) -> bool {
    &&& well_placed(v.content, v.nodes)
    &&& v.nodes.len() <= usize::MAX
    &&& v.nodes.len() > 0 ==> v.current_row < v.nodes.len()
    &&& v.modified == (v.content != v.content_original)
}

/// The editor as it is made, before any note is loaded.
pub open spec fn initial() -> EditorView {
    EditorView {
        mode: Mode::Read,
        buffer: BufferView {
            lines: seq![Seq::<char>::empty()],
            cursor: (0int, 0int),
            modified: false,
        },
        content: Seq::<char>::empty(),
        content_original: Seq::<char>::empty(),
        path: Seq::<char>::empty(),
        nodes: Seq::<Node>::empty(),
        scroll_position: 0,
        current_row: 0,
        active: false,
        modified: false,
        dirty: false,
        has_note: false,
    }
}

/// The editor after the text `content` is loaded into it.
pub open spec fn loaded(v: EditorView, content: Seq<char>) -> EditorView {
    let w = EditorView {
        content,
        content_original: content,
        nodes: blocks(content),
        current_row: clamp_row(v.current_row, blocks(content).len()),
        modified: false,
        has_note: true,
        ..v
    };
    EditorView { buffer: reseeded(w), ..w }
}

/// The buffer with the cursor moved by `m`.
pub open spec fn buffer_moved(b: BufferView, m: CursorMove) -> BufferView {
    BufferView { cursor: moved(b.lines, b.cursor, m), ..b }
}

/// The buffer after `text` and a line feed are put before what it holds:
/// the cursor keeps its column and is asked to stand one row below the
/// lines of `text`.
pub open spec fn prepended(b: BufferView, text: Seq<char>) -> BufferView {
    let ls = seeded(text + seq!['\n'] + text_of(b.lines));
    BufferView {
        lines: ls,
        cursor: placed(ls, (lines(text).len() as int + 1, b.cursor.1)),
        modified: false,
    }
}

/// The block that covers `prev` and `cur`, of the kind of `prev`.
pub open spec fn joined_node(prev: Node, cur: Node) -> Node {
    Node {
        kind: prev.kind,
        source_range: Range { start: prev.source_range.start, end: cur.source_range.end },
    }
}

/// The editor after the block under the cursor is merged into the one
/// before it. The text stays; the buffer holds the text of the earlier
/// block before what it held, and the edit is pending.
pub open spec fn merged(v: EditorView) -> EditorView {
    let row = v.current_row as int;
    EditorView {
        nodes: v.nodes.update(row - 1, joined_node(v.nodes[row - 1], v.nodes[row])).remove(row),
        current_row: (row - 1) as usize,
        buffer: prepended(v.buffer, block_text(v, row - 1)),
        dirty: true,
        ..v
    }
}

/// The editor after a pending edit, if there is one, is folded back.
pub open spec fn settled(v: EditorView) -> EditorView {
    if v.dirty {
        EditorView { dirty: false, ..reconciled(v) }
    } else {
        v
    }
}

/// The editor after the cursor enters the block at `row`: the buffer is
/// filled from that block and the cursor moved to the edge `edge`.
pub open spec fn entered(v: EditorView, row: usize, edge: CursorMove) -> EditorView {
    let w = EditorView { current_row: row, ..v };
    EditorView { buffer: buffer_moved(reseeded(w), edge), ..w }
}

/// The editor after the cursor is moved up: inside the buffer while there
/// is a line above, else into the block before, if there is one.
pub open spec fn after_cursor_up(v: EditorView) -> EditorView {
    if v.buffer.cursor.0 == 0 {
        let w = settled(v);
        if w.current_row == 0 {
            w
        } else {
            entered(w, (w.current_row - 1) as usize, CursorMove::Bottom)
        }
    } else {
        EditorView { buffer: buffer_moved(v.buffer, CursorMove::Up), ..v }
    }
}

/// The row of the last block, 0 where there is none.
pub open spec fn last_row(v: EditorView) -> usize {
    if v.nodes.len() > 0 {
        (v.nodes.len() - 1) as usize
    } else {
        0
    }
}

/// The editor after the cursor is moved down: inside the buffer while
/// there is a line below, else into the block after, if there is one.
pub open spec fn after_cursor_down(v: EditorView) -> EditorView {
    if v.buffer.cursor.0 < v.buffer.lines.len() - 1 {
        EditorView { buffer: buffer_moved(v.buffer, CursorMove::Down), ..v }
    } else {
        let w = settled(v);
        if w.current_row == last_row(w) {
            w
        } else if w.current_row < last_row(w) {
            entered(w, (w.current_row + 1) as usize, CursorMove::Top)
        } else {
            entered(w, last_row(w), CursorMove::Top)
        }
    }
}

/// The editor after the block at `row` is made the current one. Where that
/// changes the row, the buffer is filled from the new block.
pub open spec fn at_row(v: EditorView, row: usize) -> EditorView {
    let to = clamp_row(row, v.nodes.len());
    if to == v.current_row {
        v
    } else {
        let w = EditorView { current_row: to, ..v };
        EditorView { buffer: reseeded(w), ..w }
    }
}

/// The column `delta` columns from `col`, not before the first.
pub open spec fn shifted_col(col: int, delta: i32) -> int {
    if col + delta < 0 {
        0
    } else {
        col + delta
    }
}

/// The blocks of a text lie inside it, between characters, and each ends
/// before the next begins: no two overlap.
pub proof fn lemma_blocks_well_placed(text: Seq<char>)
    ensures
        well_placed(text, blocks(text)),
        blocks(text).len() <= usize::MAX,
        forall|i: int|
            0 <= i < blocks(text).len() ==> (#[trigger] blocks(text)[i]).source_range.start
                <= blocks(text)[i].source_range.end <= byte_len(text),
        forall|i: int, j: int|
            0 <= i < j < blocks(text).len() ==> (#[trigger] blocks(text)[i]).source_range.end <= (
            #[trigger] blocks(text)[j]).source_range.start,
{
    lemma_kept_well_placed(text, within_reach(markdown_nodes(text)), 0);
}

/// Folding the buffer back leaves a well-formed editor well formed: for
/// every document and every row, the blocks afterwards lie inside the text
/// and follow one another without overlap, and the row names one of them.
/// Where the text changed they are the blocks of the new text.
pub proof fn lemma_reconciled_well_formed(v: EditorView)
    requires
        well_formed(v),
    ensures
        well_formed(reconciled(v)),
        reconciled(v).content != v.content ==> reconciled(v).nodes == blocks(
            reconciled(v).content,
        ),
        reconciled(v).path == v.path,
        reconciled(v).content_original == v.content_original,
{
    if v.current_row < v.nodes.len() {
        let text = folded(
            v.content,
            v.nodes[v.current_row as int].source_range,
            text_of(v.buffer.lines),
        );
        lemma_blocks_well_placed(text);
    }
}

/// Folding back a text that the block already holds changes nothing:
/// where the folded text is the text of the document, the editor is after
/// the folding what it was before, text and blocks alike.
pub proof fn lemma_reconcile_without_change(v: EditorView)
    requires
        well_formed(v),
        v.current_row < v.nodes.len(),
        folded(v.content, v.nodes[v.current_row as int].source_range, text_of(v.buffer.lines))
            == v.content,
    ensures
        reconciled(v) == v,
{
}

/// When folding changes nothing: the block stands after a line feed, and
/// the text that is folded in is the text of the block without the line
/// feed that ends it.
pub proof fn lemma_fold_same_text(content: Seq<char>, range: Range<usize>, text: Seq<char>)
    requires
        fits(content, range),
        range.start > 0,
        byte_slice(content, range.start - 1, range.start as int) == seq!['\n'],
        byte_slice(content, range.start as int, range.end as int) == text + seq!['\n'],
    ensures
        folded(content, range, text) == content,
{
    let start = range.start as int;
    let end = range.end as int;
    let len = byte_len(content);
    lemma_slice_whole(content);
    lemma_slice_split(content, 0, start - 1, len);
    lemma_slice_split(content, start - 1, start, len);
    lemma_slice_split(content, start, end, len);
    assert(folded(content, range, text) =~= content);
}

/// Merging the block under the cursor into the one before it takes one
/// block away and moves the row up by one; the text stays, and the editor
/// stays well formed.
pub proof fn lemma_merge_removes_one_block(v: EditorView)
    requires
        well_formed(v),
        0 < v.current_row < v.nodes.len(),
    ensures
        merged(v).nodes.len() == v.nodes.len() - 1,
        merged(v).current_row == v.current_row - 1,
        merged(v).content == v.content,
        merged(v).dirty,
        well_formed(merged(v)),
{
    let row = v.current_row as int;
    let joined = joined_node(v.nodes[row - 1], v.nodes[row]);
    let after = merged(v).nodes;
    assert(fits(v.content, v.nodes[row - 1].source_range));
    assert(fits(v.content, v.nodes[row].source_range));
    assert(v.nodes[row - 1].source_range.end <= v.nodes[row].source_range.start);
    assert forall|i: int| 0 <= i < after.len() implies fits(
        v.content,
        #[trigger] after[i].source_range,
    ) by {
        if i < row - 1 {
            assert(after[i] == v.nodes[i]);
        } else if i == row - 1 {
            assert(after[i] == joined);
        } else {
            assert(after[i] == v.nodes[i + 1]);
        }
    }
    assert forall|i: int, j: int| 0 <= i < j < after.len() implies (
    #[trigger] after[i]).source_range.end <= (#[trigger] after[j]).source_range.start by {
        if j < row - 1 {
            assert(after[i] == v.nodes[i]);
            assert(after[j] == v.nodes[j]);
            assert(v.nodes[i].source_range.end <= v.nodes[j].source_range.start);
        } else if j == row - 1 {
            assert(after[i] == v.nodes[i]);
            assert(after[j] == joined);
            assert(v.nodes[i].source_range.end <= v.nodes[row - 1].source_range.start);
        } else {
            assert(after[j] == v.nodes[j + 1]);
            if i < row - 1 {
                assert(after[i] == v.nodes[i]);
                assert(v.nodes[i].source_range.end <= v.nodes[j + 1].source_range.start);
            } else if i == row - 1 {
                assert(after[i] == joined);
                assert(v.nodes[row].source_range.end <= v.nodes[j + 1].source_range.start);
            } else {
                assert(after[i] == v.nodes[i + 1]);
                assert(v.nodes[i + 1].source_range.end <= v.nodes[j + 1].source_range.start);
            }
        }
    }
}

/// On the last line of the last block, with nothing pending, moving the
/// cursor down changes nothing.
pub proof fn lemma_cursor_down_at_the_end(v: EditorView)
    requires
        !v.dirty,
        v.current_row == last_row(v),
        v.buffer.cursor.0 >= v.buffer.lines.len() - 1,
    ensures
        after_cursor_down(v) == v,
{
}

/// Moving the cursor down from the last block never changes the row, and
/// moving it up from the first block never does.
pub proof fn lemma_cursor_stays_inside(v: EditorView)
    requires
        well_formed(v),
    ensures
        well_formed(after_cursor_down(v)),
        well_formed(after_cursor_up(v)),
        v.nodes.len() > 0 && !v.dirty && v.current_row == v.nodes.len() - 1 ==> after_cursor_down(
            v,
        ).current_row == v.current_row,
        !v.dirty && v.current_row == 0 ==> after_cursor_up(v).current_row == 0,
{
    lemma_reconciled_well_formed(v);
}

/// The input of a Backspace with no modifier held down.
pub open spec fn plain_backspace() -> Input {
    backspace_with(false, false, false)
}

/// The editor after the widget has handled an input that leaves `typed` in
/// the buffer: an edit is pending from the first input that changes the
/// text.
pub open spec fn after_typing(v: EditorView, typed: BufferView) -> EditorView {
    EditorView { buffer: typed, dirty: v.dirty || typed.modified, ..v }
}

/// The editor after a deletion, where a Backspace leaves `typed` in the
/// buffer. At the start of a blank buffer the buffer is folded back; at the
/// start of a block that has one before it the two are merged; anywhere
/// else the widget deletes, and an edit is pending.
pub open spec fn after_delete(v: EditorView, typed: BufferView) -> EditorView {
    if v.buffer.cursor == (0int, 0int) && blank(text_of(v.buffer.lines)) {
        reconciled(v)
    } else if v.buffer.cursor == (0int, 0int) && v.current_row != 0 {
        if v.current_row < v.nodes.len() {
            merged(v)
        } else {
            v
        }
    } else {
        EditorView { buffer: typed, dirty: true, ..v }
    }
}

/// Replaces the block at `range` of `content` by `text`.
pub fn fold_block(content: &str, range: &Range<usize>, text: &str) -> (r: String)
    requires
        fits(content@, *range),
    ensures
        r@ == folded(content@, *range, text@),
{
    let cut = if range.start > 0 {
        range.start - 1
    } else {
        0
    };
    proof {
        encode_utf8_valid_utf8(content@);
        is_char_boundary_start_end_of_seq(encode_utf8(content@));
    }
    let head = head_to(content, cut);
    let tail = tail_from(content, range.end);
    let mut r = head.to_owned();
    r.push('\n');
    r.append(text);
    r.push('\n');
    r.append(tail);
    assert(r@ =~= folded(content@, *range, text@));
    r
}

fn clamp(row: usize, n: usize) -> (r: usize)
    ensures
        r == clamp_row(row, n as nat),
{
    if n > 0 && row >= n {
        n - 1
    } else {
        row
    }
}

impl EditorState {
    /// Whether the editor is well formed.
    pub open spec fn wf(&self) -> bool {
        well_formed(self@)
    }

    pub fn content(&self) -> (r: &str)
        ensures
            r@ == self@.content,
    {
        self.content.as_str()
    }

    /// The part of the text between two byte offsets.
    pub fn content_slice(&self, range: Range<usize>) -> (r: &str)
        requires
            range.start <= range.end,
            on_boundary(self@.content, range.start as int),
            on_boundary(self@.content, range.end as int),
        ensures
            r@ == byte_slice(self@.content, range.start as int, range.end as int),
    {
        slice(self.content.as_str(), range.start, range.end)
    }

    pub fn is_editing(&self) -> (r: bool)
        ensures
            r == (self@.mode == Mode::Edit),
    {
        self.mode == Mode::Edit
    }

    pub fn mode(&self) -> (r: Mode)
        ensures
            r == self@.mode,
    {
        self.mode
    }

    pub fn nodes(&self) -> (r: &[Node])
        ensures
            r@ == self@.nodes,
    {
        self.nodes.as_slice()
    }

    pub fn scrollbar(&self) -> (r: &Scrollbar)
        ensures
            r.position == self@.scroll_position,
    {
        &self.scrollbar
    }

    pub fn active(&self) -> (r: bool)
        ensures
            r == self@.active,
    {
        self.active
    }

    pub fn current_row(&self) -> (r: usize)
        ensures
            r == self@.current_row,
    {
        self.current_row
    }

    pub fn modified(&self) -> (r: bool)
        ensures
            r == self@.modified,
    {
        self.modified
    }

    /// Whether the text of a note was loaded into the editor.
    pub fn has_note(&self) -> (r: bool)
        ensures
            r == self@.has_note,
    {
        self.has_note
    }

    /// What the buffer holds after the editing widget has handled `input`.
    pub closed spec fn typed(&self, input: Input) -> BufferView {
        self.text_buffer.typed(input)
    }

    pub fn text_buffer(&self) -> (r: &TextBuffer)
        ensures
            r@ == self@.buffer,
    {
        &self.text_buffer
    }

    /// The buffer, to be changed in place. What the caller makes of it is
    /// what the editor holds afterwards; nothing else changes.
    pub fn text_buffer_as_mut(&mut self) -> (r: &mut TextBuffer)
        ensures
            r@ == old(self)@.buffer,
            final(self)@ == (EditorView { buffer: final(r)@, ..old(self)@ }),
    {
        &mut self.text_buffer
    }

    /// An editor over the text `content` of the note at `path`.
    pub fn new(content: &str, path: String) -> (r: Self)
        ensures
            r.wf(),
            r@ == (EditorView {
                content: content@,
                content_original: content@,
                path: path@,
                nodes: blocks(content@),
                has_note: true,
                ..initial()
            }),
    {
        EditorState {
            mode: Mode::Read,
            text_buffer: TextBuffer::default(),
            content: content.to_owned(),
            content_original: content.to_owned(),
            path,
            nodes: from_str(content),
            scrollbar: Scrollbar { state: scrollbar_state(0), position: 0 },
            current_row: 0,
            active: false,
            modified: false,
            dirty: false,
            has_note: true,
        }
    }

    /// Fills the buffer from the block under the cursor.
    pub fn update_text_buffer(&mut self)
        requires
            old(self).wf(),
        ensures
            final(self).wf(),
            final(self)@ == (EditorView { buffer: reseeded(old(self)@), ..old(self)@ }),
    {
        if self.current_row < self.nodes.len() {
            let start = self.nodes[self.current_row].source_range.start;
            let end = self.nodes[self.current_row].source_range.end;
            let at = self.text_buffer.cursor();
            let buffer = TextBuffer::new(slice(self.content.as_str(), start, end))
                .with_cursor_position(at);
            self.text_buffer = buffer;
        }
    }

    /// Puts `content` and a line feed before what the buffer holds.
    pub fn update_text_buffer_content(&mut self, content: &str)
        ensures
            final(self)@ == (EditorView {
                buffer: prepended(old(self)@.buffer, content@),
                ..old(self)@
            }),
    {
        let text = self.text_buffer.to_string();
        let (_, col) = self.text_buffer.cursor();
        let mut whole = content.to_owned();
        whole.push('\n');
        whole.append(text.as_str());
        let pieces = split_lines(content);
        let row = pieces.len().saturating_add(1);
        proof {
            assert(whole@ =~= content@ + seq!['\n'] + text@);
            assert(views(pieces@).len() == pieces@.len());
            assert(clamp_u16(row as int) == clamp_u16(lines(content@).len() as int + 1));
        }
        let buffer = TextBuffer::new(whole.as_str()).with_cursor_position((row, col));
        self.text_buffer = buffer;
    }

    /// Loads another text into the editor: the blocks are those of the new
    /// text, the row is held to them and the buffer is filled from its block.
    pub fn set_content(&mut self, content: &str)
        ensures
            final(self).wf(),
            final(self)@ == loaded(old(self)@, content@),
    {
        self.nodes = from_str(content);
        self.content_original = content.to_owned();
        self.content = content.to_owned();
        self.current_row = clamp(self.current_row, self.nodes.len());
        self.modified = false;
        self.has_note = true;
        self.update_text_buffer();
    }

    pub fn set_path(&mut self, path: String)
        ensures
            final(self)@ == (EditorView { path: path@, ..old(self)@ }),
    {
        self.path = path;
    }

    /// Folds the buffer back into the text.
    fn intermediate_save(&mut self)
        requires
            old(self).wf(),
        ensures
            final(self).wf(),
            final(self)@ == reconciled(old(self)@),
    {
        if self.current_row < self.nodes.len() {
            let text = self.text_buffer.to_string();
            let complete = fold_block(
                self.content.as_str(),
                &self.nodes[self.current_row].source_range,
                text.as_str(),
            );
            if !str_eq(self.content.as_str(), complete.as_str()) {
                self.nodes = from_str(complete.as_str());
                self.content = complete;
                self.current_row = clamp(self.current_row, self.nodes.len());
                self.modified = !str_eq(self.content.as_str(), self.content_original.as_str());
                self.update_text_buffer();
            } else {
                self.modified = !str_eq(self.content.as_str(), self.content_original.as_str());
            }
        }
    }

    /// Leaves the block that was edited: the buffer is folded back into
    /// the text.
    pub fn exit_insert(&mut self)
        requires
            old(self).wf(),
        ensures
            final(self).wf(),
            final(self)@ == reconciled(old(self)@),
    {
        self.intermediate_save();
    }

    /// Deletes the character before the cursor. At the start of a blank
    /// buffer the buffer is folded back; at the start of a block that has
    /// one before it the two blocks are merged.
    pub fn delete_char(&mut self)
        requires
            old(self).wf(),
        ensures
            final(self).wf(),
            final(self)@ == after_delete(old(self)@, old(self).typed(plain_backspace())),
            old(self)@.buffer.cursor == (0int, 0int) && !blank(text_of(old(self)@.buffer.lines))
                && 0 < old(self)@.current_row < old(self)@.nodes.len() ==> {
                &&& final(self)@.nodes.len() == old(self)@.nodes.len() - 1
                &&& final(self)@.current_row == old(self)@.current_row - 1
            },
    {
        let (row, col) = self.text_buffer.cursor();
        let at_start = row == 0 && col == 0;
        if at_start && is_blank(self.text_buffer.to_string().as_str()) {
            self.intermediate_save();
        } else if at_start && self.current_row != 0 {
            if self.current_row < self.nodes.len() {
                let row = self.current_row;
                let end = self.nodes[row].source_range.end;
                let start = self.nodes[row - 1].source_range.start;
                let kind = self.nodes[row - 1].kind;
                let text = slice(
                    self.content.as_str(),
                    start,
                    self.nodes[row - 1].source_range.end,
                ).to_owned();
                self.update_text_buffer_content(text.as_str());
                self.nodes.set(row - 1, Node { kind, source_range: Range { start, end } });
                self.nodes.remove(row);
                self.current_row = row - 1;
                self.dirty = true;
                assert(self@.nodes =~= merged(old(self)@).nodes);
            }
        } else {
            self.dirty = true;
            self.text_buffer.edit(backspace(false, false, false));
        }
    }

    /// Hands one key input to the buffer. An edit is pending from the first
    /// input that changes the text.
    pub fn edit(&mut self, input: Input)
        ensures
            final(self)@ == after_typing(old(self)@, old(self).typed(input)),
    {
        self.text_buffer.edit(input);
        if self.text_buffer.is_modified() {
            self.dirty = true;
        }
    }

    fn settle(&mut self)
        requires
            old(self).wf(),
        ensures
            final(self).wf(),
            final(self)@ == settled(old(self)@),
    {
        if self.dirty {
            self.intermediate_save();
            self.dirty = false;
        }
    }

    fn enter(&mut self, row: usize, edge: CursorMove)
        requires
            old(self).wf(),
            old(self)@.nodes.len() > 0 ==> row < old(self)@.nodes.len(),
        ensures
            final(self).wf(),
            final(self)@ == entered(old(self)@, row, edge),
    {
        self.current_row = row;
        self.update_text_buffer();
        self.text_buffer.cursor_move(edge);
    }

    /// Moves the cursor up one line, into the block before where the
    /// buffer has no line above. A pending edit is folded back before the
    /// buffer is left.
    pub fn cursor_up(&mut self)
        requires
            old(self).wf(),
        ensures
            final(self).wf(),
            final(self)@ == after_cursor_up(old(self)@),
    {
        let (row, _) = self.text_buffer.cursor();
        if row == 0 {
            self.settle();
            if self.current_row == 0 {
                return ;
            }
            let to = self.current_row - 1;
            self.enter(to, CursorMove::Bottom);
        } else {
            self.text_buffer.cursor_move(CursorMove::Up);
        }
    }

    /// Moves the cursor down one line, into the block after where the
    /// buffer has no line below. A pending edit is folded back before the
    /// buffer is left. On the last line of the last block the cursor stays.
    pub fn cursor_down(&mut self)
        requires
            old(self).wf(),
        ensures
            final(self).wf(),
            final(self)@ == after_cursor_down(old(self)@),
    {
        let (row, _) = self.text_buffer.cursor();
        let count = self.text_buffer.lines().len();
        if count > 0 && row < count - 1 {
            self.text_buffer.cursor_move(CursorMove::Down);
        } else {
            self.settle();
            let last = if self.nodes.len() > 0 {
                self.nodes.len() - 1
            } else {
                0
            };
            if self.current_row == last {
                return ;
            }
            let to = if self.current_row < last {
                self.current_row + 1
            } else {
                last
            };
            self.enter(to, CursorMove::Top);
        }
    }

    pub fn cursor_left(&mut self)
        ensures
            final(self)@ == (EditorView {
                buffer: buffer_moved(old(self)@.buffer, CursorMove::Left),
                ..old(self)@
            }),
    {
        self.text_buffer.cursor_move(CursorMove::Left);
    }

    pub fn cursor_right(&mut self)
        ensures
            final(self)@ == (EditorView {
                buffer: buffer_moved(old(self)@.buffer, CursorMove::Right),
                ..old(self)@
            }),
    {
        self.text_buffer.cursor_move(CursorMove::Right);
    }

    /// Moves the cursor by `cursor_move_col` columns inside its line, not
    /// before the first column nor past the end of the line.
    pub fn cursor_move_col(&mut self, cursor_move_col: i32)
        ensures
            final(self)@ == (EditorView {
                buffer: BufferView {
                    cursor: placed(
                        old(self)@.buffer.lines,
                        (
                            old(self)@.buffer.cursor.0,
                            shifted_col(old(self)@.buffer.cursor.1, cursor_move_col),
                        ),
                    ),
                    ..old(self)@.buffer
                },
                ..old(self)@
            }),
    {
        let (row, col) = self.text_buffer.cursor();
        let to: usize = if cursor_move_col < 0 {
            let back: usize = if cursor_move_col == i32::MIN {
                2147483648
            } else {
                (-cursor_move_col) as usize
            };
            if back > col {
                0
            } else {
                col - back
            }
        } else {
            col.saturating_add(cursor_move_col as usize)
        };
        self.text_buffer.cursor_move(CursorMove::Jump(to_u16(row), to_u16(to)));
    }

    /// Moves the cursor forward by one word, as the editing widget counts
    /// words; the text stays.
    pub fn cursor_word_forward(&mut self)
        ensures
            final(self)@ == (EditorView {
                buffer: buffer_moved(old(self)@.buffer, CursorMove::WordForward),
                ..old(self)@
            }),
    {
        self.text_buffer.cursor_move(CursorMove::WordForward);
    }

    /// Moves the cursor backward by one word, as the editing widget counts
    /// words; the text stays.
    pub fn cursor_word_backward(&mut self)
        ensures
            final(self)@ == (EditorView {
                buffer: buffer_moved(old(self)@.buffer, CursorMove::WordBackward),
                ..old(self)@
            }),
    {
        self.text_buffer.cursor_move(CursorMove::WordBackward);
    }

    /// Makes the block at `row` the current one, or the last block where
    /// there is no such row.
    pub fn set_row(&mut self, row: usize)
        requires
            old(self).wf(),
        ensures
            final(self).wf(),
            final(self)@ == at_row(old(self)@, row),
    {
        let to = clamp(row, self.nodes.len());
        if to != self.current_row {
            self.current_row = to;
            self.update_text_buffer();
        }
    }

    /// What is to be written to save the note: the whole text, to the
    /// note's path, if the text differs from what was loaded or last saved.
    pub fn save(&self) -> (r: Option<SaveRequest>)
        ensures
            self@.modified ==> (r matches Some(q) && q.path@ == self@.path && q.content@
                == self@.content),
            !self@.modified ==> r is None,
    {
        if !self.modified {
            return None;
        }
        Some(SaveRequest { path: self.path.clone(), content: self.content.clone() })
    }

    /// Notes that the text was written: it is now what was last saved.
    pub fn saved(&mut self)
        requires
            old(self).wf(),
        ensures
            final(self).wf(),
            final(self)@ == (EditorView {
                content_original: old(self)@.content,
                modified: false,
                ..old(self)@
            }),
    {
        self.content_original = self.content.clone();
        self.modified = false;
    }

    pub fn scroll_up(&mut self, amount: usize)
        ensures
            final(self)@ == (EditorView {
                scroll_position: if old(self)@.scroll_position >= amount {
                    (old(self)@.scroll_position - amount) as usize
                } else {
                    0
                },
                ..old(self)@
            }),
    {
        let new_position = self.scrollbar.position.saturating_sub(amount);
        let new_state = scrollbar_state_at(self.scrollbar.state, new_position);
        self.scrollbar = Scrollbar { state: new_state, position: new_position };
    }

    pub fn scroll_down(&mut self, amount: usize)
        ensures
            final(self)@ == (EditorView {
                scroll_position: if old(self)@.scroll_position + amount <= usize::MAX {
                    (old(self)@.scroll_position + amount) as usize
                } else {
                    usize::MAX
                },
                ..old(self)@
            }),
    {
        let new_position = self.scrollbar.position.saturating_add(amount);
        let new_state = scrollbar_state_at(self.scrollbar.state, new_position);
        self.scrollbar = Scrollbar { state: new_state, position: new_position };
    }

    pub fn set_mode(&mut self, mode: Mode)
        ensures
            final(self)@ == (EditorView { mode, ..old(self)@ }),
    {
        self.mode = mode;
    }

    pub fn set_active(&mut self, active: bool)
        ensures
            final(self)@ == (EditorView { active, ..old(self)@ }),
    {
        self.active = active;
    }

    /// An editor with nothing loaded, in the mode of this one.
    pub fn reset(self) -> (r: Self)
        ensures
            r.wf(),
            r@ == (EditorView { mode: self@.mode, ..initial() }),
    {
        let mut r = EditorState::default();
        r.mode = self.mode;
        r
    }
}

impl Clone for EditorState {
    fn clone(&self) -> (r: Self)
        ensures
            r@ == self@,
    {
        EditorState {
            mode: self.mode,
            text_buffer: self.text_buffer.clone(),
            content: self.content.clone(),
            content_original: self.content_original.clone(),
            path: self.path.clone(),
            nodes: copy_nodes(self.nodes.as_slice()),
            scrollbar: self.scrollbar,
            current_row: self.current_row,
            active: self.active,
            modified: self.modified,
            dirty: self.dirty,
            has_note: self.has_note,
        }
    }
}

impl Default for EditorState {
    fn default() -> (r: Self)
        ensures
            r.wf(),
            r@ == initial(),
    {
        EditorState {
            mode: Mode::Read,
            text_buffer: TextBuffer::default(),
            content: String::new(),
            content_original: String::new(),
            path: String::new(),
            nodes: Vec::new(),
            scrollbar: Scrollbar { state: scrollbar_state(0), position: 0 },
            current_row: 0,
            active: false,
            modified: false,
            dirty: false,
            has_note: false,
        }
    }
}

} // verus!
