//! The outline: the headings of the open note.

use crate::app::{ActivePane, Message as AppMessage};
use crate::explorer;
use crate::note_editor;
use crate::note_editor::markdown_parser::{Node, NodeKind};
use crate::vault_selector::{next_of, previous_of, step_next, step_previous};
use std::ops::Range;
use vstd::prelude::*;

verus! {

/// An entry of the outline: a heading, the row of its block, its level,
/// the bytes of the source that the block covers, and whether what stands
/// under it is shown.
#[derive(Debug, PartialEq, Eq)]
pub struct OutlineItem {
    pub row: usize,
    pub level: u8,
    pub range: Range<usize>,
    pub expanded: bool,
}

impl Clone for OutlineItem {
    fn clone(&self) -> (r: Self)
        ensures
            r == *self,
    {
        OutlineItem {
            row: self.row,
            level: self.level,
            range: Range { start: self.range.start, end: self.range.end },
            expanded: self.expanded,
        }
    }
}

#[derive(Clone, Debug, PartialEq)]
pub enum Message {
    Up,
    Down,
    Select,
    Expand,
    Toggle,
    ToggleExplorer,
    SwitchPaneNext,
    SwitchPanePrevious,
    SelectAt(usize),
    SetNodes(Vec<Node>),
}

#[derive(Clone, Debug, PartialEq)]
pub struct OutlineState {
    pub items: Vec<OutlineItem>,
    pub selected: Option<usize>,
    pub open: bool,
    pub active: bool,
}

/// The entry for the heading at `row`.
pub open spec fn heading_item(row: int, level: u8, range: Range<usize>) -> OutlineItem {
    OutlineItem { row: row as usize, level, range, expanded: true }
}

/// The entries of the outline of `nodes`: one for each heading, in order,
/// all expanded.
pub open spec fn headings(nodes: Seq<Node>) -> Seq<OutlineItem>
    decreases nodes.len(),
{
    if nodes.len() == 0 {
        seq![]
    } else {
        let before = headings(nodes.drop_last());
        match nodes.last().kind {
            NodeKind::Heading(level) => before.push(
                heading_item(nodes.len() - 1, level, nodes.last().source_range),
            ),
            _ => before,
        }
    }
}

/// The entry under which the block at `row` stands: the last heading at or
/// before that row.
pub open spec fn entry_for(items: Seq<OutlineItem>, row: usize) -> Option<usize>
    decreases items.len(),
{
    if items.len() == 0 {
        None
    } else if items.last().row <= row {
        Some((items.len() - 1) as usize)
    } else {
        entry_for(items.drop_last(), row)
    }
}

/// The entries with the flag of the entry `at` turned over.
pub open spec fn toggled(items: Seq<OutlineItem>, at: int) -> Seq<OutlineItem> {
    items.update(at, OutlineItem { expanded: !items[at].expanded, ..items[at] })
}

/// The outline of `nodes`.
pub fn outline_of(nodes: &[Node]) -> (items: Vec<OutlineItem>)
    ensures
        items@ == headings(nodes@),
{
    let mut items: Vec<OutlineItem> = Vec::new();
    let mut i: usize = 0;
    assert(nodes@.take(0) =~= Seq::<Node>::empty());
    while i < nodes.len()
        invariant
            i <= nodes.len(),
            items@ == headings(nodes@.take(i as int)),
        decreases nodes.len() - i,
    {
        proof {
            assert(nodes@.take(i + 1).drop_last() =~= nodes@.take(i as int));
            assert(nodes@.take(i + 1).last() == nodes@[i as int]);
        }
        match nodes[i].kind {
            NodeKind::Heading(level) => {
                items.push(
                    OutlineItem {
                        row: i,
                        level,
                        range: Range {
                            start: nodes[i].source_range.start,
                            end: nodes[i].source_range.end,
                        },
                        expanded: true,
                    },
                );
            },
            _ => {},
        }
        i += 1;
    }
    assert(nodes@.take(i as int) =~= nodes@);
    items
}

/// The entry under which the block at `row` stands.
pub fn find_entry(items: &Vec<OutlineItem>, row: usize) -> (r: Option<usize>)
    ensures
        r == entry_for(items@, row),
{
    let mut i: usize = items.len();
    assert(items@.take(i as int) =~= items@);
    while i > 0
        invariant
            i <= items.len(),
            entry_for(items@, row) == entry_for(items@.take(i as int), row),
        decreases i,
    {
        proof {
            assert(items@.take(i as int).last() == items@[i - 1]);
            assert(items@.take(i as int).drop_last() =~= items@.take(i - 1));
        }
        if items[i - 1].row <= row {
            return Some(i - 1);
        }
        i -= 1;
    }
    None
}

impl OutlineState {
    /// The outline of `nodes`, with the entry selected under which the
    /// block at `current_row` stands.
    pub fn new(nodes: &[Node], current_row: usize, open: bool) -> (r: Self)
        ensures
            r.items@ == headings(nodes@),
            r.selected == entry_for(headings(nodes@), current_row),
            r.open == open,
            !r.active,
    {
        let items = outline_of(nodes);
        let selected = find_entry(&items, current_row);
        OutlineState { items, selected, open, active: false }
    }

    pub fn is_open(&self) -> (r: bool)
        ensures
            r == self.open,
    {
        self.open
    }

    pub fn set_active(&mut self, active: bool)
        ensures
            *final(self) == (OutlineState { active, ..*old(self) }),
    {
        self.active = active;
    }
}

/// The row that `Select` sends the editor to: that of the selected entry.
pub open spec fn row_to_open(s: OutlineState, message: Message) -> Option<usize> {
    if message is Select && s.selected is Some && s.selected->0 < s.items@.len() {
        Some(s.items@[s.selected->0 as int].row)
    } else {
        None
    }
}

/// What follows `message` where no row is to be opened.
pub open spec fn followed_by(message: Message) -> Option<AppMessage> {
    match message {
        Message::ToggleExplorer => Some(AppMessage::Explorer(explorer::Message::Toggle)),
        Message::SwitchPaneNext => Some(AppMessage::SetActivePane(ActivePane::Explorer)),
        Message::SwitchPanePrevious => Some(AppMessage::SetActivePane(ActivePane::NoteEditor)),
        _ => None,
    }
}

/// The entries after `message`.
pub open spec fn items_after(s: OutlineState, message: Message) -> Seq<OutlineItem> {
    match message {
        Message::Expand => if s.selected is Some && s.selected->0 < s.items@.len() {
            toggled(s.items@, s.selected->0 as int)
        } else {
            s.items@
        },
        Message::SetNodes(nodes) => headings(nodes@),
        _ => s.items@,
    }
}

/// The selected entry after `message`. New entries keep the selection
/// where they still have such an entry.
pub open spec fn selected_after(s: OutlineState, message: Message) -> Option<usize> {
    match message {
        Message::Up => previous_of(s.selected, s.items@.len()),
        Message::Down => next_of(s.selected, s.items@.len()),
        Message::SelectAt(row) => entry_for(s.items@, row),
        Message::SetNodes(nodes) => if s.selected is Some && s.selected->0 < headings(
            nodes@,
        ).len() {
            s.selected
        } else {
            None
        },
        _ => s.selected,
    }
}

/// Whether `after` and `r` are what `message` makes of the outline
/// `before`. `Select` sends the editor to the block of the selected
/// heading.
pub open spec fn transition(
    before: OutlineState,
    after: OutlineState,
    message: Message,
    r: Option<AppMessage>,
) -> bool {
    &&& after.items@ == items_after(before, message)
    &&& after.selected == selected_after(before, message)
    &&& after.open == (if message is Toggle {
        !before.open
    } else {
        before.open
    })
    &&& after.active == (before.active && !(message is SwitchPaneNext) && !(
    message is SwitchPanePrevious))
    &&& match row_to_open(before, message) {
        Some(row) => r == Some(AppMessage::NoteEditor(note_editor::Message::SetRow(row))),
        None => r == followed_by(message),
    }
}

/// Applies one message to the outline.
pub fn update(message: &Message, state: &mut OutlineState) -> (r: Option<AppMessage>)
    ensures
        transition(*old(state), *final(state), *message, r),
{
    match message {
        Message::Up => {
            state.selected = step_previous(state.selected, state.items.len());
        },
        Message::Down => {
            state.selected = step_next(state.selected, state.items.len());
        },
        Message::Select => {
            match state.selected {
                Some(i) => {
                    if i < state.items.len() {
                        return Some(
                            AppMessage::NoteEditor(
                                note_editor::Message::SetRow(state.items[i].row),
                            ),
                        );
                    }
                },
                None => {},
            }
        },
        Message::Expand => {
            match state.selected {
                Some(i) => {
                    if i < state.items.len() {
                        let item = OutlineItem {
                            row: state.items[i].row,
                            level: state.items[i].level,
                            range: Range {
                                start: state.items[i].range.start,
                                end: state.items[i].range.end,
                            },
                            expanded: !state.items[i].expanded,
                        };
                        state.items.set(i, item);
                    }
                },
                None => {},
            }
        },
        Message::Toggle => {
            state.open = !state.open;
        },
        Message::ToggleExplorer => {
            return Some(AppMessage::Explorer(explorer::Message::Toggle));
        },
        Message::SwitchPaneNext => {
            state.set_active(false);
            return Some(AppMessage::SetActivePane(ActivePane::Explorer));
        },
        Message::SwitchPanePrevious => {
            state.set_active(false);
            return Some(AppMessage::SetActivePane(ActivePane::NoteEditor));
        },
        Message::SelectAt(row) => {
            state.selected = find_entry(&state.items, *row);
        },
        Message::SetNodes(nodes) => {
            state.items = outline_of(nodes.as_slice());
            state.selected = match state.selected {
                Some(i) => if i < state.items.len() {
                    Some(i)
                } else {
                    None
                },
                None => None,
            };
        },
    };
    None
}

} // verus!
