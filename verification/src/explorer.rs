//! The explorer: the notes of the open vault.

use crate::app::{
    calc_scroll_amount, scroll_lines, ActivePane, Message as AppMessage, Note, ScrollAmount,
    Size,
};
use crate::outline;
use crate::vault_selector::{last_index, last_of, next_of, previous_of, step_next, step_previous};
use vstd::prelude::*;

verus! {

/// The order in which the notes are listed.
#[derive(Clone, Copy, Debug, PartialEq, Eq, Structural)]
pub enum Sort {
    Asc,
    Desc,
}

#[derive(Clone, Copy, Debug, PartialEq, Eq, Structural)]
pub enum Message {
    Up,
    Down,
    Open,
    Sort,
    Toggle,
    ToggleOutline,
    SwitchPaneNext,
    SwitchPanePrevious,
    ScrollUp(ScrollAmount),
    ScrollDown(ScrollAmount),
}

/// The notes as they are listed, the entry that is highlighted, the entry
/// whose note is open, and whether the pane is shown and has the focus.
#[derive(Clone, Debug, PartialEq)]
pub struct ExplorerState {
    pub title: String,
    pub items: Vec<Note>,
    pub highlighted: Option<usize>,
    pub selected: Option<usize>,
    pub sort: Sort,
    pub open: bool,
    pub active: bool,
}

/// The place of the entry `index` once a list of `len` entries is turned
/// round.
pub open spec fn mirrored(index: Option<usize>, len: nat) -> Option<usize> {
    match index {
        Some(i) => if i < len {
            Some((len - 1 - i) as usize)
        } else {
            Some(i)
        },
        None => None,
    }
}

/// The other order.
pub open spec fn flipped(sort: Sort) -> Sort {
    match sort {
        Sort::Asc => Sort::Desc,
        Sort::Desc => Sort::Asc,
    }
}

/// The entry `amount` entries before the highlighted one, the first at
/// least.
pub open spec fn moved_up(highlighted: Option<usize>, amount: usize) -> Option<usize> {
    match highlighted {
        Some(i) => if i >= amount {
            Some((i - amount) as usize)
        } else {
            Some(0)
        },
        None => Some(0),
    }
}

/// The entry `amount` entries after the highlighted one, the last at most.
pub open spec fn moved_down(highlighted: Option<usize>, amount: usize, len: nat) -> Option<
    usize,
> {
    match highlighted {
        Some(i) => if i + amount <= last_index(len) {
            Some((i + amount) as usize)
        } else {
            Some(last_index(len))
        },
        None => Some(0),
    }
}

/// The explorer after `message`, on a screen of `height` rows.
pub open spec fn updated(s: ExplorerState, message: Message, height: usize) -> ExplorerState {
    match message {
        Message::Up => ExplorerState {
            highlighted: previous_of(s.highlighted, s.items@.len()),
            ..s
        },
        Message::Down => ExplorerState { highlighted: next_of(s.highlighted, s.items@.len()), ..s },
        Message::ScrollUp(amount) => ExplorerState {
            highlighted: moved_up(s.highlighted, scroll_lines(amount, height)),
            ..s
        },
        Message::ScrollDown(amount) => ExplorerState {
            highlighted: moved_down(s.highlighted, scroll_lines(amount, height), s.items@.len()),
            ..s
        },
        Message::Open => ExplorerState {
            selected: if s.highlighted is Some && s.highlighted->0 < s.items@.len() {
                s.highlighted
            } else {
                s.selected
            },
            ..s
        },
        Message::Toggle => ExplorerState { open: !s.open, ..s },
        Message::SwitchPaneNext | Message::SwitchPanePrevious => ExplorerState {
            active: false,
            ..s
        },
        Message::ToggleOutline => s,
        Message::Sort => s,
    }
}

/// The note to load after `message`, if any: the highlighted one on `Open`.
pub open spec fn note_to_load(s: ExplorerState, message: Message) -> Option<Note> {
    if message == Message::Open && s.highlighted is Some && s.highlighted->0 < s.items@.len() {
        Some(s.items@[s.highlighted->0 as int])
    } else {
        None
    }
}

/// What follows `message` where no note is to be loaded.
pub open spec fn followed_by(message: Message) -> Option<AppMessage> {
    match message {
        Message::ToggleOutline => Some(AppMessage::Outline(outline::Message::Toggle)),
        Message::SwitchPaneNext => Some(AppMessage::SetActivePane(ActivePane::NoteEditor)),
        Message::SwitchPanePrevious => Some(AppMessage::SetActivePane(ActivePane::Outline)),
        _ => None,
    }
}

impl ExplorerState {
    /// The explorer of the vault `title` over `items`: shown, in ascending
    /// order, the first entry highlighted and no note open.
    pub fn new(title: &str, items: Vec<Note>) -> (r: Self)
        ensures
            r.title@ == title@,
            r.items == items,
            r.highlighted == Some(0usize),
            r.selected is None,
            r.sort == Sort::Asc,
            r.open,
            !r.active,
    {
        ExplorerState {
            title: title.to_owned(),
            items,
            highlighted: Some(0),
            selected: None,
            sort: Sort::Asc,
            open: true,
            active: false,
        }
    }

    pub fn set_active(&mut self, active: bool)
        ensures
            *final(self) == (ExplorerState { active, ..*old(self) }),
    {
        self.active = active;
    }

    /// Lists the notes in the other order. The highlighted entry and the
    /// entry of the open note stay on their notes.
    pub fn sort(&mut self)
        ensures
            final(self).items@ == old(self).items@.reverse(),
            final(self).sort == flipped(old(self).sort),
            final(self).highlighted == mirrored(old(self).highlighted, old(self).items@.len()),
            final(self).selected == mirrored(old(self).selected, old(self).items@.len()),
            final(self).title == old(self).title,
            final(self).open == old(self).open,
            final(self).active == old(self).active,
    {
        let len = self.items.len();
        let mut turned: Vec<Note> = Vec::new();
        let mut i: usize = len;
        while i > 0
            invariant
                i <= len,
                len == self.items@.len(),
                self.items@ == old(self).items@,
                turned@.len() == len - i,
                forall|k: int| 0 <= k < turned@.len() ==> turned@[k] == self.items@[len - 1 - k],
            decreases i,
        {
            i -= 1;
            turned.push(self.items[i].clone());
        }
        assert(turned@ =~= old(self).items@.reverse());
        self.items = turned;
        self.sort = match self.sort {
            Sort::Asc => Sort::Desc,
            Sort::Desc => Sort::Asc,
        };
        self.highlighted = mirror(self.highlighted, len);
        self.selected = mirror(self.selected, len);
    }
}

fn mirror(index: Option<usize>, len: usize) -> (r: Option<usize>)
    ensures
        r == mirrored(index, len as nat),
{
    match index {
        Some(i) => if i < len {
            Some(len - 1 - i)
        } else {
            Some(i)
        },
        None => None,
    }
}

/// Whether `after` and `r` are what `message` makes of the explorer
/// `before` on a screen of the size `screen_size`. `Sort` turns the list
/// round; every other message leaves the explorer `updated`. `Open` asks
/// for the highlighted note to be loaded.
pub open spec fn transition(
    before: ExplorerState,
    after: ExplorerState,
    message: Message,
    screen_size: Size,
    r: Option<AppMessage>,
) -> bool {
    &&& message != Message::Sort ==> after == updated(
        before,
        message,
        screen_size.height as usize,
    )
    &&& message == Message::Sort ==> {
        &&& after.items@ == before.items@.reverse()
        &&& after.sort == flipped(before.sort)
        &&& after.highlighted == mirrored(before.highlighted, before.items@.len())
        &&& after.selected == mirrored(before.selected, before.items@.len())
        &&& after.title == before.title
        &&& after.open == before.open
        &&& after.active == before.active
    }
    &&& match note_to_load(before, message) {
        Some(note) => r == Some(AppMessage::LoadNote(note)),
        None => r == followed_by(message),
    }
}

/// Applies one message to the explorer, on a screen of the size
/// `screen_size`.
pub fn update(message: &Message, screen_size: Size, state: &mut ExplorerState) -> (r: Option<
    AppMessage,
>)
    ensures
        transition(*old(state), *final(state), *message, screen_size, r),
{
    match message {
        Message::Up => {
            state.highlighted = step_previous(state.highlighted, state.items.len());
        },
        Message::Down => {
            state.highlighted = step_next(state.highlighted, state.items.len());
        },
        Message::ScrollUp(amount) => {
            let by = calc_scroll_amount(amount, screen_size.height as usize);
            state.highlighted = match state.highlighted {
                Some(i) => Some(i.saturating_sub(by)),
                None => Some(0),
            };
        },
        Message::ScrollDown(amount) => {
            let by = calc_scroll_amount(amount, screen_size.height as usize);
            let last = last_of(state.items.len());
            state.highlighted = match state.highlighted {
                Some(i) => if by <= last && i <= last - by {
                    Some(i + by)
                } else {
                    Some(last)
                },
                None => Some(0),
            };
        },
        Message::Open => {
            match state.highlighted {
                Some(i) => {
                    if i < state.items.len() {
                        state.selected = Some(i);
                        return Some(AppMessage::LoadNote(state.items[i].clone()));
                    }
                },
                None => {},
            }
        },
        Message::Sort => state.sort(),
        Message::Toggle => {
            state.open = !state.open;
        },
        Message::ToggleOutline => {
            return Some(AppMessage::Outline(outline::Message::Toggle));
        },
        Message::SwitchPaneNext => {
            state.set_active(false);
            return Some(AppMessage::SetActivePane(ActivePane::NoteEditor));
        },
        Message::SwitchPanePrevious => {
            state.set_active(false);
            return Some(AppMessage::SetActivePane(ActivePane::Outline));
        },
    };
    None
}

} // verus!
