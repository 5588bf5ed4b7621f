//! The modal that shows the help text.

use crate::app::{calc_scroll_amount, scroll_lines, Message as AppMessage, ScrollAmount, Size};
use crate::note_editor::state::{scrollbar_state, scrollbar_state_at};
use crate::text::{lines, split_lines, views};
use ratatui::layout::{Constraint, Flex, Layout, Rect};
use ratatui::widgets::ScrollbarState;
use vstd::prelude::*;

verus! {

/// Where a layout puts its areas in the room that they leave.
#[derive(Clone, Copy, Debug, PartialEq, Eq, Structural)]
pub enum Placement {
    Legacy,
    Start,
    End,
    Center,
    SpaceBetween,
    SpaceAround,
}

/// `Layout::areas`, for a vertical layout of one area that takes the given
/// percentage of a rectangle of the given width and height, placed as
/// asked: the height of that area. The layout is found by a constraint
/// solver; nothing is claimed of the height it gives.
#[verifier::external_body]
fn layout_height(percentage: u16, placement: Placement, width: u16, height: u16) -> usize {
    let flex = match placement {
        Placement::Legacy => Flex::Legacy,
        Placement::Start => Flex::Start,
        Placement::End => Flex::End,
        Placement::Center => Flex::Center,
        Placement::SpaceBetween => Flex::SpaceBetween,
        Placement::SpaceAround => Flex::SpaceAround,
    };
    let vertical = Layout::vertical([Constraint::Percentage(percentage)]).flex(flex);
    let [area] = vertical.areas(Rect::new(0, 0, width, height));
    area.height.into()
}

/// The height of the help modal on a screen of the size `size`: what the
/// layout gives to an area of half the height, centred in the screen
/// without its last three rows.
fn modal_area_height(size: Size) -> usize {
    layout_height(50, Placement::Center, size.width, size.height.saturating_sub(3))
}

#[derive(Clone, Copy, Debug, PartialEq, Eq, Structural)]
pub enum Message {
    Toggle,
    Close,
    ScrollUp(ScrollAmount),
    ScrollDown(ScrollAmount),
}

#[derive(Debug, PartialEq)]
pub struct HelpModalState {
    pub scrollbar_state: ScrollbarState,
    pub scrollbar_position: usize,
    pub text: String,
    pub visible: bool,
}

impl Clone for HelpModalState {
    fn clone(&self) -> (r: Self)
        ensures
            r == *self,
    {
        HelpModalState {
            scrollbar_state: self.scrollbar_state,
            scrollbar_position: self.scrollbar_position,
            text: self.text.clone(),
            visible: self.visible,
        }
    }
}

/// The position `amount` lines above `position`, the top at least.
pub open spec fn scrolled_up(position: usize, amount: usize) -> usize {
    if position >= amount {
        (position - amount) as usize
    } else {
        0
    }
}

/// The position `amount` lines below `position`, the line `limit` at most.
pub open spec fn scrolled_down(position: usize, amount: usize, limit: nat) -> usize {
    if position + amount <= limit {
        (position + amount) as usize
    } else if limit <= usize::MAX {
        limit as usize
    } else {
        usize::MAX
    }
}

/// The position after `message` where the modal is `height` rows high.
pub open spec fn position_after(before: HelpModalState, message: Message, height: usize) -> usize {
    match message {
        Message::ScrollUp(amount) => scrolled_up(
            before.scrollbar_position,
            scroll_lines(amount, height),
        ),
        Message::ScrollDown(amount) => scrolled_down(
            before.scrollbar_position,
            scroll_lines(amount, height),
            lines(before.text@).len(),
        ),
        _ => before.scrollbar_position,
    }
}

/// Whether `after` and `r` are what `message` makes of the help modal
/// `before`. The text stays and nothing follows. How far half a page
/// scrolls depends on the height that the layout gives to the modal: the
/// position is the one for some height. One line is one line whatever the
/// height.
pub open spec fn transition(
    before: HelpModalState,
    after: HelpModalState,
    message: Message,
    r: Option<AppMessage>,
) -> bool {
    &&& r is None
    &&& after.text == before.text
    &&& after.visible == (match message {
        Message::Toggle => !before.visible,
        Message::Close => false,
        _ => before.visible,
    })
    &&& exists|height: usize|
        after.scrollbar_position == #[trigger] position_after(before, message, height)
}

/// Applies one message to the help modal, on a screen of the size
/// `screen_size`.
pub fn update(message: &Message, screen_size: Size, state: &mut HelpModalState) -> (r: Option<
    AppMessage,
>)
    ensures
        transition(*old(state), *final(state), *message, r),
{
    let height = modal_area_height(screen_size);
    match message {
        Message::Toggle => state.toggle_visibility(),
        Message::Close => state.dismiss(),
        Message::ScrollDown(scroll_amount) => {
            state.scroll_down(calc_scroll_amount(scroll_amount, height));
        },
        Message::ScrollUp(scroll_amount) => {
            state.scroll_up(calc_scroll_amount(scroll_amount, height));
        },
    };
    assert(state.scrollbar_position == position_after(*old(state), *message, height));
    None
}

impl HelpModalState {
    /// A hidden modal over `text`, at the top.
    pub fn new(text: &str) -> (r: Self)
        ensures
            r.text@ == text@,
            r.scrollbar_position == 0,
            !r.visible,
    {
        HelpModalState {
            text: text.to_owned(),
            scrollbar_state: scrollbar_state(split_lines(text).len()),
            scrollbar_position: 0,
            visible: false,
        }
    }

    pub fn toggle_visibility(&mut self)
        ensures
            final(self).visible == !old(self).visible,
            final(self).text == old(self).text,
            final(self).scrollbar_position == old(self).scrollbar_position,
            final(self).scrollbar_state == old(self).scrollbar_state,
    {
        self.visible = !self.visible;
    }

    pub fn dismiss(&mut self)
        ensures
            !final(self).visible,
            final(self).text == old(self).text,
            final(self).scrollbar_position == old(self).scrollbar_position,
            final(self).scrollbar_state == old(self).scrollbar_state,
    {
        self.visible = false;
    }

    /// Scrolls `amount` lines up, to the top at most.
    pub fn scroll_up(&mut self, amount: usize)
        ensures
            final(self).scrollbar_position == scrolled_up(old(self).scrollbar_position, amount),
            final(self).text == old(self).text,
            final(self).visible == old(self).visible,
    {
        let scrollbar_position = self.scrollbar_position.saturating_sub(amount);
        let scrollbar_state = scrollbar_state_at(self.scrollbar_state, scrollbar_position);
        self.scrollbar_state = scrollbar_state;
        self.scrollbar_position = scrollbar_position;
    }

    /// Scrolls `amount` lines down, to the line after the last at most.
    pub fn scroll_down(&mut self, amount: usize)
        ensures
            final(self).scrollbar_position == scrolled_down(
                old(self).scrollbar_position,
                amount,
                lines(old(self).text@).len(),
            ),
            final(self).text == old(self).text,
            final(self).visible == old(self).visible,
    {
        let count = split_lines(self.text.as_str());
        assert(views(count@).len() == count@.len());
        let limit = count.len();
        let moved = self.scrollbar_position.saturating_add(amount);
        let scrollbar_position = if moved < limit {
            moved
        } else {
            limit
        };
        let scrollbar_state = scrollbar_state_at(self.scrollbar_state, scrollbar_position);
        self.scrollbar_state = scrollbar_state;
        self.scrollbar_position = scrollbar_position;
    }
}

} // verus!
