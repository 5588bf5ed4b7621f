//! The document editor: a note is edited one block at a time.

pub mod markdown_parser;
pub mod state;
pub mod text_buffer;

pub use state::{EditorState, Mode};
pub use text_buffer::TextBuffer;

use crate::app::{
    calc_scroll_amount, scroll_lines, ActivePane, Message as AppMessage, ScrollAmount, Size,
};
use crate::config::key_binding::{Key, KeyCode};
use crate::explorer;
use crate::help_modal::scrolled_up;
use crate::note_editor::markdown_parser::{copy_nodes, Node};
use crate::note_editor::state::{
    after_cursor_down, after_cursor_up, after_delete, after_typing, at_row, buffer_moved,
    plain_backspace, reconciled, reseeded, EditorView,
};
use crate::note_editor::text_buffer::{BufferView, CursorMove};
use crate::outline;
use tui_textarea::Input;
use vstd::prelude::*;

verus! {

/// `tui_textarea::Input`: one key input as the editing widget takes it.
#[verifier::external_type_specification]
#[verifier::external_body]
pub struct ExInput(Input);

/// `Input::clone`: a copy of the input, equal to it field by field.
pub assume_specification[ <Input as Clone>::clone ](input: &Input) -> (r: Input)
    ensures
        r == *input,
;

/// A key press: the chord, and the same press as the editing widget takes it.
#[derive(Debug, PartialEq)]
pub struct KeyEvent {
    pub key: Key,
    pub input: Input,
}

impl Clone for KeyEvent {
    fn clone(&self) -> (r: Self)
        ensures
            r == *self,
    {
        KeyEvent { key: self.key, input: self.input.clone() }
    }
}

#[derive(Clone, Debug, PartialEq)]
pub enum Message {
    Save,
    /// The text was written, or could not be.
    Saved(bool),
    SwitchPaneNext,
    SwitchPanePrevious,
    ToggleExplorer,
    ToggleOutline,
    EditMode,
    ExitMode,
    ReadMode,
    KeyEvent(KeyEvent),
    CursorUp,
    CursorLeft,
    CursorRight,
    CursorWordForward,
    CursorWordBackward,
    CursorDown,
    ScrollUp(ScrollAmount),
    ScrollDown(ScrollAmount),
    SetRow(usize),
    Delete,
}

/// The input that `message` hands to the editing widget: the key of a
/// `KeyEvent`, and a plain Backspace for `Delete`. No other message hands
/// one over; for them the value is of no account.
pub open spec fn input_of(message: Message) -> Input {
    match message {
        Message::KeyEvent(key) => key.input,
        _ => plain_backspace(),
    }
}

/// The editor after a message that is handled the same in every mode,
/// where the input of the message leaves `typed` in the buffer.
pub open spec fn moved_by(v: EditorView, typed: BufferView, message: Message) -> EditorView {
    match message {
        Message::CursorLeft => EditorView {
            buffer: buffer_moved(v.buffer, CursorMove::Left),
            ..v
        },
        Message::CursorRight => EditorView {
            buffer: buffer_moved(v.buffer, CursorMove::Right),
            ..v
        },
        Message::CursorWordForward => EditorView {
            buffer: buffer_moved(v.buffer, CursorMove::WordForward),
            ..v
        },
        Message::CursorWordBackward => EditorView {
            buffer: buffer_moved(v.buffer, CursorMove::WordBackward),
            ..v
        },
        Message::CursorUp => after_cursor_up(v),
        Message::CursorDown => after_cursor_down(v),
        Message::SetRow(row) => at_row(v, row),
        Message::Saved(written) => if written {
            EditorView { content_original: v.content, modified: false, ..v }
        } else {
            v
        },
        Message::Delete => after_delete(v, typed),
        _ => v,
    }
}

/// The position `amount` lines below `position`.
pub open spec fn scrolled_down(position: usize, amount: usize) -> usize {
    if position + amount <= usize::MAX {
        (position + amount) as usize
    } else {
        usize::MAX
    }
}

/// The editor after `message`, on a screen of `height` rows, where the
/// input of the message leaves `typed` in the buffer.
pub open spec fn stepped(v: EditorView, typed: BufferView, message: Message, height: usize) -> EditorView {
    let w = moved_by(v, typed, message);
    if message is CursorUp || message is CursorDown || message is Saved {
        w
    } else if w.mode == Mode::Edit {
        match message {
            Message::ScrollUp(_) => after_cursor_up(w),
            Message::ScrollDown(_) => after_cursor_down(w),
            Message::ExitMode => EditorView { mode: Mode::View, ..reconciled(w) },
            Message::KeyEvent(_) => after_typing(w, typed),
            _ => w,
        }
    } else {
        viewed(w, message, height)
    }
}

/// Whether `r` reports the text `content` of the open note, and with it
/// the blocks `nodes` where they changed.
pub open spec fn reports(r: Option<AppMessage>, content: Seq<char>, nodes: Option<Seq<Node>>) -> bool {
    r matches Some(AppMessage::UpdateSelectedNoteContent(text, blocks)) && text@ == content && (
    match nodes {
        Some(ns) => blocks matches Some(bs) && bs@ == ns,
        None => blocks is None,
    })
}

/// Whether `r` is what follows `message` in an editor that was in the mode
/// `mode` and that is now as `now` says.
pub open spec fn replied(
    r: Option<AppMessage>,
    message: Message,
    mode: Mode,
    now: EditorView,
) -> bool {
    match message {
        Message::CursorUp | Message::CursorDown => r == Some(
            AppMessage::Outline(outline::Message::SelectAt(now.current_row)),
        ),
        Message::Saved(_) => reports(r, now.content, None),
        Message::KeyEvent(_) => if mode == Mode::Edit {
            reports(r, now.content, None)
        } else {
            r is None
        },
        Message::ExitMode => if mode == Mode::Edit {
            reports(r, now.content, Some(now.nodes))
        } else {
            r is None
        },
        Message::ToggleExplorer => if mode == Mode::Edit {
            r is None
        } else {
            r == Some(AppMessage::Explorer(explorer::Message::Toggle))
        },
        Message::ToggleOutline => if mode == Mode::Edit {
            r is None
        } else {
            r == Some(AppMessage::Outline(outline::Message::Toggle))
        },
        Message::SwitchPaneNext => if mode == Mode::Edit {
            r is None
        } else {
            r == Some(AppMessage::SetActivePane(ActivePane::Outline))
        },
        Message::SwitchPanePrevious => if mode == Mode::Edit {
            r is None
        } else {
            r == Some(AppMessage::SetActivePane(ActivePane::Explorer))
        },
        Message::Save => if mode == Mode::Edit {
            r is None
        } else if now.modified {
            r matches Some(AppMessage::WriteNote(q)) && q.path@ == now.path && q.content@
                == now.content
        } else {
            reports(r, now.content, None)
        },
        _ => r is None,
    }
}

/// The first part of `update`: what is handled the same in every mode.
/// The result is `Some` where nothing more is to be done.
fn update_in_any_mode(message: &Message, state: &mut EditorState) -> (r: Option<
    Option<AppMessage>,
>)
    requires
        old(state).wf(),
    ensures
        final(state).wf(),
        final(state)@.mode == old(state)@.mode,
        final(state)@ == moved_by(old(state)@, old(state).typed(input_of(*message)), *message),
        *message is KeyEvent ==> *final(state) == *old(state),
        r is Some <==> (*message is CursorUp || *message is CursorDown || *message is Saved),
        r matches Some(reply) ==> replied(reply, *message, old(state)@.mode, final(state)@),
{
    match message {
        Message::CursorLeft => state.cursor_left(),
        Message::CursorRight => state.cursor_right(),
        Message::CursorWordForward => state.cursor_word_forward(),
        Message::CursorWordBackward => state.cursor_word_backward(),
        Message::Delete => state.delete_char(),
        Message::SetRow(row) => state.set_row(*row),
        Message::CursorUp => {
            state.cursor_up();
            return Some(
                Some(AppMessage::Outline(outline::Message::SelectAt(state.current_row()))),
            );
        },
        Message::CursorDown => {
            state.cursor_down();
            return Some(
                Some(AppMessage::Outline(outline::Message::SelectAt(state.current_row()))),
            );
        },
        Message::Saved(written) => {
            if *written {
                state.saved();
            }
            return Some(
                Some(AppMessage::UpdateSelectedNoteContent(state.content().to_owned(), None)),
            );
        },
        _ => {},
    };
    None
}

/// The second part of `update` while a block is edited.
fn update_while_editing(message: &Message, state: &mut EditorState) -> (r: Option<AppMessage>)
    requires
        old(state).wf(),
        old(state)@.mode == Mode::Edit,
        !(*message is CursorUp || *message is CursorDown || *message is Saved),
    ensures
        final(state).wf(),
        final(state)@ == (match *message {
            Message::ScrollUp(_) => after_cursor_up(old(state)@),
            Message::ScrollDown(_) => after_cursor_down(old(state)@),
            Message::ExitMode => EditorView { mode: Mode::View, ..reconciled(old(state)@) },
            Message::KeyEvent(_) => after_typing(
                old(state)@,
                old(state).typed(input_of(*message)),
            ),
            _ => old(state)@,
        }),
        replied(r, *message, Mode::Edit, final(state)@),
{
    match message {
        Message::ScrollUp(_) => state.cursor_up(),
        Message::ScrollDown(_) => state.cursor_down(),
        Message::KeyEvent(key) => {
            state.edit(key.input.clone());
            return Some(AppMessage::UpdateSelectedNoteContent(state.content().to_owned(), None));
        },
        Message::ExitMode => {
            state.exit_insert();
            state.set_mode(Mode::View);
            return Some(
                AppMessage::UpdateSelectedNoteContent(
                    state.content().to_owned(),
                    Some(copy_nodes(state.nodes())),
                ),
            );
        },
        _ => {},
    }
    None
}

/// The editor after `message` while no block is edited, on a screen of
/// `height` rows.
pub open spec fn viewed(w: EditorView, message: Message, height: usize) -> EditorView {
    match message {
        Message::EditMode => if w.has_note {
            EditorView { mode: Mode::Edit, buffer: reseeded(w), ..w }
        } else {
            w
        },
        Message::ReadMode => EditorView { mode: Mode::Read, ..w },
        Message::ExitMode => EditorView { mode: Mode::View, ..w },
        Message::SetRow(row) => at_row(w, row),
        Message::ScrollUp(amount) => EditorView {
            scroll_position: scrolled_up(w.scroll_position, scroll_lines(amount, height)),
            ..w
        },
        Message::ScrollDown(amount) => EditorView {
            scroll_position: scrolled_down(w.scroll_position, scroll_lines(amount, height)),
            ..w
        },
        Message::SwitchPaneNext | Message::SwitchPanePrevious => EditorView { active: false, ..w },
        _ => w,
    }
}

/// The second part of `update` while no block is edited.
fn update_while_viewing(message: &Message, screen_size: Size, state: &mut EditorState) -> (r:
    Option<AppMessage>)
    requires
        old(state).wf(),
        old(state)@.mode != Mode::Edit,
        !(*message is CursorUp || *message is CursorDown || *message is Saved),
    ensures
        final(state).wf(),
        final(state)@ == viewed(old(state)@, *message, screen_size.height as usize),
        replied(r, *message, old(state)@.mode, final(state)@),
{
    match message {
        Message::EditMode => {
            if state.has_note() {
                state.set_mode(Mode::Edit);
                state.update_text_buffer();
            }
        },
        Message::ReadMode => state.set_mode(Mode::Read),
        Message::ExitMode => state.set_mode(Mode::View),
        Message::SetRow(row) => state.set_row(*row),
        Message::ScrollUp(scroll_amount) => {
            state.scroll_up(calc_scroll_amount(scroll_amount, screen_size.height as usize));
        },
        Message::ScrollDown(scroll_amount) => {
            state.scroll_down(calc_scroll_amount(scroll_amount, screen_size.height as usize));
        },
        Message::ToggleExplorer => {
            return Some(AppMessage::Explorer(explorer::Message::Toggle));
        },
        Message::ToggleOutline => {
            return Some(AppMessage::Outline(outline::Message::Toggle));
        },
        Message::SwitchPaneNext => {
            state.set_active(false);
            return Some(AppMessage::SetActivePane(ActivePane::Outline));
        },
        Message::SwitchPanePrevious => {
            state.set_active(false);
            return Some(AppMessage::SetActivePane(ActivePane::Explorer));
        },
        Message::Save => {
            return match state.save() {
                Some(request) => Some(AppMessage::WriteNote(request)),
                None => Some(
                    AppMessage::UpdateSelectedNoteContent(state.content().to_owned(), None),
                ),
            };
        },
        _ => {},
    }
    None
}

/// Whether `after` and `r` are what `message` makes of the editor
/// `before` on a screen of the size `screen_size`, where the input of the
/// message leaves `typed` in the buffer.
pub open spec fn transition(
    before: EditorView,
    typed: BufferView,
    after: EditorView,
    message: Message,
    screen_size: Size,
    r: Option<AppMessage>,
) -> bool {
    &&& after == stepped(before, typed, message, screen_size.height as usize)
    &&& replied(r, message, before.mode, after)
}

/// Applies one message to the editor, on a screen of the size
/// `screen_size`. A block is opened for editing only where a note was
/// loaded.
pub fn update(message: &Message, screen_size: Size, state: &mut EditorState) -> (r: Option<
    AppMessage,
>)
    requires
        old(state).wf(),
    ensures
        final(state).wf(),
        transition(
            old(state)@,
            old(state).typed(input_of(*message)),
            final(state)@,
            *message,
            screen_size,
            r,
        ),
{
    match update_in_any_mode(message, state) {
        Some(reply) => {
            return reply;
        },
        None => {},
    }
    match state.mode() {
        Mode::Edit => update_while_editing(message, state),
        Mode::View | Mode::Read => update_while_viewing(message, screen_size, state),
    }
}

/// The message that a key gives while a block is edited: the arrows up and
/// down move between lines and blocks, Escape leaves the block, Backspace
/// deletes, and every other key goes to the buffer.
pub open spec fn editing_message(key: KeyEvent) -> Message {
    match key.key.code {
        KeyCode::Up => Message::CursorUp,
        KeyCode::Down => Message::CursorDown,
        KeyCode::Esc => Message::ExitMode,
        KeyCode::Backspace => Message::Delete,
        _ => Message::KeyEvent(key),
    }
}

pub fn handle_editing_event(key: &KeyEvent) -> (r: Option<Message>)
    ensures
        r == Some(editing_message(*key)),
{
    match key.key.code {
        KeyCode::Up => Some(Message::CursorUp),
        KeyCode::Down => Some(Message::CursorDown),
        KeyCode::Esc => Some(Message::ExitMode),
        KeyCode::Backspace => Some(Message::Delete),
        _ => Some(Message::KeyEvent(key.clone())),
    }
}

} // verus!
