//! The commands that a key can be bound to, and what each asks of the
//! application.

use crate::app::{Effect, Message as AppMessage, ScrollAmount};
use crate::explorer;
use crate::help_modal;
use crate::note_editor;
use crate::outline;
use crate::splash_modal;
use crate::config::key_binding::{ConfigError, ConfigErrorView};
use crate::text::{
    followed_by_text, join, joined, replace_all, replaced, skip_chars, split_words, starts_with, str_eq,
    views, words,
};
use crate::vault_selector_modal;
use vstd::prelude::*;

verus! {

/// What a key binding asks for.
#[derive(Clone, Debug, PartialEq)]
pub enum Command {
    Quit,
    SplashUp,
    SplashDown,
    SplashOpen,
    ExplorerUp,
    ExplorerDown,
    ExplorerOpen,
    ExplorerSort,
    ExplorerToggle,
    ExplorerToggleOutline,
    ExplorerSwitchPaneNext,
    ExplorerSwitchPanePrevious,
    ExplorerScrollUpOne,
    ExplorerScrollDownOne,
    ExplorerScrollUpHalfPage,
    ExplorerScrollDownHalfPage,
    OutlineUp,
    OutlineDown,
    OutlineSelect,
    OutlineExpand,
    OutlineToggle,
    OutlineToggleExplorer,
    OutlineSwitchPaneNext,
    OutlineSwitchPanePrevious,
    HelpModalScrollUpOne,
    HelpModalScrollDownOne,
    HelpModalScrollUpHalfPage,
    HelpModalScrollDownHalfPage,
    HelpModalToggle,
    HelpModalClose,
    NoteEditorScrollUpOne,
    NoteEditorScrollDownOne,
    NoteEditorScrollUpHalfPage,
    NoteEditorScrollDownHalfPage,
    NoteEditorSwitchPaneNext,
    NoteEditorSwitchPanePrevious,
    NoteEditorToggleExplorer,
    NoteEditorToggleOutline,
    NoteEditorCursorUp,
    NoteEditorCursorDown,
    NoteEditorExperimentalCursorWordForward,
    NoteEditorExperimentalCursorWordBackward,
    NoteEditorExperimentalSetEditMode,
    NoteEditorExperimentalSetReadMode,
    NoteEditorExperimentalSave,
    NoteEditorExperimentalExitMode,
    NoteEditorExperimentalCursorLeft,
    NoteEditorExperimentalCursorRight,
    VaultSelectorModalUp,
    VaultSelectorModalDown,
    VaultSelectorModalClose,
    VaultSelectorModalOpen,
    VaultSelectorModalToggle,
    /// Run the command line and wait for it.
    Exec(String),
    /// Start the command line and go on.
    Spawn(String),
}

/// The command of the name `s`.
pub open spec fn command_named(s: Seq<char>) -> Option<Command> {
    if s == "quit"@ {
        Some(Command::Quit)
    } else if s == "splash_up"@ {
        Some(Command::SplashUp)
    } else if s == "splash_down"@ {
        Some(Command::SplashDown)
    } else if s == "splash_open"@ {
        Some(Command::SplashOpen)
    } else if s == "explorer_up"@ {
        Some(Command::ExplorerUp)
    } else if s == "explorer_down"@ {
        Some(Command::ExplorerDown)
    } else if s == "explorer_open"@ {
        Some(Command::ExplorerOpen)
    } else if s == "explorer_sort"@ {
        Some(Command::ExplorerSort)
    } else if s == "explorer_toggle"@ {
        Some(Command::ExplorerToggle)
    } else if s == "explorer_toggle_outline"@ {
        Some(Command::ExplorerToggleOutline)
    } else if s == "explorer_switch_pane_next"@ {
        Some(Command::ExplorerSwitchPaneNext)
    } else if s == "explorer_switch_pane_previous"@ {
        Some(Command::ExplorerSwitchPanePrevious)
    } else if s == "explorer_scroll_up_one"@ {
        Some(Command::ExplorerScrollUpOne)
    } else if s == "explorer_scroll_down_one"@ {
        Some(Command::ExplorerScrollDownOne)
    } else if s == "explorer_scroll_up_half_page"@ {
        Some(Command::ExplorerScrollUpHalfPage)
    } else if s == "explorer_scroll_down_half_page"@ {
        Some(Command::ExplorerScrollDownHalfPage)
    } else if s == "outline_up"@ {
        Some(Command::OutlineUp)
    } else if s == "outline_down"@ {
        Some(Command::OutlineDown)
    } else if s == "outline_select"@ {
        Some(Command::OutlineSelect)
    } else if s == "outline_expand"@ {
        Some(Command::OutlineExpand)
    } else if s == "outline_toggle"@ {
        Some(Command::OutlineToggle)
    } else if s == "outline_toggle_explorer"@ {
        Some(Command::OutlineToggleExplorer)
    } else if s == "outline_switch_pane_next"@ {
        Some(Command::OutlineSwitchPaneNext)
    } else if s == "outline_switch_pane_previous"@ {
        Some(Command::OutlineSwitchPanePrevious)
    } else if s == "help_modal_scroll_up_one"@ {
        Some(Command::HelpModalScrollUpOne)
    } else if s == "help_modal_scroll_down_one"@ {
        Some(Command::HelpModalScrollDownOne)
    } else if s == "help_modal_scroll_up_half_page"@ {
        Some(Command::HelpModalScrollUpHalfPage)
    } else if s == "help_modal_scroll_down_half_page"@ {
        Some(Command::HelpModalScrollDownHalfPage)
    } else if s == "help_modal_toggle"@ {
        Some(Command::HelpModalToggle)
    } else if s == "help_modal_close"@ {
        Some(Command::HelpModalClose)
    } else if s == "note_editor_scroll_up_one"@ {
        Some(Command::NoteEditorScrollUpOne)
    } else if s == "note_editor_scroll_down_one"@ {
        Some(Command::NoteEditorScrollDownOne)
    } else if s == "note_editor_scroll_up_half_page"@ {
        Some(Command::NoteEditorScrollUpHalfPage)
    } else if s == "note_editor_scroll_down_half_page"@ {
        Some(Command::NoteEditorScrollDownHalfPage)
    } else if s == "note_editor_switch_pane_next"@ {
        Some(Command::NoteEditorSwitchPaneNext)
    } else if s == "note_editor_switch_pane_previous"@ {
        Some(Command::NoteEditorSwitchPanePrevious)
    } else if s == "note_editor_toggle_explorer"@ {
        Some(Command::NoteEditorToggleExplorer)
    } else if s == "note_editor_toggle_outline"@ {
        Some(Command::NoteEditorToggleOutline)
    } else if s == "note_editor_cursor_up"@ {
        Some(Command::NoteEditorCursorUp)
    } else if s == "note_editor_cursor_down"@ {
        Some(Command::NoteEditorCursorDown)
    } else if s == "note_editor_experimental_cursor_word_forward"@ {
        Some(Command::NoteEditorExperimentalCursorWordForward)
    } else if s == "note_editor_experimental_cursor_word_backward"@ {
        Some(Command::NoteEditorExperimentalCursorWordBackward)
    } else if s == "note_editor_experimental_set_edit_mode"@ {
        Some(Command::NoteEditorExperimentalSetEditMode)
    } else if s == "note_editor_experimental_set_read_mode"@ {
        Some(Command::NoteEditorExperimentalSetReadMode)
    } else if s == "note_editor_experimental_save"@ {
        Some(Command::NoteEditorExperimentalSave)
    } else if s == "note_editor_experimental_exit_mode"@ {
        Some(Command::NoteEditorExperimentalExitMode)
    } else if s == "note_editor_experimental_cursor_left"@ {
        Some(Command::NoteEditorExperimentalCursorLeft)
    } else if s == "note_editor_experimental_cursor_right"@ {
        Some(Command::NoteEditorExperimentalCursorRight)
    } else if s == "vault_selector_modal_up"@ {
        Some(Command::VaultSelectorModalUp)
    } else if s == "vault_selector_modal_down"@ {
        Some(Command::VaultSelectorModalDown)
    } else if s == "vault_selector_modal_close"@ {
        Some(Command::VaultSelectorModalClose)
    } else if s == "vault_selector_modal_open"@ {
        Some(Command::VaultSelectorModalOpen)
    } else if s == "vault_selector_modal_toggle"@ {
        Some(Command::VaultSelectorModalToggle)
    } else {
        None
    }
}

/// Reads the name of a command.
pub fn str_to_command(s: &str) -> (r: Option<Command>)
    ensures
        r == command_named(s@),
{
    if str_eq(s, "quit") {
        Some(Command::Quit)
    } else if str_eq(s, "splash_up") {
        Some(Command::SplashUp)
    } else if str_eq(s, "splash_down") {
        Some(Command::SplashDown)
    } else if str_eq(s, "splash_open") {
        Some(Command::SplashOpen)
    } else if str_eq(s, "explorer_up") {
        Some(Command::ExplorerUp)
    } else if str_eq(s, "explorer_down") {
        Some(Command::ExplorerDown)
    } else if str_eq(s, "explorer_open") {
        Some(Command::ExplorerOpen)
    } else if str_eq(s, "explorer_sort") {
        Some(Command::ExplorerSort)
    } else if str_eq(s, "explorer_toggle") {
        Some(Command::ExplorerToggle)
    } else if str_eq(s, "explorer_toggle_outline") {
        Some(Command::ExplorerToggleOutline)
    } else if str_eq(s, "explorer_switch_pane_next") {
        Some(Command::ExplorerSwitchPaneNext)
    } else if str_eq(s, "explorer_switch_pane_previous") {
        Some(Command::ExplorerSwitchPanePrevious)
    } else if str_eq(s, "explorer_scroll_up_one") {
        Some(Command::ExplorerScrollUpOne)
    } else if str_eq(s, "explorer_scroll_down_one") {
        Some(Command::ExplorerScrollDownOne)
    } else if str_eq(s, "explorer_scroll_up_half_page") {
        Some(Command::ExplorerScrollUpHalfPage)
    } else if str_eq(s, "explorer_scroll_down_half_page") {
        Some(Command::ExplorerScrollDownHalfPage)
    } else if str_eq(s, "outline_up") {
        Some(Command::OutlineUp)
    } else if str_eq(s, "outline_down") {
        Some(Command::OutlineDown)
    } else if str_eq(s, "outline_select") {
        Some(Command::OutlineSelect)
    } else if str_eq(s, "outline_expand") {
        Some(Command::OutlineExpand)
    } else if str_eq(s, "outline_toggle") {
        Some(Command::OutlineToggle)
    } else if str_eq(s, "outline_toggle_explorer") {
        Some(Command::OutlineToggleExplorer)
    } else if str_eq(s, "outline_switch_pane_next") {
        Some(Command::OutlineSwitchPaneNext)
    } else if str_eq(s, "outline_switch_pane_previous") {
        Some(Command::OutlineSwitchPanePrevious)
    } else if str_eq(s, "help_modal_scroll_up_one") {
        Some(Command::HelpModalScrollUpOne)
    } else if str_eq(s, "help_modal_scroll_down_one") {
        Some(Command::HelpModalScrollDownOne)
    } else if str_eq(s, "help_modal_scroll_up_half_page") {
        Some(Command::HelpModalScrollUpHalfPage)
    } else if str_eq(s, "help_modal_scroll_down_half_page") {
        Some(Command::HelpModalScrollDownHalfPage)
    } else if str_eq(s, "help_modal_toggle") {
        Some(Command::HelpModalToggle)
    } else if str_eq(s, "help_modal_close") {
        Some(Command::HelpModalClose)
    } else if str_eq(s, "note_editor_scroll_up_one") {
        Some(Command::NoteEditorScrollUpOne)
    } else if str_eq(s, "note_editor_scroll_down_one") {
        Some(Command::NoteEditorScrollDownOne)
    } else if str_eq(s, "note_editor_scroll_up_half_page") {
        Some(Command::NoteEditorScrollUpHalfPage)
    } else if str_eq(s, "note_editor_scroll_down_half_page") {
        Some(Command::NoteEditorScrollDownHalfPage)
    } else if str_eq(s, "note_editor_switch_pane_next") {
        Some(Command::NoteEditorSwitchPaneNext)
    } else if str_eq(s, "note_editor_switch_pane_previous") {
        Some(Command::NoteEditorSwitchPanePrevious)
    } else if str_eq(s, "note_editor_toggle_explorer") {
        Some(Command::NoteEditorToggleExplorer)
    } else if str_eq(s, "note_editor_toggle_outline") {
        Some(Command::NoteEditorToggleOutline)
    } else if str_eq(s, "note_editor_cursor_up") {
        Some(Command::NoteEditorCursorUp)
    } else if str_eq(s, "note_editor_cursor_down") {
        Some(Command::NoteEditorCursorDown)
    } else if str_eq(s, "note_editor_experimental_cursor_word_forward") {
        Some(Command::NoteEditorExperimentalCursorWordForward)
    } else if str_eq(s, "note_editor_experimental_cursor_word_backward") {
        Some(Command::NoteEditorExperimentalCursorWordBackward)
    } else if str_eq(s, "note_editor_experimental_set_edit_mode") {
        Some(Command::NoteEditorExperimentalSetEditMode)
    } else if str_eq(s, "note_editor_experimental_set_read_mode") {
        Some(Command::NoteEditorExperimentalSetReadMode)
    } else if str_eq(s, "note_editor_experimental_save") {
        Some(Command::NoteEditorExperimentalSave)
    } else if str_eq(s, "note_editor_experimental_exit_mode") {
        Some(Command::NoteEditorExperimentalExitMode)
    } else if str_eq(s, "note_editor_experimental_cursor_left") {
        Some(Command::NoteEditorExperimentalCursorLeft)
    } else if str_eq(s, "note_editor_experimental_cursor_right") {
        Some(Command::NoteEditorExperimentalCursorRight)
    } else if str_eq(s, "vault_selector_modal_up") {
        Some(Command::VaultSelectorModalUp)
    } else if str_eq(s, "vault_selector_modal_down") {
        Some(Command::VaultSelectorModalDown)
    } else if str_eq(s, "vault_selector_modal_close") {
        Some(Command::VaultSelectorModalClose)
    } else if str_eq(s, "vault_selector_modal_open") {
        Some(Command::VaultSelectorModalOpen)
    } else if str_eq(s, "vault_selector_modal_toggle") {
        Some(Command::VaultSelectorModalToggle)
    } else {
        None
    }
}

/// What the command `c` asks of the application.
pub open spec fn message_of(c: Command) -> AppMessage {
    match c {
        Command::Quit => AppMessage::Quit,
        Command::SplashUp => AppMessage::Splash(splash_modal::Message::Up),
        Command::SplashDown => AppMessage::Splash(splash_modal::Message::Down),
        Command::SplashOpen => AppMessage::Splash(splash_modal::Message::Open),
        Command::ExplorerUp => AppMessage::Explorer(explorer::Message::Up),
        Command::ExplorerDown => AppMessage::Explorer(explorer::Message::Down),
        Command::ExplorerOpen => AppMessage::Explorer(explorer::Message::Open),
        Command::ExplorerSort => AppMessage::Explorer(explorer::Message::Sort),
        Command::ExplorerToggle => AppMessage::Explorer(explorer::Message::Toggle),
        Command::ExplorerToggleOutline => AppMessage::Explorer(explorer::Message::ToggleOutline),
        Command::ExplorerSwitchPaneNext => AppMessage::Explorer(explorer::Message::SwitchPaneNext),
        Command::ExplorerSwitchPanePrevious => AppMessage::Explorer(explorer::Message::SwitchPanePrevious),
        Command::ExplorerScrollUpOne => AppMessage::Explorer(explorer::Message::ScrollUp(ScrollAmount::One)),
        Command::ExplorerScrollDownOne => AppMessage::Explorer(explorer::Message::ScrollDown(ScrollAmount::One)),
        Command::ExplorerScrollUpHalfPage => AppMessage::Explorer(explorer::Message::ScrollUp(ScrollAmount::HalfPage)),
        Command::ExplorerScrollDownHalfPage => AppMessage::Explorer(explorer::Message::ScrollDown(ScrollAmount::HalfPage)),
        Command::OutlineUp => AppMessage::Outline(outline::Message::Up),
        Command::OutlineDown => AppMessage::Outline(outline::Message::Down),
        Command::OutlineSelect => AppMessage::Outline(outline::Message::Select),
        Command::OutlineExpand => AppMessage::Outline(outline::Message::Expand),
        Command::OutlineToggle => AppMessage::Outline(outline::Message::Toggle),
        Command::OutlineToggleExplorer => AppMessage::Outline(outline::Message::ToggleExplorer),
        Command::OutlineSwitchPaneNext => AppMessage::Outline(outline::Message::SwitchPaneNext),
        Command::OutlineSwitchPanePrevious => AppMessage::Outline(outline::Message::SwitchPanePrevious),
        Command::HelpModalScrollUpOne => AppMessage::HelpModal(help_modal::Message::ScrollUp(ScrollAmount::One)),
        Command::HelpModalScrollDownOne => AppMessage::HelpModal(help_modal::Message::ScrollDown(ScrollAmount::One)),
        Command::HelpModalScrollUpHalfPage => AppMessage::HelpModal(help_modal::Message::ScrollUp(ScrollAmount::HalfPage)),
        Command::HelpModalScrollDownHalfPage => AppMessage::HelpModal(help_modal::Message::ScrollDown(ScrollAmount::HalfPage)),
        Command::HelpModalToggle => AppMessage::HelpModal(help_modal::Message::Toggle),
        Command::HelpModalClose => AppMessage::HelpModal(help_modal::Message::Close),
        Command::NoteEditorScrollUpOne => AppMessage::NoteEditor(note_editor::Message::ScrollUp(ScrollAmount::One)),
        Command::NoteEditorScrollDownOne => AppMessage::NoteEditor(note_editor::Message::ScrollDown(ScrollAmount::One)),
        Command::NoteEditorScrollUpHalfPage => AppMessage::NoteEditor(note_editor::Message::ScrollUp(ScrollAmount::HalfPage)),
        Command::NoteEditorScrollDownHalfPage => AppMessage::NoteEditor(note_editor::Message::ScrollDown(ScrollAmount::HalfPage)),
        Command::NoteEditorSwitchPaneNext => AppMessage::NoteEditor(note_editor::Message::SwitchPaneNext),
        Command::NoteEditorSwitchPanePrevious => AppMessage::NoteEditor(note_editor::Message::SwitchPanePrevious),
        Command::NoteEditorToggleExplorer => AppMessage::NoteEditor(note_editor::Message::ToggleExplorer),
        Command::NoteEditorToggleOutline => AppMessage::NoteEditor(note_editor::Message::ToggleOutline),
        Command::NoteEditorCursorUp => AppMessage::NoteEditor(note_editor::Message::CursorUp),
        Command::NoteEditorCursorDown => AppMessage::NoteEditor(note_editor::Message::CursorDown),
        Command::NoteEditorExperimentalCursorWordForward => AppMessage::NoteEditor(note_editor::Message::CursorWordForward),
        Command::NoteEditorExperimentalCursorWordBackward => AppMessage::NoteEditor(note_editor::Message::CursorWordBackward),
        Command::NoteEditorExperimentalSetEditMode => AppMessage::NoteEditor(note_editor::Message::EditMode),
        Command::NoteEditorExperimentalSetReadMode => AppMessage::NoteEditor(note_editor::Message::ReadMode),
        Command::NoteEditorExperimentalSave => AppMessage::NoteEditor(note_editor::Message::Save),
        Command::NoteEditorExperimentalExitMode => AppMessage::NoteEditor(note_editor::Message::ExitMode),
        Command::NoteEditorExperimentalCursorLeft => AppMessage::NoteEditor(note_editor::Message::CursorLeft),
        Command::NoteEditorExperimentalCursorRight => AppMessage::NoteEditor(note_editor::Message::CursorRight),
        Command::VaultSelectorModalUp => AppMessage::VaultSelectorModal(vault_selector_modal::Message::Up),
        Command::VaultSelectorModalDown => AppMessage::VaultSelectorModal(vault_selector_modal::Message::Down),
        Command::VaultSelectorModalClose => AppMessage::VaultSelectorModal(vault_selector_modal::Message::Close),
        Command::VaultSelectorModalOpen => AppMessage::VaultSelectorModal(vault_selector_modal::Message::Select),
        Command::VaultSelectorModalToggle => AppMessage::VaultSelectorModal(vault_selector_modal::Message::Toggle),
        Command::Exec(command) => AppMessage::Exec(command),
        Command::Spawn(command) => AppMessage::Spawn(command),
    }
}

impl Command {
    /// What the command asks of the application.
    pub fn message(&self) -> (r: AppMessage)
        ensures
            r == message_of(*self),
    {
        match self {
            Command::Quit => AppMessage::Quit,
            Command::SplashUp => AppMessage::Splash(splash_modal::Message::Up),
            Command::SplashDown => AppMessage::Splash(splash_modal::Message::Down),
            Command::SplashOpen => AppMessage::Splash(splash_modal::Message::Open),
            Command::ExplorerUp => AppMessage::Explorer(explorer::Message::Up),
            Command::ExplorerDown => AppMessage::Explorer(explorer::Message::Down),
            Command::ExplorerOpen => AppMessage::Explorer(explorer::Message::Open),
            Command::ExplorerSort => AppMessage::Explorer(explorer::Message::Sort),
            Command::ExplorerToggle => AppMessage::Explorer(explorer::Message::Toggle),
            Command::ExplorerToggleOutline => AppMessage::Explorer(explorer::Message::ToggleOutline),
            Command::ExplorerSwitchPaneNext => AppMessage::Explorer(explorer::Message::SwitchPaneNext),
            Command::ExplorerSwitchPanePrevious => AppMessage::Explorer(explorer::Message::SwitchPanePrevious),
            Command::ExplorerScrollUpOne => AppMessage::Explorer(explorer::Message::ScrollUp(ScrollAmount::One)),
            Command::ExplorerScrollDownOne => AppMessage::Explorer(explorer::Message::ScrollDown(ScrollAmount::One)),
            Command::ExplorerScrollUpHalfPage => AppMessage::Explorer(explorer::Message::ScrollUp(ScrollAmount::HalfPage)),
            Command::ExplorerScrollDownHalfPage => AppMessage::Explorer(explorer::Message::ScrollDown(ScrollAmount::HalfPage)),
            Command::OutlineUp => AppMessage::Outline(outline::Message::Up),
            Command::OutlineDown => AppMessage::Outline(outline::Message::Down),
            Command::OutlineSelect => AppMessage::Outline(outline::Message::Select),
            Command::OutlineExpand => AppMessage::Outline(outline::Message::Expand),
            Command::OutlineToggle => AppMessage::Outline(outline::Message::Toggle),
            Command::OutlineToggleExplorer => AppMessage::Outline(outline::Message::ToggleExplorer),
            Command::OutlineSwitchPaneNext => AppMessage::Outline(outline::Message::SwitchPaneNext),
            Command::OutlineSwitchPanePrevious => AppMessage::Outline(outline::Message::SwitchPanePrevious),
            Command::HelpModalScrollUpOne => AppMessage::HelpModal(help_modal::Message::ScrollUp(ScrollAmount::One)),
            Command::HelpModalScrollDownOne => AppMessage::HelpModal(help_modal::Message::ScrollDown(ScrollAmount::One)),
            Command::HelpModalScrollUpHalfPage => AppMessage::HelpModal(help_modal::Message::ScrollUp(ScrollAmount::HalfPage)),
            Command::HelpModalScrollDownHalfPage => AppMessage::HelpModal(help_modal::Message::ScrollDown(ScrollAmount::HalfPage)),
            Command::HelpModalToggle => AppMessage::HelpModal(help_modal::Message::Toggle),
            Command::HelpModalClose => AppMessage::HelpModal(help_modal::Message::Close),
            Command::NoteEditorScrollUpOne => AppMessage::NoteEditor(note_editor::Message::ScrollUp(ScrollAmount::One)),
            Command::NoteEditorScrollDownOne => AppMessage::NoteEditor(note_editor::Message::ScrollDown(ScrollAmount::One)),
            Command::NoteEditorScrollUpHalfPage => AppMessage::NoteEditor(note_editor::Message::ScrollUp(ScrollAmount::HalfPage)),
            Command::NoteEditorScrollDownHalfPage => AppMessage::NoteEditor(note_editor::Message::ScrollDown(ScrollAmount::HalfPage)),
            Command::NoteEditorSwitchPaneNext => AppMessage::NoteEditor(note_editor::Message::SwitchPaneNext),
            Command::NoteEditorSwitchPanePrevious => AppMessage::NoteEditor(note_editor::Message::SwitchPanePrevious),
            Command::NoteEditorToggleExplorer => AppMessage::NoteEditor(note_editor::Message::ToggleExplorer),
            Command::NoteEditorToggleOutline => AppMessage::NoteEditor(note_editor::Message::ToggleOutline),
            Command::NoteEditorCursorUp => AppMessage::NoteEditor(note_editor::Message::CursorUp),
            Command::NoteEditorCursorDown => AppMessage::NoteEditor(note_editor::Message::CursorDown),
            Command::NoteEditorExperimentalCursorWordForward => AppMessage::NoteEditor(note_editor::Message::CursorWordForward),
            Command::NoteEditorExperimentalCursorWordBackward => AppMessage::NoteEditor(note_editor::Message::CursorWordBackward),
            Command::NoteEditorExperimentalSetEditMode => AppMessage::NoteEditor(note_editor::Message::EditMode),
            Command::NoteEditorExperimentalSetReadMode => AppMessage::NoteEditor(note_editor::Message::ReadMode),
            Command::NoteEditorExperimentalSave => AppMessage::NoteEditor(note_editor::Message::Save),
            Command::NoteEditorExperimentalExitMode => AppMessage::NoteEditor(note_editor::Message::ExitMode),
            Command::NoteEditorExperimentalCursorLeft => AppMessage::NoteEditor(note_editor::Message::CursorLeft),
            Command::NoteEditorExperimentalCursorRight => AppMessage::NoteEditor(note_editor::Message::CursorRight),
            Command::VaultSelectorModalUp => AppMessage::VaultSelectorModal(vault_selector_modal::Message::Up),
            Command::VaultSelectorModalDown => AppMessage::VaultSelectorModal(vault_selector_modal::Message::Down),
            Command::VaultSelectorModalClose => AppMessage::VaultSelectorModal(vault_selector_modal::Message::Close),
            Command::VaultSelectorModalOpen => AppMessage::VaultSelectorModal(vault_selector_modal::Message::Select),
            Command::VaultSelectorModalToggle => AppMessage::VaultSelectorModal(vault_selector_modal::Message::Toggle),
            Command::Exec(command) => AppMessage::Exec(command.clone()),
            Command::Spawn(command) => AppMessage::Spawn(command.clone()),
        }
    }
}

impl From<Command> for AppMessage {
    fn from(value: Command) -> (r: Self) {
        value.message()
    }
}

impl vstd::std_specs::convert::FromSpecImpl<Command> for AppMessage {
    open spec fn obeys_from_spec() -> bool {
        true
    }

    open spec fn from_spec(value: Command) -> Self {
        message_of(value)
    }
}

/// Whether `s` names a command line to run and wait for.
pub open spec fn is_exec(s: Seq<char>) -> bool {
    "exec:"@.is_prefix_of(s)
}

/// Whether `s` names a command line to start.
pub open spec fn is_spawn(s: Seq<char>) -> bool {
    !is_exec(s) && "spawn:"@.is_prefix_of(s)
}

/// Whether `r` is what a binding means by the command `s`: the command line
/// after `exec:` or `spawn:`, else the command of that name, else the error
/// that says that `s` is not a valid command.
pub open spec fn is_command(r: Result<Command, ConfigError>, s: Seq<char>) -> bool {
    match r {
        Ok(Command::Exec(line)) => is_exec(s) && line@ == s.skip(5),
        Ok(Command::Spawn(line)) => is_spawn(s) && line@ == s.skip(6),
        Ok(c) => !is_exec(s) && !is_spawn(s) && command_named(s) == Some(c),
        Err(e) => !is_exec(s) && !is_spawn(s) && command_named(s) is None && e@
            == ConfigErrorView::InvalidKeybinding(s + " is not a valid command"@),
    }
}

/// Reads the command of a binding.
pub fn parse_command(s: &str) -> (r: Result<Command, ConfigError>)
    ensures
        is_command(r, s@),
{
    proof {
        reveal_strlit("exec:");
        reveal_strlit("spawn:");
    }
    if starts_with(s, "exec:") {
        return Ok(Command::Exec(skip_chars(s, 5)));
    }
    if starts_with(s, "spawn:") {
        return Ok(Command::Spawn(skip_chars(s, 6)));
    }
    match str_to_command(s) {
        Some(command) => Ok(command),
        None => Err(ConfigError::InvalidKeybinding(followed_by_text(s, " is not a valid command"))),
    }
}

/// The command line `command` with the name of the vault for `%vault`, the
/// path of the note for `%note_path` and the name of the note for `%note`.
/// The path is put in before the name, so that `%note_path` is not taken
/// for `%note` followed by `_path`.
pub open spec fn expanded(
    command: Seq<char>,
    vault_name: Seq<char>,
    note_name: Seq<char>,
    note_path: Seq<char>,
) -> Seq<char> {
    replaced(
        replaced(replaced(command, "%vault"@, vault_name), "%note_path"@, note_path),
        "%note"@,
        note_name,
    )
}

/// A program to run and the words to hand to it.
#[derive(Clone, Debug, PartialEq, Eq)]
pub struct Invocation {
    pub program: String,
    pub args: Vec<String>,
}

impl Invocation {
    /// The words for the program as one argument, a space between each two.
    pub fn argument(&self) -> (r: String)
        ensures
            r@ == joined(views(self.args@), seq![' ']),
    {
        proof {
            reveal_strlit(" ");
            assert(" "@ =~= seq![' ']);
        }
        join(&self.args, " ")
    }
}

/// Whether `call` is what the expanded command line asks for: the first
/// word is the program, the words after it are for the program. No call is
/// made where the line holds no word.
pub open spec fn invokes(call: Option<Invocation>, line: Seq<char>) -> bool {
    match call {
        Some(c) => words(line).len() > 0 && c.program@ == words(line)[0] && views(c.args@)
            == words(line).skip(1),
        None => words(line).len() == 0,
    }
}

/// Expands the command line and splits it into the program and its words.
pub fn run_command(command: String, vault_name: &str, note_name: &str, note_path: &str) -> (r:
    Option<Invocation>)
    ensures
        invokes(r, expanded(command@, vault_name@, note_name@, note_path@)),
{
    let with_vault = replace_all(command.as_str(), "%vault", vault_name);
    let with_path = replace_all(with_vault.as_str(), "%note_path", note_path);
    let line = replace_all(with_path.as_str(), "%note", note_name);
    let mut args = split_words(line.as_str());
    if args.len() == 0 {
        return None;
    }
    let ghost all = args@;
    let program = args.remove(0);
    assert(views(args@) =~= views(all).skip(1));
    Some(Invocation { program, args })
}

/// Whether `r` asks to run, and to wait for, what the command line
/// `line` asks for.
pub open spec fn runs(r: Option<Effect>, line: Seq<char>) -> bool {
    match r {
        Some(Effect::Exec(call)) => invokes(Some(call), line),
        Some(_) => false,
        None => invokes(None, line),
    }
}

/// Whether `r` asks to start what the command line `line` asks for.
pub open spec fn starts(r: Option<Effect>, line: Seq<char>) -> bool {
    match r {
        Some(Effect::Spawn(call)) => invokes(Some(call), line),
        Some(_) => false,
        None => invokes(None, line),
    }
}

/// The program to run and wait for, for the command line `command`.
pub fn sync_command(command: String, vault_name: &str, note_name: &str, note_path: &str) -> (r:
    Option<Effect>)
    ensures
        runs(r, expanded(command@, vault_name@, note_name@, note_path@)),
{
    match run_command(command, vault_name, note_name, note_path) {
        Some(call) => Some(Effect::Exec(call)),
        None => None,
    }
}

/// What follows a program that was run and waited for: where it could be
/// run and the screen is back, the explorer opens its note again.
pub fn after_sync_command(succeeded: bool) -> (r: Option<AppMessage>)
    ensures
        r == (if succeeded {
            Some(AppMessage::Explorer(explorer::Message::Open))
        } else {
            None
        }),
{
    if succeeded {
        Some(AppMessage::Explorer(explorer::Message::Open))
    } else {
        None
    }
}

/// The program to start, for the command line `command`. Nothing follows
/// it, whether it could be started or not.
pub fn spawn_command(command: String, vault_name: &str, note_name: &str, note_path: &str) -> (r:
    Option<Effect>)
    ensures
        starts(r, expanded(command@, vault_name@, note_name@, note_path@)),
{
    match run_command(command, vault_name, note_name, note_path) {
        Some(call) => Some(Effect::Spawn(call)),
        None => None,
    }
}

} // verus!
