//! The application: its panes, the messages that move it and the step that
//! applies one message.









use crate::command::{expanded, runs, spawn_command, starts, sync_command, Invocation};
use crate::config::key_binding::Key;
use crate::config::{message_for, Config};
use crate::explorer;
use crate::explorer::ExplorerState;
use crate::help_modal;
use crate::help_modal::HelpModalState;
use crate::note_editor;
use crate::note_editor::markdown_parser::Node;
use crate::note_editor::state::{initial, loaded, EditorView, SaveRequest};
use crate::note_editor::{editing_message, EditorState, KeyEvent, Mode};
use crate::outline;
use crate::outline::{entry_for, headings, OutlineState};
use crate::splash_modal;
use crate::splash_modal::SplashModalState;
use crate::text::{replace_all, replaced};
use crate::vault_selector_modal;
use crate::vault_selector_modal::VaultSelectorModalState;
use vstd::prelude::*;

verus! {

/// How far one scroll command moves.
#[derive(Clone, Copy, Debug, PartialEq, Eq, Structural)]
pub enum ScrollAmount {
    One,
    HalfPage,
}

impl Default for ScrollAmount {
    fn default() -> (r: Self)
        ensures
            r == ScrollAmount::One,
    {
        ScrollAmount::One
    }
}

/// The number of lines that `scroll_amount` stands for on a screen of
/// `height` lines.
pub open spec fn scroll_lines(scroll_amount: ScrollAmount, height: usize) -> usize {
    match scroll_amount {
        ScrollAmount::One => 1,
        ScrollAmount::HalfPage => height / 2,
    }
}

pub fn calc_scroll_amount(scroll_amount: &ScrollAmount, height: usize) -> (r: usize)
    ensures
        r == scroll_lines(*scroll_amount, height),
{
    match scroll_amount {
        ScrollAmount::One => 1,
        ScrollAmount::HalfPage => height / 2,
    }
}

/// The size of the terminal, in columns and rows.
#[derive(Clone, Copy, Debug, PartialEq, Eq, Structural)]
pub struct Size {
    pub width: u16,
    pub height: u16,
}

impl Size {
    pub fn new(width: u16, height: u16) -> (r: Self)
        ensures
            r == (Size { width, height }),
    {
        Size { width, height }
    }
}

impl Default for Size {
    fn default() -> (r: Self)
        ensures
            r == (Size { width: 0, height: 0 }),
    {
        Size { width: 0, height: 0 }
    }
}

/// The pane that takes the keys.
#[derive(Clone, Copy, Debug, PartialEq, Eq, Structural)]
pub enum ActivePane {
    Splash,
    Explorer,
    NoteEditor,
    Outline,
    HelpModal,
    VaultSelectorModal,
}

impl Default for ActivePane {
    fn default() -> (r: Self)
        ensures
            r == ActivePane::Splash,
    {
        ActivePane::Splash
    }
}

impl From<ActivePane> for &'static str {
    fn from(value: ActivePane) -> (r: Self) {
        match value {
            ActivePane::Splash => "Splash",
            ActivePane::Explorer => "Explorer",
            ActivePane::NoteEditor => "Note Editor",
            ActivePane::Outline => "Outline",
            ActivePane::HelpModal => "Help",
            ActivePane::VaultSelectorModal => "Vault Selector",
        }
    }
}

impl vstd::std_specs::convert::FromSpecImpl<ActivePane> for &'static str {
    open spec fn obeys_from_spec() -> bool {
        true
    }

    open spec fn from_spec(value: ActivePane) -> Self {
        match value {
            ActivePane::Splash => "Splash",
            ActivePane::Explorer => "Explorer",
            ActivePane::NoteEditor => "Note Editor",
            ActivePane::Outline => "Outline",
            ActivePane::HelpModal => "Help",
            ActivePane::VaultSelectorModal => "Vault Selector",
        }
    }
}

/// A note of a vault: its name and where it lies.
#[derive(Debug, PartialEq, Eq)]
pub struct Note {
    pub name: String,
    pub path: String,
}

impl Clone for Note {
    fn clone(&self) -> (r: Self)
        ensures
            r == *self,
    {
        Note { name: self.name.clone(), path: self.path.clone() }
    }
}

/// A vault: its name and its notes.
#[derive(Debug, PartialEq, Eq)]
pub struct Vault {
    pub name: String,
    pub notes: Vec<Note>,
}

/// A copy of `notes`.
pub fn copy_notes(notes: &Vec<Note>) -> (r: Vec<Note>)
    ensures
        r@ == notes@,
{
    let mut r: Vec<Note> = Vec::new();
    let mut i: usize = 0;
    while i < notes.len()
        invariant
            i <= notes.len(),
            r@ == notes@.take(i as int),
        decreases notes.len() - i,
    {
        r.push(notes[i].clone());
        assert(notes@.take(i + 1) =~= notes@.take(i as int).push(notes@[i as int]));
        i += 1;
    }
    assert(notes@.take(i as int) =~= notes@);
    r
}

impl Clone for Vault {
    fn clone(&self) -> (r: Self)
        ensures
            r.name == self.name,
            r.notes@ == self.notes@,
    {
        Vault { name: self.name.clone(), notes: copy_notes(&self.notes) }
    }
}

/// The note that is open: its name, where it lies and its text.
#[derive(Debug, PartialEq, Eq)]
pub struct SelectedNote {
    pub name: String,
    pub path: String,
    pub content: String,
}

impl SelectedNote {
    pub fn new(name: String, path: String, content: String) -> (r: Self)
        ensures
            r.name == name,
            r.path == path,
            r.content == content,
    {
        SelectedNote { name, path, content }
    }

}

impl Clone for SelectedNote {
    fn clone(&self) -> (r: Self)
        ensures
            r == *self,
    {
        SelectedNote {
            name: self.name.clone(),
            path: self.path.clone(),
            content: self.content.clone(),
        }
    }
}

/// What moves the application from one state to the next.
#[derive(Clone, Debug, PartialEq)]
pub enum Message {
    Quit,
    /// Run a command and wait for it.
    Exec(String),
    /// Start a command and go on.
    Spawn(String),
    Resize(Size),
    SetActivePane(ActivePane),
    OpenVault(Vault),
    SelectNote(SelectedNote),
    UpdateSelectedNoteContent(String, Option<Vec<Node>>),
    /// Read a note and select it.
    LoadNote(Note),
    /// Write the text of the open note.
    WriteNote(SaveRequest),
    Splash(splash_modal::Message),
    Explorer(explorer::Message),
    NoteEditor(note_editor::Message),
    Outline(outline::Message),
    HelpModal(help_modal::Message),
    VaultSelectorModal(vault_selector_modal::Message),
}

/// What the application asks of the world outside it.
#[derive(Clone, Debug, PartialEq)]
pub enum Effect {
    /// Run the program and wait until it has ended.
    Exec(Invocation),
    /// Start the program and go on.
    Spawn(Invocation),
    /// Read the text of the note.
    ReadNote(Note),
    /// Write the text to the path.
    WriteNote(SaveRequest),
}

/// What is to be done after a message was applied.
#[derive(Clone, Debug, PartialEq)]
pub enum Step {
    /// Nothing: the application has settled.
    Settled,
    /// Apply this message next, before anything is drawn.
    Next(Message),
    /// Perform this effect, and go on with what it reports.
    Perform(Effect),
}

/// The step that a following message, or none, stands for.
pub open spec fn step_of(r: Option<Message>) -> Step {
    match r {
        Some(m) => Step::Next(m),
        None => Step::Settled,
    }
}

/// The message that a step asks to be applied next.
pub open spec fn reply_of(step: Step) -> Option<Message> {
    match step {
        Step::Next(m) => Some(m),
        _ => None,
    }
}

fn step(r: Option<Message>) -> (s: Step)
    ensures
        s == step_of(r),
{
    match r {
        Some(m) => Step::Next(m),
        None => Step::Settled,
    }
}

/// What reaches the application from the terminal.
#[derive(Clone, Debug, PartialEq)]
pub enum Event {
    /// The terminal has this many columns and rows now.
    Resize(u16, u16),
    /// A key was pressed.
    Key(KeyEvent),
    /// Anything else.
    Other,
}

impl From<&KeyEvent> for Key {
    fn from(event: &KeyEvent) -> (r: Self) {
        event.key
    }
}

impl vstd::std_specs::convert::FromSpecImpl<&KeyEvent> for Key {
    open spec fn obeys_from_spec() -> bool {
        true
    }

    open spec fn from_spec(event: &KeyEvent) -> Self {
        event.key
    }
}

/// The help text `template` with `version` in the place of its version
/// notice.
pub fn help_text(template: &str, version: &str) -> (r: String)
    ensures
        r@ == replaced(template@, "%version-notice"@, version@),
{
    replace_all(template, "%version-notice", version)
}

/// All that the application holds: one state for each pane and modal, the
/// note that is open and the size of the screen.
#[derive(Clone)]
pub struct AppState {
    pub screen_size: Size,
    pub is_running: bool,
    pub active_pane: ActivePane,
    pub explorer: ExplorerState,
    pub note_editor: EditorState,
    pub outline: OutlineState,
    pub selected_note: Option<SelectedNote>,
    pub splash_modal: SplashModalState,
    pub help_modal: HelpModalState,
    pub vault_selector_modal: VaultSelectorModalState,
}

/// The pane that takes the keys: a modal that is shown before any pane, the
/// help before the vault selector, and the splash screen before the pane
/// that last took the focus.
pub open spec fn active_of(s: AppState) -> ActivePane {
    if s.help_modal.visible {
        ActivePane::HelpModal
    } else if s.vault_selector_modal.visible {
        ActivePane::VaultSelectorModal
    } else if s.splash_modal.visible {
        ActivePane::Splash
    } else {
        s.active_pane
    }
}

/// A modal that is shown takes the keys before any pane, and the help
/// before the vault selector: with both shown, the help is the active one.
pub proof fn lemma_modals_outrank_panes(s: AppState)
    ensures
        s.help_modal.visible ==> active_of(s) == ActivePane::HelpModal,
        !s.help_modal.visible && s.vault_selector_modal.visible ==> active_of(s)
            == ActivePane::VaultSelectorModal,
        !s.help_modal.visible && !s.vault_selector_modal.visible && s.splash_modal.visible
            ==> active_of(s) == ActivePane::Splash,
        !s.help_modal.visible && !s.vault_selector_modal.visible && !s.splash_modal.visible
            ==> active_of(s) == s.active_pane,
{
}

/// A copy of `vaults`.
pub fn copy_vaults(vaults: &Vec<Vault>) -> (r: Vec<Vault>)
    ensures
        r@.len() == vaults@.len(),
        forall|i: int|
            0 <= i < vaults@.len() ==> (#[trigger] r@[i]).name == vaults@[i].name && r@[i].notes@
                == vaults@[i].notes@,
{
    let mut r: Vec<Vault> = Vec::new();
    let mut i: usize = 0;
    while i < vaults.len()
        invariant
            i <= vaults.len(),
            r@.len() == i,
            forall|k: int|
                0 <= k < i ==> (#[trigger] r@[k]).name == vaults@[k].name && r@[k].notes@
                    == vaults@[k].notes@,
        decreases vaults.len() - i,
    {
        r.push(vaults[i].clone());
        i += 1;
    }
    r
}

impl AppState {
    /// Whether the state is well formed: its editor is.
    pub open spec fn wf(&self) -> bool {
        self.note_editor.wf()
    }

    /// The state in which the application starts: the splash screen shown
    /// over the vaults, the help hidden, no note open.
    pub fn new(screen_size: Size, version: &str, help: &str, vaults: Vec<Vault>) -> (r: Self)
        ensures
            r.wf(),
            r.screen_size == screen_size,
            !r.is_running,
            r.active_pane == ActivePane::Splash,
            r.note_editor@ == initial(),
            r.selected_note is None,
            r.splash_modal.visible,
            r.splash_modal.version@ == version@,
            r.splash_modal.vault_selector_state.items == vaults,
            r.help_modal.text@ == help@,
            !r.help_modal.visible,
            !r.vault_selector_modal.visible,
            r.vault_selector_modal.vault_selector_state.items@.len() == vaults@.len(),
            forall|i: int|
                0 <= i < vaults@.len() ==> (
                #[trigger] r.vault_selector_modal.vault_selector_state.items@[i]).name
                    == vaults@[i].name && r.vault_selector_modal.vault_selector_state.items@[i].notes@
                    == vaults@[i].notes@,
            r.explorer.items@.len() == 0,
            r.outline.items@.len() == 0,
            active_of(r) == ActivePane::Splash,
    {
        let listed = copy_vaults(&vaults);
        AppState {
            screen_size,
            is_running: false,
            active_pane: ActivePane::Splash,
            explorer: ExplorerState::new("", Vec::new()),
            note_editor: EditorState::default(),
            outline: OutlineState::new(Vec::new().as_slice(), 0, false),
            selected_note: None,
            splash_modal: SplashModalState::new(version, vaults, true),
            help_modal: HelpModalState::new(help),
            vault_selector_modal: VaultSelectorModalState::new(listed),
        }
    }

    /// The same state, running or not.
    pub fn set_running(self, is_running: bool) -> (r: Self)
        ensures
            r == (AppState { is_running, ..self }),
    {
        let mut r = self;
        r.is_running = is_running;
        r
    }

    /// The pane that takes the keys.
    pub fn active_component(&self) -> (r: ActivePane)
        ensures
            r == active_of(*self),
    {
        if self.help_modal.visible {
            return ActivePane::HelpModal;
        }
        if self.vault_selector_modal.visible {
            return ActivePane::VaultSelectorModal;
        }
        if self.splash_modal.visible {
            return ActivePane::Splash;
        }
        self.active_pane
    }
}

/// What `key` asks of the pane `pane`. While a block is edited the editor
/// takes every key; else the bindings of the pane decide.
pub open spec fn pane_message(config: Config, editing: bool, key: KeyEvent, pane: ActivePane) -> Option<
    Message,
> {
    match pane {
        ActivePane::Splash => message_for(config.splash.bindings@, key.key),
        ActivePane::Explorer => message_for(config.explorer.bindings@, key.key),
        ActivePane::Outline => message_for(config.outline.bindings@, key.key),
        ActivePane::HelpModal => message_for(config.help_modal.bindings@, key.key),
        ActivePane::VaultSelectorModal => message_for(
            config.vault_selector_modal.bindings@,
            key.key,
        ),
        ActivePane::NoteEditor => if editing {
            Some(Message::NoteEditor(editing_message(key)))
        } else {
            message_for(config.note_editor.bindings@, key.key)
        },
    }
}

/// What `key` asks of the application: what the global bindings say, unless
/// a block is edited or they say nothing; then what the active pane says.
pub open spec fn key_message(config: Config, state: AppState, key: KeyEvent) -> Option<Message> {
    let global = message_for(config.global.bindings@, key.key);
    let editing = state.note_editor@.mode == Mode::Edit;
    if global is Some && !editing {
        global
    } else {
        pane_message(config, editing, key, active_of(state))
    }
}

/// What `event` asks of the application.
pub open spec fn event_message(config: Config, state: AppState, event: Event) -> Option<Message> {
    match event {
        Event::Resize(cols, rows) => Some(Message::Resize(Size { width: cols, height: rows })),
        Event::Key(key) => key_message(config, state, key),
        Event::Other => None,
    }
}

pub fn handle_active_component_event(
    config: &Config,
    state: &AppState,
    key: &KeyEvent,
    active_component: ActivePane,
) -> (r: Option<Message>)
    ensures
        r == pane_message(*config, state.note_editor@.mode == Mode::Edit, *key, active_component),
{
    match active_component {
        ActivePane::Splash => config.splash.key_to_message(key.key),
        ActivePane::Explorer => config.explorer.key_to_message(key.key),
        ActivePane::Outline => config.outline.key_to_message(key.key),
        ActivePane::HelpModal => config.help_modal.key_to_message(key.key),
        ActivePane::VaultSelectorModal => config.vault_selector_modal.key_to_message(key.key),
        ActivePane::NoteEditor => {
            if state.note_editor.is_editing() {
                match note_editor::handle_editing_event(key) {
                    Some(m) => Some(Message::NoteEditor(m)),
                    None => None,
                }
            } else {
                config.note_editor.key_to_message(key.key)
            }
        },
    }
}

pub fn handle_key_event(config: &Config, state: &AppState, key: &KeyEvent) -> (r: Option<Message>)
    ensures
        r == key_message(*config, *state, *key),
{
    let global_message = config.global.key_to_message(key.key);
    let is_editing = state.note_editor.is_editing();
    if global_message.is_some() && !is_editing {
        return global_message;
    }
    let active_component = state.active_component();
    handle_active_component_event(config, state, key, active_component)
}

pub fn handle_event(config: &Config, state: &AppState, event: &Event) -> (r: Option<Message>)
    ensures
        r == event_message(*config, *state, *event),
{
    match event {
        Event::Resize(cols, rows) => Some(Message::Resize(Size::new(*cols, *rows))),
        Event::Key(key_event) => handle_key_event(config, state, key_event),
        Event::Other => None,
    }
}

/// The name and the path that a command line gets for the open note: both
/// empty where no note is open.
pub open spec fn note_words(note: Option<SelectedNote>) -> (Seq<char>, Seq<char>) {
    match note {
        Some(n) => (n.name@, n.path@),
        None => (Seq::<char>::empty(), Seq::<char>::empty()),
    }
}

/// The command line `command` as the state `s` expands it.
pub open spec fn command_line(s: AppState, command: Seq<char>) -> Seq<char> {
    expanded(command, s.explorer.title@, note_words(s.selected_note).0, note_words(s.selected_note).1)
}

/// Whether `after` is `before` with the pane `pane` in focus. Only the
/// three panes can take the focus; any other leaves the state as it is.
pub open spec fn focused(before: AppState, after: AppState, pane: ActivePane) -> bool {
    match pane {
        ActivePane::Explorer => after == (AppState {
            active_pane: pane,
            explorer: ExplorerState { active: true, ..before.explorer },
            ..before
        }),
        ActivePane::NoteEditor => after == (AppState {
            active_pane: pane,
            note_editor: after.note_editor,
            ..before
        }) && after.note_editor@ == (EditorView { active: true, ..before.note_editor@ }),
        ActivePane::Outline => after == (AppState {
            active_pane: pane,
            outline: OutlineState { active: true, ..before.outline },
            ..before
        }),
        _ => after == before,
    }
}

/// Whether `after` is `before` with the vault `vault` open: its notes in
/// the explorer, nothing in the editor.
pub open spec fn opened(before: AppState, after: AppState, vault: Vault) -> bool {
    &&& after == (AppState { explorer: after.explorer, note_editor: after.note_editor, ..before })
    &&& after.explorer.title@ == vault.name@
    &&& after.explorer.items == vault.notes
    &&& after.explorer.highlighted == Some(0usize)
    &&& after.explorer.selected is None
    &&& after.explorer.sort == explorer::Sort::Asc
    &&& after.explorer.open
    &&& !after.explorer.active
    &&& after.note_editor@ == initial()
}

/// Whether `after` is `before` with the note `note` open: its text in the
/// editor, which keeps its focus and is in the mode `Read`, and its
/// headings in the outline.
pub open spec fn selected(before: AppState, after: AppState, note: SelectedNote) -> bool {
    &&& after == (AppState {
        note_editor: after.note_editor,
        outline: after.outline,
        selected_note: Some(note),
        ..before
    })
    &&& after.note_editor@ == loaded(
        EditorView { active: before.note_editor@.active, path: note.path@, ..initial() },
        note.content@,
    )
    &&& after.outline.items@ == headings(after.note_editor@.nodes)
    &&& after.outline.selected == entry_for(
        headings(after.note_editor@.nodes),
        after.note_editor@.current_row,
    )
    &&& after.outline.open == before.outline.open
    &&& !after.outline.active
}

/// Whether `after` and `step` are what the new text `content` of the open
/// note makes of `before`: the note holds the text, and the outline is to
/// get the blocks where there are new ones. Without an open note nothing
/// happens.
pub open spec fn content_updated(
    before: AppState,
    after: AppState,
    content: String,
    nodes: Option<Vec<Node>>,
    step: Step,
) -> bool {
    match before.selected_note {
        Some(note) => {
            &&& after == (AppState { selected_note: after.selected_note, ..before })
            &&& after.selected_note matches Some(n) && n.name == note.name && n.path
                == note.path && n.content == content
            &&& step == (match nodes {
                Some(ns) => Step::Next(Message::Outline(outline::Message::SetNodes(ns))),
                None => Step::Settled,
            })
        },
        None => after == before && step == Step::Settled,
    }
}

/// Whether `after` and `step` are what `message` makes of `before`: each
/// message changes the part of the state that it is for, and no other.
pub open spec fn applied(
    before: AppState,
    after: AppState,
    message: Message,
    step: Step,
) -> bool {
    match message {
        Message::Quit => after == (AppState { is_running: false, ..before }) && step
            == Step::Settled,
        Message::Resize(size) => after == (AppState { screen_size: size, ..before }) && step
            == Step::Settled,
        Message::SetActivePane(pane) => focused(before, after, pane) && step == Step::Settled,
        Message::OpenVault(vault) => opened(before, after, vault) && step == Step::Next(
            Message::SetActivePane(ActivePane::Explorer),
        ),
        Message::SelectNote(note) => selected(before, after, note) && step == Step::Settled,
        Message::UpdateSelectedNoteContent(content, nodes) => content_updated(
            before,
            after,
            content,
            nodes,
            step,
        ),
        Message::LoadNote(note) => after == before && step == Step::Perform(
            Effect::ReadNote(note),
        ),
        Message::WriteNote(request) => after == before && step == Step::Perform(
            Effect::WriteNote(request),
        ),
        Message::Exec(command) => after == before && (match step {
            Step::Perform(effect) => runs(Some(effect), command_line(before, command@)),
            Step::Settled => runs(None, command_line(before, command@)),
            Step::Next(_) => false,
        }),
        Message::Spawn(command) => after == before && (match step {
            Step::Perform(effect) => starts(Some(effect), command_line(before, command@)),
            Step::Settled => starts(None, command_line(before, command@)),
            Step::Next(_) => false,
        }),
        Message::HelpModal(m) => after == (AppState { help_modal: after.help_modal, ..before })
            && !(step is Perform) && help_modal::transition(
            before.help_modal,
            after.help_modal,
            m,
            reply_of(step),
        ),
        Message::VaultSelectorModal(m) => after == (AppState {
            vault_selector_modal: after.vault_selector_modal,
            ..before
        }) && !(step is Perform) && vault_selector_modal::transition(
            before.vault_selector_modal,
            after.vault_selector_modal,
            m,
            reply_of(step),
        ),
        Message::Splash(m) => after == (AppState { splash_modal: after.splash_modal, ..before })
            && !(step is Perform) && splash_modal::transition(
            before.splash_modal,
            after.splash_modal,
            m,
            reply_of(step),
        ),
        Message::Explorer(m) => after == (AppState { explorer: after.explorer, ..before }) && !(
        step is Perform) && explorer::transition(
            before.explorer,
            after.explorer,
            m,
            before.screen_size,
            reply_of(step),
        ),
        Message::Outline(m) => after == (AppState { outline: after.outline, ..before }) && !(
        step is Perform) && outline::transition(before.outline, after.outline, m, reply_of(step)),
        Message::NoteEditor(m) => if m is EditMode && before.selected_note is None {
            after == before && step == Step::Settled
        } else {
            after == (AppState { note_editor: after.note_editor, ..before }) && !(
            step is Perform) && note_editor::transition(
                before.note_editor@,
                before.note_editor.typed(note_editor::input_of(m)),
                after.note_editor@,
                m,
                before.screen_size,
                reply_of(step),
            )
        },
    }
}

fn set_active_pane(state: &mut AppState, pane: ActivePane)
    requires
        old(state).wf(),
    ensures
        final(state).wf(),
        focused(*old(state), *final(state), pane),
{
    match pane {
        ActivePane::Explorer => {
            state.active_pane = pane;
            state.explorer.set_active(true);
        },
        ActivePane::NoteEditor => {
            state.active_pane = pane;
            state.note_editor.set_active(true);
        },
        ActivePane::Outline => {
            state.active_pane = pane;
            state.outline.set_active(true);
        },
        _ => {},
    }
}

fn open_vault(state: &mut AppState, vault: Vault)
    ensures
        final(state).wf(),
        opened(*old(state), *final(state), vault),
{
    state.explorer = ExplorerState::new(vault.name.as_str(), vault.notes);
    state.note_editor = EditorState::default();
}

fn select_note(config: &Config, state: &mut AppState, note: SelectedNote)
    ensures
        final(state).wf(),
        selected(*old(state), *final(state), note),
{
    let active = state.note_editor.active();
    let mut editor = EditorState::default();
    editor.set_active(active);
    editor.set_path(note.path.clone());
    editor.set_content(note.content.as_str());
    if !config.experimental_editor {
        editor.set_mode(Mode::Read);
    }
    state.outline = OutlineState::new(editor.nodes(), editor.current_row(), state.outline.is_open());
    state.note_editor = editor;
    state.selected_note = Some(note);
}

fn update_selected_note_content(
    state: &mut AppState,
    content: String,
    nodes: Option<Vec<Node>>,
) -> (r: Step)
    ensures
        final(state).note_editor == old(state).note_editor,
        content_updated(*old(state), *final(state), content, nodes, r),
{
    match state.selected_note.take() {
        Some(note) => {
            state.selected_note = Some(
                SelectedNote { name: note.name, path: note.path, content },
            );
            match nodes {
                Some(ns) => Step::Next(Message::Outline(outline::Message::SetNodes(ns))),
                None => Step::Settled,
            }
        },
        None => Step::Settled,
    }
}

fn command_step(state: &AppState, command: String, wait: bool) -> (r: Step)
    ensures
        match r {
            Step::Perform(effect) => if wait {
                runs(Some(effect), command_line(*state, command@))
            } else {
                starts(Some(effect), command_line(*state, command@))
            },
            Step::Settled => if wait {
                runs(None, command_line(*state, command@))
            } else {
                starts(None, command_line(*state, command@))
            },
            Step::Next(_) => false,
        },
{
    let (note_name, note_path) = match &state.selected_note {
        Some(note) => (note.name.as_str(), note.path.as_str()),
        None => ("", ""),
    };
    proof {
        reveal_strlit("");
        assert(""@ =~= Seq::<char>::empty());
    }
    let effect = if wait {
        sync_command(command, state.explorer.title.as_str(), note_name, note_path)
    } else {
        spawn_command(command, state.explorer.title.as_str(), note_name, note_path)
    };
    match effect {
        Some(e) => Step::Perform(e),
        None => Step::Settled,
    }
}

/// Applies one message to the state and says what is to be done next: a
/// message to apply at once, an effect to perform, or nothing. Without a
/// message nothing happens.
pub fn update(config: &Config, state: &mut AppState, message: Option<Message>) -> (r: Step)
    requires
        old(state).wf(),
    ensures
        final(state).wf(),
        match message {
            Some(m) => applied(*old(state), *final(state), m, r),
            None => *final(state) == *old(state) && r == Step::Settled,
        },
{
    let message = match message {
        Some(m) => m,
        None => {
            return Step::Settled;
        },
    };
    match message {
        Message::Quit => {
            state.is_running = false;
        },
        Message::Resize(size) => {
            state.screen_size = size;
        },
        Message::SetActivePane(pane) => set_active_pane(state, pane),
        Message::OpenVault(vault) => {
            open_vault(state, vault);
            return Step::Next(Message::SetActivePane(ActivePane::Explorer));
        },
        Message::SelectNote(note) => select_note(config, state, note),
        Message::UpdateSelectedNoteContent(content, nodes) => {
            return update_selected_note_content(state, content, nodes);
        },
        Message::LoadNote(note) => {
            return Step::Perform(Effect::ReadNote(note));
        },
        Message::WriteNote(request) => {
            return Step::Perform(Effect::WriteNote(request));
        },
        Message::Exec(command) => {
            return command_step(state, command, true);
        },
        Message::Spawn(command) => {
            return command_step(state, command, false);
        },
        Message::HelpModal(m) => {
            return step(help_modal::update(&m, state.screen_size, &mut state.help_modal));
        },
        Message::VaultSelectorModal(m) => {
            return step(vault_selector_modal::update(&m, &mut state.vault_selector_modal));
        },
        Message::Splash(m) => {
            return step(splash_modal::update(&m, &mut state.splash_modal));
        },
        Message::Explorer(m) => {
            return step(explorer::update(&m, state.screen_size, &mut state.explorer));
        },
        Message::Outline(m) => {
            return step(outline::update(&m, &mut state.outline));
        },
        Message::NoteEditor(m) => {
            let allowed = match m {
                note_editor::Message::EditMode => state.selected_note.is_some(),
                _ => true,
            };
            if !allowed {
                return Step::Settled;
            }
            return step(note_editor::update(&m, state.screen_size, &mut state.note_editor));
        },
    };
    Step::Settled
}

/// What follows a note that was read, or could not be: the note is
/// selected, with the text that was read or with none.
pub fn after_read(note: Note, content: Option<String>) -> (r: Message)
    ensures
        r matches Message::SelectNote(n) && n.name == note.name && n.path == note.path && (
        match content {
            Some(text) => n.content == text,
            None => n.content@ == Seq::<char>::empty(),
        }),
{
    let text = match content {
        Some(text) => text,
        None => String::new(),
    };
    Message::SelectNote(SelectedNote { name: note.name, path: note.path, content: text })
}

/// What follows a text that was written, or could not be.
pub fn after_write(written: bool) -> (r: Message)
    ensures
        r == Message::NoteEditor(note_editor::Message::Saved(written)),
{
    Message::NoteEditor(note_editor::Message::Saved(written))
}

} // verus!
