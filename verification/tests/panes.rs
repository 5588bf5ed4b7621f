use basalt::app::{ActivePane, Message as AppMessage, Note, ScrollAmount, Size, Vault};
use basalt::explorer::{self, ExplorerState, Sort};
use basalt::help_modal::{self, HelpModalState};
use basalt::note_editor::markdown_parser::from_str;
use basalt::outline::{self, find_entry, outline_of, OutlineState};
use basalt::splash_modal::{self, SplashModalState};
use basalt::vault_selector::VaultSelectorState;
use basalt::vault_selector_modal::{self, VaultSelectorModalState};
use ratatui::widgets::ScrollbarState;

fn note(name: &str) -> Note {
    Note { name: String::from(name), path: format!("/vault/{}.md", name) }
}

fn vault(name: &str, notes: &[&str]) -> Vault {
    Vault { name: String::from(name), notes: notes.iter().map(|n| note(n)).collect() }
}

fn vaults() -> Vec<Vault> {
    vec![vault("work", &["tasks", "plan"]), vault("home", &["diary"]), vault("empty", &[])]
}

#[test]
fn vault_selector_moves_between_its_ends() {
    let mut list = VaultSelectorState::new(vaults());
    assert_eq!(list.highlighted, Some(0));
    assert_eq!(list.selected(), None);
    assert_eq!(list.selected_item(), None);
    list.previous();
    assert_eq!(list.highlighted, Some(0));
    list.next();
    list.next();
    assert_eq!(list.highlighted, Some(2));
    list.next();
    assert_eq!(list.highlighted, Some(2));
    list.previous();
    assert_eq!(list.highlighted, Some(1));
    list.select();
    assert_eq!(list.selected(), Some(1));
    assert_eq!(list.selected_item().map(|v| v.name.as_str()), Some("home"));
}

#[test]
fn vault_selector_without_a_highlight_starts_at_an_end() {
    let mut list = VaultSelectorState::new(vaults());
    list.highlighted = None;
    list.next();
    assert_eq!(list.highlighted, Some(0));
    list.highlighted = None;
    list.previous();
    assert_eq!(list.highlighted, Some(2));
    let mut empty = VaultSelectorState::new(Vec::new());
    empty.next();
    assert_eq!(empty.highlighted, Some(0));
    empty.select();
    assert_eq!(empty.selected_item(), None);
}

#[test]
fn splash_opens_the_highlighted_vault() {
    let mut splash = SplashModalState::new("1.0", vaults(), true);
    assert!(splash.visible);
    assert_eq!(splash.version, "1.0");
    assert_eq!(splash_modal::update(&splash_modal::Message::Down, &mut splash), None);
    assert_eq!(splash.vault_selector_state.highlighted, Some(1));
    assert_eq!(splash_modal::update(&splash_modal::Message::Up, &mut splash), None);
    assert_eq!(splash_modal::update(&splash_modal::Message::Down, &mut splash), None);
    assert!(splash.visible);
    let next = splash_modal::update(&splash_modal::Message::Open, &mut splash);
    assert_eq!(next, Some(AppMessage::OpenVault(vault("home", &["diary"]))));
    assert!(!splash.visible);
    assert_eq!(splash.selected(), Some(1));
    assert_eq!(splash.selected_item().map(|v| v.name.clone()), Some(String::from("home")));
}

#[test]
fn splash_without_vaults_opens_nothing() {
    let mut splash = SplashModalState::new("1.0", Vec::new(), true);
    assert_eq!(splash_modal::update(&splash_modal::Message::Open, &mut splash), None);
    assert!(splash.visible);
}

#[test]
fn splash_hands_out_its_items() {
    let mut splash = SplashModalState::new("1.0", vaults(), true);
    splash.next();
    splash.previous();
    splash.next();
    splash.select();
    assert_eq!(splash.selected(), Some(1));
    splash.dismiss();
    assert!(!splash.visible);
    assert_eq!(SplashModalState::new("1", vaults(), false).get_item(2), Some(vault("empty", &[])));
    assert_eq!(SplashModalState::new("1", vaults(), false).get_item(3), None);
    assert_eq!(splash.items(), vaults());
}

#[test]
fn vault_selector_modal_is_toggled_closed_and_selects() {
    let mut modal = VaultSelectorModalState::new(vaults());
    assert!(!modal.visible);
    assert_eq!(vault_selector_modal::update(&vault_selector_modal::Message::Toggle, &mut modal), None);
    assert!(modal.visible);
    assert_eq!(vault_selector_modal::update(&vault_selector_modal::Message::Close, &mut modal), None);
    assert!(!modal.visible);
    modal.toggle_visibility();
    assert_eq!(vault_selector_modal::update(&vault_selector_modal::Message::Down, &mut modal), None);
    assert_eq!(vault_selector_modal::update(&vault_selector_modal::Message::Down, &mut modal), None);
    assert_eq!(vault_selector_modal::update(&vault_selector_modal::Message::Up, &mut modal), None);
    let next = vault_selector_modal::update(&vault_selector_modal::Message::Select, &mut modal);
    assert_eq!(next, Some(AppMessage::OpenVault(vault("home", &["diary"]))));
    assert!(!modal.visible);
}

#[test]
fn help_modal_scrolls_inside_its_text() {
    let size = Size::new(80, 43);
    let text: String = (0..30).map(|i| format!("line {}\n", i)).collect();
    let mut help = HelpModalState::new(&text);
    assert_eq!(help.text, text);
    assert_eq!(help.scrollbar_state, ScrollbarState::new(30));
    assert!(!help.visible);
    assert_eq!(help_modal::update(&help_modal::Message::Toggle, size, &mut help), None);
    assert!(help.visible);
    assert_eq!(help_modal::update(&help_modal::Message::ScrollDown(ScrollAmount::One), size, &mut help), None);
    assert_eq!(help.scrollbar_position, 1);
    assert_eq!(help.scrollbar_state, ScrollbarState::new(30).position(1));
    help_modal::update(&help_modal::Message::ScrollDown(ScrollAmount::HalfPage), size, &mut help);
    assert_eq!(help.scrollbar_position, 11);
    help_modal::update(&help_modal::Message::ScrollDown(ScrollAmount::HalfPage), size, &mut help);
    help_modal::update(&help_modal::Message::ScrollDown(ScrollAmount::HalfPage), size, &mut help);
    assert_eq!(help.scrollbar_position, 30);
    help_modal::update(&help_modal::Message::ScrollUp(ScrollAmount::HalfPage), size, &mut help);
    assert_eq!(help.scrollbar_position, 20);
    help_modal::update(&help_modal::Message::ScrollUp(ScrollAmount::One), size, &mut help);
    assert_eq!(help.scrollbar_position, 19);
    help.scroll_up(100);
    assert_eq!(help.scrollbar_position, 0);
    help.scroll_down(usize::MAX);
    assert_eq!(help.scrollbar_position, 30);
    assert_eq!(help_modal::update(&help_modal::Message::Close, size, &mut help), None);
    assert!(!help.visible);
    help.toggle_visibility();
    help.dismiss();
    assert!(!help.visible);
    assert_eq!(help.text, text);
}

#[test]
fn explorer_moves_and_opens() {
    let size = Size::new(80, 20);
    let mut e = ExplorerState::new("work", vec![note("a"), note("b"), note("c"), note("d")]);
    assert_eq!(e.title, "work");
    assert_eq!(e.highlighted, Some(0));
    assert_eq!(e.selected, None);
    assert!(e.open);
    assert_eq!(explorer::update(&explorer::Message::Up, size, &mut e), None);
    assert_eq!(e.highlighted, Some(0));
    assert_eq!(explorer::update(&explorer::Message::Down, size, &mut e), None);
    assert_eq!(e.highlighted, Some(1));
    assert_eq!(explorer::update(&explorer::Message::Open, size, &mut e), Some(AppMessage::LoadNote(note("b"))));
    assert_eq!(e.selected, Some(1));
    explorer::update(&explorer::Message::ScrollDown(ScrollAmount::HalfPage), size, &mut e);
    assert_eq!(e.highlighted, Some(3));
    explorer::update(&explorer::Message::ScrollUp(ScrollAmount::One), size, &mut e);
    assert_eq!(e.highlighted, Some(2));
    explorer::update(&explorer::Message::ScrollUp(ScrollAmount::HalfPage), size, &mut e);
    assert_eq!(e.highlighted, Some(0));
    explorer::update(&explorer::Message::ScrollDown(ScrollAmount::One), size, &mut e);
    assert_eq!(e.highlighted, Some(1));
    assert_eq!(explorer::update(&explorer::Message::Toggle, size, &mut e), None);
    assert!(!e.open);
    assert_eq!(
        explorer::update(&explorer::Message::ToggleOutline, size, &mut e),
        Some(AppMessage::Outline(outline::Message::Toggle))
    );
    e.set_active(true);
    assert_eq!(
        explorer::update(&explorer::Message::SwitchPaneNext, size, &mut e),
        Some(AppMessage::SetActivePane(ActivePane::NoteEditor))
    );
    assert!(!e.active);
    e.set_active(true);
    assert_eq!(
        explorer::update(&explorer::Message::SwitchPanePrevious, size, &mut e),
        Some(AppMessage::SetActivePane(ActivePane::Outline))
    );
    assert!(!e.active);
}

#[test]
fn explorer_without_notes_opens_nothing() {
    let mut e = ExplorerState::new("empty", Vec::new());
    assert_eq!(explorer::update(&explorer::Message::Open, Size::new(80, 20), &mut e), None);
    assert_eq!(e.selected, None);
    explorer::update(&explorer::Message::Down, Size::new(80, 20), &mut e);
    assert_eq!(e.highlighted, Some(0));
}

#[test]
fn explorer_sort_turns_the_list_round() {
    let size = Size::new(80, 20);
    let mut e = ExplorerState::new("work", vec![note("a"), note("b"), note("c")]);
    explorer::update(&explorer::Message::Open, size, &mut e);
    explorer::update(&explorer::Message::Down, size, &mut e);
    assert_eq!((e.selected, e.highlighted), (Some(0), Some(1)));
    assert_eq!(explorer::update(&explorer::Message::Sort, size, &mut e), None);
    assert_eq!(e.items, vec![note("c"), note("b"), note("a")]);
    assert_eq!(e.sort, Sort::Desc);
    assert_eq!((e.selected, e.highlighted), (Some(2), Some(1)));
    e.sort();
    assert_eq!(e.items, vec![note("a"), note("b"), note("c")]);
    assert_eq!(e.sort, Sort::Asc);
    assert_eq!((e.selected, e.highlighted), (Some(0), Some(1)));
}

#[test]
fn outline_lists_the_headings() {
    let nodes = from_str("intro\n\n# A\n\nbody\n\n## B\n\nmore\n\n# C\n");
    let items = outline_of(&nodes);
    let rows: Vec<(usize, u8)> = items.iter().map(|i| (i.row, i.level)).collect();
    assert_eq!(rows, vec![(1, 1), (3, 2), (5, 1)]);
    assert!(items.iter().all(|i| i.expanded));
    assert_eq!(items[0].range, nodes[1].source_range);
    assert_eq!(find_entry(&items, 0), None);
    assert_eq!(find_entry(&items, 1), Some(0));
    assert_eq!(find_entry(&items, 2), Some(0));
    assert_eq!(find_entry(&items, 3), Some(1));
    assert_eq!(find_entry(&items, 4), Some(1));
    assert_eq!(find_entry(&items, 5), Some(2));
    assert_eq!(find_entry(&items, 99), Some(2));
    assert_eq!(outline_of(&from_str("no heading")), Vec::new());
}

#[test]
fn outline_selects_and_sends_the_editor_to_a_row() {
    let nodes = from_str("intro\n\n# A\n\nbody\n\n## B\n\nmore\n\n# C\n");
    let mut o = OutlineState::new(&nodes, 4, true);
    assert!(o.is_open());
    assert_eq!(o.selected, Some(1));
    assert_eq!(
        outline::update(&outline::Message::Select, &mut o),
        Some(AppMessage::NoteEditor(basalt::note_editor::Message::SetRow(3)))
    );
    assert_eq!(outline::update(&outline::Message::Down, &mut o), None);
    assert_eq!(outline::update(&outline::Message::Down, &mut o), None);
    assert_eq!(o.selected, Some(2));
    assert_eq!(outline::update(&outline::Message::Up, &mut o), None);
    assert_eq!(o.selected, Some(1));
    assert_eq!(outline::update(&outline::Message::Expand, &mut o), None);
    assert!(!o.items[1].expanded);
    assert!(o.items[0].expanded);
    outline::update(&outline::Message::Expand, &mut o);
    assert!(o.items[1].expanded);
    assert_eq!(outline::update(&outline::Message::SelectAt(0), &mut o), None);
    assert_eq!(o.selected, None);
    assert_eq!(outline::update(&outline::Message::Select, &mut o), None);
    outline::update(&outline::Message::SelectAt(5), &mut o);
    assert_eq!(o.selected, Some(2));
    assert_eq!(outline::update(&outline::Message::Toggle, &mut o), None);
    assert!(!o.is_open());
    assert_eq!(
        outline::update(&outline::Message::ToggleExplorer, &mut o),
        Some(AppMessage::Explorer(explorer::Message::Toggle))
    );
    o.set_active(true);
    assert_eq!(
        outline::update(&outline::Message::SwitchPaneNext, &mut o),
        Some(AppMessage::SetActivePane(ActivePane::Explorer))
    );
    assert!(!o.active);
    assert_eq!(
        outline::update(&outline::Message::SwitchPanePrevious, &mut o),
        Some(AppMessage::SetActivePane(ActivePane::NoteEditor))
    );
    assert_eq!(outline::update(&outline::Message::SetNodes(from_str("# Only\n\ntext")), &mut o), None);
    assert_eq!(o.items.len(), 1);
    assert_eq!(o.selected, None);
    outline::update(&outline::Message::SelectAt(1), &mut o);
    outline::update(&outline::Message::SetNodes(from_str("# One\n\n# Two")), &mut o);
    assert_eq!(o.items.len(), 2);
    assert_eq!(o.selected, Some(0));
}

#[test]
fn panes_have_their_titles() {
    let title: &str = ActivePane::NoteEditor.into();
    assert_eq!(title, "Note Editor");
    assert_eq!(<&str>::from(ActivePane::Splash), "Splash");
    assert_eq!(<&str>::from(ActivePane::Explorer), "Explorer");
    assert_eq!(<&str>::from(ActivePane::Outline), "Outline");
    assert_eq!(<&str>::from(ActivePane::HelpModal), "Help");
    assert_eq!(<&str>::from(ActivePane::VaultSelectorModal), "Vault Selector");
    assert_eq!(ActivePane::default(), ActivePane::Splash);
    assert_eq!(ScrollAmount::default(), ScrollAmount::One);
}
