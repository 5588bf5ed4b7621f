use basalt::app::{Effect, Message, ScrollAmount};
use basalt::command::{
    after_sync_command, parse_command, run_command, spawn_command, str_to_command, sync_command,
    Command, Invocation,
};
use basalt::config::key_binding::ConfigError;
use basalt::{explorer, help_modal, note_editor, outline, splash_modal, vault_selector_modal};

#[test]
fn str_to_command_knows_the_names() {
    assert_eq!(str_to_command("quit"), Some(Command::Quit));
    assert_eq!(str_to_command("splash_open"), Some(Command::SplashOpen));
    assert_eq!(str_to_command("explorer_scroll_down_half_page"), Some(Command::ExplorerScrollDownHalfPage));
    assert_eq!(str_to_command("outline_switch_pane_previous"), Some(Command::OutlineSwitchPanePrevious));
    assert_eq!(str_to_command("help_modal_toggle"), Some(Command::HelpModalToggle));
    assert_eq!(str_to_command("note_editor_cursor_down"), Some(Command::NoteEditorCursorDown));
    assert_eq!(
        str_to_command("note_editor_experimental_cursor_word_backward"),
        Some(Command::NoteEditorExperimentalCursorWordBackward)
    );
    assert_eq!(str_to_command("vault_selector_modal_toggle"), Some(Command::VaultSelectorModalToggle));
}

#[test]
fn str_to_command_rejects_other_names() {
    assert_eq!(str_to_command(""), None);
    assert_eq!(str_to_command("Quit"), None);
    assert_eq!(str_to_command("quit "), None);
    assert_eq!(str_to_command("exec:ls"), None);
}

#[test]
fn parse_command_reads_exec_and_spawn() {
    assert_eq!(parse_command("exec:open %note_path"), Ok(Command::Exec(String::from("open %note_path"))));
    assert_eq!(parse_command("spawn:code %vault"), Ok(Command::Spawn(String::from("code %vault"))));
    assert_eq!(parse_command("exec:"), Ok(Command::Exec(String::new())));
    assert_eq!(parse_command("quit"), Ok(Command::Quit));
}

#[test]
fn parse_command_rejects_what_is_no_command() {
    assert_eq!(
        parse_command("exec"),
        Err(ConfigError::InvalidKeybinding(String::from("exec is not a valid command")))
    );
    assert_eq!(
        parse_command("nothing"),
        Err(ConfigError::InvalidKeybinding(String::from("nothing is not a valid command")))
    );
}

#[test]
fn commands_become_messages() {
    assert_eq!(Message::from(Command::Quit), Message::Quit);
    assert_eq!(Message::from(Command::SplashUp), Message::Splash(splash_modal::Message::Up));
    assert_eq!(Message::from(Command::ExplorerSort), Message::Explorer(explorer::Message::Sort));
    assert_eq!(
        Message::from(Command::ExplorerScrollUpHalfPage),
        Message::Explorer(explorer::Message::ScrollUp(ScrollAmount::HalfPage))
    );
    assert_eq!(Message::from(Command::OutlineExpand), Message::Outline(outline::Message::Expand));
    assert_eq!(
        Message::from(Command::HelpModalScrollDownOne),
        Message::HelpModal(help_modal::Message::ScrollDown(ScrollAmount::One))
    );
    assert_eq!(
        Message::from(Command::NoteEditorExperimentalSetEditMode),
        Message::NoteEditor(note_editor::Message::EditMode)
    );
    assert_eq!(
        Message::from(Command::NoteEditorExperimentalExitMode),
        Message::NoteEditor(note_editor::Message::ExitMode)
    );
    assert_eq!(
        Message::from(Command::VaultSelectorModalOpen),
        Message::VaultSelectorModal(vault_selector_modal::Message::Select)
    );
    assert_eq!(Message::from(Command::Exec(String::from("ls"))), Message::Exec(String::from("ls")));
    assert_eq!(Command::Spawn(String::from("ls")).message(), Message::Spawn(String::from("ls")));
}

fn whole_line(call: &Invocation) -> String {
    if call.args.is_empty() {
        call.program.clone()
    } else {
        format!("{} {}", call.program, call.argument())
    }
}

#[test]
fn exec_open_note_path_expands_to_the_path() {
    let command = match parse_command("exec:open %note_path") {
        Ok(Command::Exec(line)) => line,
        other => panic!("not a command line: {:?}", other),
    };
    let call = run_command(command, "vault", "a", "/vault/a.md").expect("a program to run");
    assert_eq!(call.program, "open");
    assert_eq!(call.args, vec!["/vault/a.md"]);
    assert_eq!(whole_line(&call), "open /vault/a.md");
}

#[test]
fn note_path_is_put_in_before_note() {
    let call = run_command(String::from("edit %note %note_path %vault"), "work", "tasks", "/v/tasks.md")
        .expect("a program to run");
    assert_eq!(call.program, "edit");
    assert_eq!(call.args, vec!["tasks", "/v/tasks.md", "work"]);
    assert_eq!(call.argument(), "tasks /v/tasks.md work");
}

#[test]
fn a_name_with_spaces_gives_several_words() {
    let call = run_command(String::from("open %note"), "v", "my note", "").expect("a program to run");
    assert_eq!(call.args, vec!["my", "note"]);
}

#[test]
fn an_empty_command_line_runs_nothing() {
    assert_eq!(run_command(String::from("   "), "v", "n", "p"), None);
    assert_eq!(run_command(String::from("%note"), "v", "", "p"), None);
    assert_eq!(sync_command(String::new(), "v", "n", "p"), None);
    assert_eq!(spawn_command(String::from("\t"), "v", "n", "p"), None);
}

#[test]
fn sync_and_spawn_ask_for_their_effects() {
    let call = Invocation { program: String::from("ls"), args: vec![String::from("/v")] };
    assert_eq!(sync_command(String::from("ls %vault"), "/v", "", ""), Some(Effect::Exec(call.clone())));
    assert_eq!(spawn_command(String::from("ls %vault"), "/v", "", ""), Some(Effect::Spawn(call)));
}

#[test]
fn after_a_program_that_ran_the_explorer_opens_again() {
    assert_eq!(after_sync_command(true), Some(Message::Explorer(explorer::Message::Open)));
    assert_eq!(after_sync_command(false), None);
}
