use basalt::config::key_binding::{
    parse_code, parse_key, parse_lowered_key, parse_modifiers, split_parts, ConfigError, Key,
    KeyBinding, KeyCode, KeyModifiers,
};
use basalt::command::Command;
use basalt::config::{parse_binding, KeyBindings};
use basalt::app::Message;

#[test]
fn parse_modifiers_knows_each_name() {
    assert_eq!(parse_modifiers(""), Ok(KeyModifiers::none()));
    assert_eq!(parse_modifiers("alt"), Ok(KeyModifiers::alt()));
    assert_eq!(parse_modifiers("ctrl"), Ok(KeyModifiers::control()));
    assert_eq!(parse_modifiers("control"), Ok(KeyModifiers::control()));
    assert_eq!(parse_modifiers("hyper"), Ok(KeyModifiers::hyper()));
    assert_eq!(parse_modifiers("meta"), Ok(KeyModifiers::meta()));
    assert_eq!(parse_modifiers("shift"), Ok(KeyModifiers::shift()));
    assert_eq!(parse_modifiers("super"), Ok(KeyModifiers::super_key()));
}

#[test]
fn parse_modifiers_rejects_an_unknown_name() {
    assert_eq!(
        parse_modifiers("cmd"),
        Err(ConfigError::UnknownKeyModifiers(String::from("cmd")))
    );
}

#[test]
fn parse_code_reads_characters_function_keys_and_names() {
    assert_eq!(parse_code(""), Ok(KeyCode::Null));
    assert_eq!(parse_code("q"), Ok(KeyCode::Char('q')));
    assert_eq!(parse_code("?"), Ok(KeyCode::Char('?')));
    assert_eq!(parse_code("f"), Ok(KeyCode::Char('f')));
    assert_eq!(parse_code("f1"), Ok(KeyCode::F(1)));
    assert_eq!(parse_code("f12"), Ok(KeyCode::F(12)));
    assert_eq!(parse_code("f255"), Ok(KeyCode::F(255)));
    assert_eq!(parse_code("esc"), Ok(KeyCode::Esc));
    assert_eq!(parse_code("space"), Ok(KeyCode::Char(' ')));
    assert_eq!(parse_code("backspace"), Ok(KeyCode::Backspace));
    assert_eq!(parse_code("backtab"), Ok(KeyCode::BackTab));
    assert_eq!(parse_code("delete"), Ok(KeyCode::Delete));
    assert_eq!(parse_code("down"), Ok(KeyCode::Down));
    assert_eq!(parse_code("end"), Ok(KeyCode::End));
    assert_eq!(parse_code("enter"), Ok(KeyCode::Enter));
    assert_eq!(parse_code("home"), Ok(KeyCode::Home));
    assert_eq!(parse_code("insert"), Ok(KeyCode::Insert));
    assert_eq!(parse_code("left"), Ok(KeyCode::Left));
    assert_eq!(parse_code("page_down"), Ok(KeyCode::PageDown));
    assert_eq!(parse_code("page_up"), Ok(KeyCode::PageUp));
    assert_eq!(parse_code("right"), Ok(KeyCode::Right));
    assert_eq!(parse_code("tab"), Ok(KeyCode::Tab));
    assert_eq!(parse_code("up"), Ok(KeyCode::Up));
}

#[test]
fn parse_code_rejects_what_names_no_key() {
    assert_eq!(parse_code("f256"), Err(ConfigError::UnknownKeyCode(String::from("f256"))));
    assert_eq!(parse_code("fx"), Err(ConfigError::UnknownKeyCode(String::from("fx"))));
    assert_eq!(parse_code("escape"), Err(ConfigError::UnknownKeyCode(String::from("escape"))));
    assert_eq!(parse_code("é"), Err(ConfigError::UnknownKeyCode(String::from("é"))));
}

#[test]
fn split_parts_always_gives_one_part_at_least() {
    assert_eq!(split_parts("ctrl+shift+s"), vec!["ctrl", "shift", "s"]);
    assert_eq!(split_parts("q"), vec!["q"]);
    assert_eq!(split_parts(""), vec![""]);
    assert_eq!(split_parts("ctrl++"), vec!["ctrl", "", ""]);
}

#[test]
fn parse_key_reads_a_chord() {
    assert_eq!(parse_key("ctrl+s"), Ok(Key::new(KeyCode::Char('s'), KeyModifiers::control())));
    assert_eq!(
        parse_key("ctrl+alt+delete"),
        Ok(Key::new(KeyCode::Delete, KeyModifiers::control().union(KeyModifiers::alt())))
    );
    assert_eq!(parse_key("q"), Ok(Key::from('q')));
    assert_eq!(parse_key(""), Ok(Key::new(KeyCode::Null, KeyModifiers::none())));
    assert_eq!(parse_key("shift+tab"), Ok(Key::from((KeyCode::Tab, KeyModifiers::shift()))));
}

#[test]
fn parse_key_takes_no_notice_of_case() {
    assert_eq!(parse_key("CTRL+S"), parse_key("ctrl+s"));
    assert_eq!(parse_key("Shift+Page_Up"), Ok(Key::new(KeyCode::PageUp, KeyModifiers::shift())));
    assert_eq!(parse_key("Q"), Ok(Key::from('q')));
}

#[test]
fn parse_lowered_key_does_not_change_the_case() {
    assert_eq!(parse_lowered_key("Q"), Ok(Key::from('Q')));
    assert_eq!(
        parse_lowered_key("CTRL+s"),
        Err(ConfigError::UnknownKeyModifiers(String::from("CTRL")))
    );
}

#[test]
fn parse_key_reports_the_first_part_at_fault() {
    assert_eq!(
        parse_key("cmd+bogus+x"),
        Err(ConfigError::UnknownKeyModifiers(String::from("cmd")))
    );
    assert_eq!(
        parse_key("ctrl+bogus+nokey"),
        Err(ConfigError::UnknownKeyModifiers(String::from("bogus")))
    );
    assert_eq!(
        parse_key("ctrl+nokey"),
        Err(ConfigError::UnknownKeyCode(String::from("nokey")))
    );
}

#[test]
fn key_constructors_agree() {
    assert_eq!(Key::ctrl_c(), Key::from(('c', KeyModifiers::control())));
    assert_eq!(Key::from('x'), Key { modifiers: KeyModifiers::none(), code: KeyCode::Char('x') });
    assert!(KeyModifiers::none().is_empty());
    assert!(!KeyModifiers::meta().is_empty());
    assert_eq!(KeyModifiers::shift().union(KeyModifiers::shift()), KeyModifiers::shift());
}

#[test]
fn parse_binding_reads_chord_and_command() {
    assert_eq!(
        parse_binding("ctrl+s", "note_editor_experimental_save"),
        Ok(KeyBinding::new(
            Key::new(KeyCode::Char('s'), KeyModifiers::control()),
            Command::NoteEditorExperimentalSave
        ))
    );
    assert_eq!(
        parse_binding("ctrl+nokey", "bogus"),
        Err(ConfigError::UnknownKeyCode(String::from("nokey")))
    );
    assert_eq!(
        parse_binding("q", "bogus"),
        Err(ConfigError::InvalidKeybinding(String::from("bogus is not a valid command")))
    );
}

#[test]
fn key_to_message_takes_the_first_binding_for_the_key() {
    let bindings = KeyBindings::new(vec![
        KeyBinding::new(Key::from('q'), Command::Quit),
        KeyBinding::new(Key::from('j'), Command::ExplorerDown),
        KeyBinding::new(Key::from('q'), Command::ExplorerUp),
    ]);
    assert_eq!(bindings.key_to_message(Key::from('q')), Some(Message::Quit));
    assert_eq!(
        bindings.key_to_message(Key::from('j')),
        Some(Message::Explorer(basalt::explorer::Message::Down))
    );
    assert_eq!(bindings.key_to_message(Key::from('x')), None);
    assert_eq!(bindings.key_to_message(Key::ctrl_c()), None);
}
