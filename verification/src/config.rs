//! What the user configures: the key bindings of each pane.

pub mod key_binding;

use crate::app::Message as AppMessage;
use crate::command::{is_command, message_of, parse_command, Command};
use crate::config::key_binding::{key_of, parse_key, ConfigError, Key, KeyBinding};
use crate::text::lowercase;
use vstd::prelude::*;

verus! {

/// The bindings of one pane, in the order in which they are tried.
#[derive(Clone, Debug, PartialEq)]
pub struct KeyBindings {
    pub bindings: Vec<KeyBinding>,
}

/// The command of the first of `bindings` that is for `key`.
pub open spec fn bound(bindings: Seq<KeyBinding>, key: Key) -> Option<Command>
    decreases bindings.len(),
{
    if bindings.len() == 0 {
        None
    } else if bindings[0].key == key {
        Some(bindings[0].command)
    } else {
        bound(bindings.skip(1), key)
    }
}

/// What the key `key` asks of the application under `bindings`.
pub open spec fn message_for(bindings: Seq<KeyBinding>, key: Key) -> Option<AppMessage> {
    match bound(bindings, key) {
        Some(command) => Some(message_of(command)),
        None => None,
    }
}

impl KeyBindings {
    pub fn new(bindings: Vec<KeyBinding>) -> (r: Self)
        ensures
            r.bindings == bindings,
    {
        KeyBindings { bindings }
    }

    /// What `key` asks of the application: the message of the command that
    /// the first binding for `key` names.
    pub fn key_to_message(&self, key: Key) -> (r: Option<AppMessage>)
        ensures
            r == message_for(self.bindings@, key),
    {
        let mut i: usize = 0;
        assert(self.bindings@.skip(0) =~= self.bindings@);
        while i < self.bindings.len()
            invariant
                i <= self.bindings.len(),
                bound(self.bindings@, key) == bound(self.bindings@.skip(i as int), key),
            decreases self.bindings.len() - i,
        {
            assert(self.bindings@.skip(i as int).skip(1) =~= self.bindings@.skip(i + 1));
            if self.bindings[i].key == key {
                return Some(self.bindings[i].command.message());
            }
            i += 1;
        }
        None
    }
}

/// Reads one binding: a key chord such as `"ctrl+s"` and the command it is
/// bound to. A chord that cannot be read is reported before a command that
/// cannot.
pub fn parse_binding(key: &str, command: &str) -> (r: Result<KeyBinding, ConfigError>)
    ensures
        match r {
            Ok(b) => key_of(lowercase(key@)) == Ok::<Key, key_binding::ConfigErrorView>(b.key)
                && is_command(Ok(b.command), command@),
            Err(e) => match key_of(lowercase(key@)) {
                Ok(_) => is_command(Err(e), command@),
                Err(v) => e@ == v,
            },
        },
{
    let chord = match parse_key(key) {
        Ok(k) => k,
        Err(e) => {
            return Err(e);
        },
    };
    match parse_command(command) {
        Ok(c) => Ok(KeyBinding::new(chord, c)),
        Err(e) => Err(e),
    }
}

/// The configuration: the bindings that hold everywhere, those of each
/// pane, and whether notes can be edited.
#[derive(Clone, Debug, PartialEq)]
pub struct Config {
    pub experimental_editor: bool,
    pub global: KeyBindings,
    pub splash: KeyBindings,
    pub explorer: KeyBindings,
    pub outline: KeyBindings,
    pub help_modal: KeyBindings,
    pub vault_selector_modal: KeyBindings,
    pub note_editor: KeyBindings,
}

} // verus!
