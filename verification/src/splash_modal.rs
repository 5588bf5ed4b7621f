//! The splash screen, where a vault is picked when the program starts.

use crate::app::Message as AppMessage;
use crate::app::Vault;
use crate::vault_selector::{next_of, picked, previous_of, VaultSelectorState};
use vstd::prelude::*;

verus! {

#[derive(Clone, Copy, Debug, PartialEq, Eq, Structural)]
pub enum Message {
    Up,
    Down,
    Open,
}

#[derive(Clone, Debug, PartialEq)]
pub struct SplashModalState {
    pub vault_selector_state: VaultSelectorState,
    pub version: String,
    pub visible: bool,
}

/// The splash screen after `message`.
pub open spec fn updated(s: SplashModalState, message: Message) -> SplashModalState {
    let list = s.vault_selector_state;
    match message {
        Message::Up => SplashModalState {
            vault_selector_state: VaultSelectorState {
                highlighted: previous_of(list.highlighted, list.items@.len()),
                ..list
            },
            ..s
        },
        Message::Down => SplashModalState {
            vault_selector_state: VaultSelectorState {
                highlighted: next_of(list.highlighted, list.items@.len()),
                ..list
            },
            ..s
        },
        Message::Open => {
            let chosen = VaultSelectorState { selected_item_index: list.highlighted, ..list };
            SplashModalState {
                vault_selector_state: chosen,
                visible: s.visible && picked(chosen) is None,
                ..s
            }
        },
    }
}

/// Whether `after` and `r` are what `message` makes of the splash screen
/// `before`: the screen is `updated`, and a vault is to be opened just
/// where `Open` picks one.
pub open spec fn transition(
    before: SplashModalState,
    after: SplashModalState,
    message: Message,
    r: Option<AppMessage>,
) -> bool {
    &&& after == updated(before, message)
    &&& match r {
        Some(m) => message == Message::Open && (m matches AppMessage::OpenVault(v) && picked(
            after.vault_selector_state,
        ) matches Some(p) && v.name == p.name && v.notes@ == p.notes@),
        None => !(message == Message::Open && picked(after.vault_selector_state) is Some),
    }
}

/// Applies one message to the splash screen. Where `Open` picks a vault,
/// the screen is hidden and the vault is to be opened.
pub fn update(message: &Message, state: &mut SplashModalState) -> (r: Option<AppMessage>)
    ensures
        transition(*old(state), *final(state), *message, r),
{
    match message {
        Message::Up => state.previous(),
        Message::Down => state.next(),
        Message::Open => {
            state.select();
            let chosen = match state.selected_item() {
                Some(vault) => Some(vault.clone()),
                None => None,
            };
            match chosen {
                Some(vault) => {
                    state.dismiss();
                    return Some(AppMessage::OpenVault(vault));
                },
                None => {},
            }
        },
    };
    None
}

impl SplashModalState {
    pub fn new(version: &str, items: Vec<Vault>, visible: bool) -> (r: Self)
        ensures
            r.vault_selector_state == (VaultSelectorState {
                items,
                highlighted: Some(0),
                selected_item_index: None,
            }),
            r.version@ == version@,
            r.visible == visible,
    {
        SplashModalState {
            version: version.to_owned(),
            vault_selector_state: VaultSelectorState::new(items),
            visible,
        }
    }

    pub fn dismiss(&mut self)
        ensures
            *final(self) == (SplashModalState { visible: false, ..*old(self) }),
    {
        self.visible = false;
    }

    /// Picks the highlighted vault.
    pub fn select(&mut self)
        ensures
            *final(self) == (SplashModalState {
                vault_selector_state: VaultSelectorState {
                    selected_item_index: old(self).vault_selector_state.highlighted,
                    ..old(self).vault_selector_state
                },
                ..*old(self)
            }),
    {
        self.vault_selector_state.select();
    }

    pub fn items(self) -> (r: Vec<Vault>)
        ensures
            r == self.vault_selector_state.items,
    {
        self.vault_selector_state.items
    }

    pub fn get_item(self, index: usize) -> (r: Option<Vault>)
        ensures
            match r {
                Some(v) => index < self.vault_selector_state.items@.len() && v.name
                    == self.vault_selector_state.items@[index as int].name && v.notes@
                    == self.vault_selector_state.items@[index as int].notes@,
                None => index >= self.vault_selector_state.items@.len(),
            },
    {
        if index < self.vault_selector_state.items.len() {
            Some(self.vault_selector_state.items[index].clone())
        } else {
            None
        }
    }

    /// The vault that was picked.
    pub fn selected_item(&self) -> (r: Option<&Vault>)
        ensures
            match r {
                Some(v) => picked(self.vault_selector_state) == Some(*v),
                None => picked(self.vault_selector_state) is None,
            },
    {
        self.vault_selector_state.selected_item()
    }

    pub fn selected(&self) -> (r: Option<usize>)
        ensures
            r == self.vault_selector_state.selected_item_index,
    {
        self.vault_selector_state.selected()
    }

    pub fn next(&mut self)
        ensures
            *final(self) == updated(*old(self), Message::Down),
    {
        self.vault_selector_state.next();
    }

    pub fn previous(&mut self)
        ensures
            *final(self) == updated(*old(self), Message::Up),
    {
        self.vault_selector_state.previous();
    }
}

} // verus!
