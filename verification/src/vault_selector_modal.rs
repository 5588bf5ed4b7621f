//! The modal in which another vault is picked.

use crate::app::Message as AppMessage;
use crate::app::Vault;
use crate::vault_selector::{next_of, picked, previous_of, VaultSelectorState};
use vstd::prelude::*;

verus! {

#[derive(Clone, Copy, Debug, PartialEq, Eq, Structural)]
pub enum Message {
    Up,
    Down,
    Close,
    Select,
    Toggle,
}

#[derive(Clone, Debug, PartialEq)]
pub struct VaultSelectorModalState {
    pub vault_selector_state: VaultSelectorState,
    pub visible: bool,
}

/// The modal after `message`.
pub open spec fn updated(s: VaultSelectorModalState, message: Message) -> VaultSelectorModalState {
    let list = s.vault_selector_state;
    match message {
        Message::Up => VaultSelectorModalState {
            vault_selector_state: VaultSelectorState {
                highlighted: previous_of(list.highlighted, list.items@.len()),
                ..list
            },
            ..s
        },
        Message::Down => VaultSelectorModalState {
            vault_selector_state: VaultSelectorState {
                highlighted: next_of(list.highlighted, list.items@.len()),
                ..list
            },
            ..s
        },
        Message::Close => VaultSelectorModalState { visible: false, ..s },
        Message::Toggle => VaultSelectorModalState { visible: !s.visible, ..s },
        Message::Select => {
            let chosen = VaultSelectorState { selected_item_index: list.highlighted, ..list };
            VaultSelectorModalState {
                vault_selector_state: chosen,
                visible: s.visible && picked(chosen) is None,
            }
        },
    }
}

impl VaultSelectorModalState {
    pub fn new(items: Vec<Vault>) -> (r: Self)
        ensures
            r.vault_selector_state == (VaultSelectorState {
                items,
                highlighted: Some(0),
                selected_item_index: None,
            }),
            !r.visible,
    {
        VaultSelectorModalState {
            vault_selector_state: VaultSelectorState::new(items),
            visible: false,
        }
    }

    pub fn toggle_visibility(&mut self)
        ensures
            *final(self) == updated(*old(self), Message::Toggle),
    {
        self.visible = !self.visible;
    }

    pub fn dismiss(&mut self)
        ensures
            *final(self) == updated(*old(self), Message::Close),
    {
        self.visible = false;
    }
}

/// Whether `after` and `r` are what `message` makes of the modal
/// `before`: the modal is `updated`, and a vault is to be opened just where
/// `Select` picks one.
pub open spec fn transition(
    before: VaultSelectorModalState,
    after: VaultSelectorModalState,
    message: Message,
    r: Option<AppMessage>,
) -> bool {
    &&& after == updated(before, message)
    &&& match r {
        Some(m) => message == Message::Select && (m matches AppMessage::OpenVault(v) && picked(
            after.vault_selector_state,
        ) matches Some(p) && v.name == p.name && v.notes@ == p.notes@),
        None => !(message == Message::Select && picked(after.vault_selector_state) is Some),
    }
}

/// Applies one message to the modal. Where `Select` picks a vault, the
/// modal is hidden and the vault is to be opened.
pub fn update(message: &Message, state: &mut VaultSelectorModalState) -> (r: Option<AppMessage>)
    ensures
        transition(*old(state), *final(state), *message, r),
{
    match message {
        Message::Up => state.vault_selector_state.previous(),
        Message::Down => state.vault_selector_state.next(),
        Message::Close => state.dismiss(),
        Message::Toggle => state.toggle_visibility(),
        Message::Select => {
            state.vault_selector_state.select();
            let chosen = match state.vault_selector_state.selected_item() {
                Some(vault) => Some(vault.clone()),
                None => None,
            };
            match chosen {
                Some(vault) => {
                    state.dismiss();
                    return Some(AppMessage::OpenVault(vault));
                },
                None => {},
            }
        },
    };
    None
}

} // verus!
