//! The list of vaults to pick from.

use crate::app::Vault;
use vstd::prelude::*;

verus! {

/// A list of vaults, the entry that is highlighted and the entry that was
/// picked.
#[derive(Clone, Debug, PartialEq)]
pub struct VaultSelectorState {
    pub items: Vec<Vault>,
    pub highlighted: Option<usize>,
    pub selected_item_index: Option<usize>,
}

/// The index of the last of `len` entries, 0 where there is none.
pub open spec fn last_index(len: nat) -> usize {
    if len > 0 {
        (len - 1) as usize
    } else {
        0
    }
}

/// The entry after the highlighted one, the last entry at most; the first
/// entry where none is highlighted.
pub open spec fn next_of(highlighted: Option<usize>, len: nat) -> Option<usize> {
    match highlighted {
        Some(i) => if i < last_index(len) {
            Some((i + 1) as usize)
        } else {
            Some(last_index(len))
        },
        None => Some(0),
    }
}

/// The entry before the highlighted one, the first entry at least; the
/// last entry where none is highlighted.
pub open spec fn previous_of(highlighted: Option<usize>, len: nat) -> Option<usize> {
    match highlighted {
        Some(i) => if i > 0 {
            Some((i - 1) as usize)
        } else {
            Some(0)
        },
        None => Some(last_index(len)),
    }
}

/// The vault that was picked, if one was and the list holds it.
pub open spec fn picked(s: VaultSelectorState) -> Option<Vault> {
    match s.selected_item_index {
        Some(i) => if i < s.items.len() {
            Some(s.items@[i as int])
        } else {
            None
        },
        None => None,
    }
}

pub(crate) fn last_of(len: usize) -> (r: usize)
    ensures
        r == last_index(len as nat),
{
    if len > 0 {
        len - 1
    } else {
        0
    }
}

pub(crate) fn step_next(highlighted: Option<usize>, len: usize) -> (r: Option<usize>)
    ensures
        r == next_of(highlighted, len as nat),
{
    match highlighted {
        Some(i) => if i < last_of(len) {
            Some(i + 1)
        } else {
            Some(last_of(len))
        },
        None => Some(0),
    }
}

pub(crate) fn step_previous(highlighted: Option<usize>, len: usize) -> (r: Option<usize>)
    ensures
        r == previous_of(highlighted, len as nat),
{
    match highlighted {
        Some(i) => if i > 0 {
            Some(i - 1)
        } else {
            Some(0)
        },
        None => Some(last_of(len)),
    }
}

impl VaultSelectorState {
    /// A list over `items` with the first entry highlighted and none picked.
    pub fn new(items: Vec<Vault>) -> (r: Self)
        ensures
            r == (VaultSelectorState { items, highlighted: Some(0), selected_item_index: None }),
    {
        VaultSelectorState { items, highlighted: Some(0), selected_item_index: None }
    }

    /// Picks the highlighted entry.
    pub fn select(&mut self)
        ensures
            *final(self) == (VaultSelectorState {
                selected_item_index: old(self).highlighted,
                ..*old(self)
            }),
    {
        self.selected_item_index = self.highlighted;
    }

    pub fn selected(&self) -> (r: Option<usize>)
        ensures
            r == self.selected_item_index,
    {
        self.selected_item_index
    }

    /// The vault that was picked.
    pub fn selected_item(&self) -> (r: Option<&Vault>)
        ensures
            match r {
                Some(v) => picked(*self) == Some(*v),
                None => picked(*self) is None,
            },
    {
        match self.selected_item_index {
            Some(i) => if i < self.items.len() {
                Some(&self.items[i])
            } else {
                None
            },
            None => None,
        }
    }

    pub fn next(&mut self)
        ensures
            *final(self) == (VaultSelectorState {
                highlighted: next_of(old(self).highlighted, old(self).items@.len()),
                ..*old(self)
            }),
    {
        self.highlighted = step_next(self.highlighted, self.items.len());
    }

    pub fn previous(&mut self)
        ensures
            *final(self) == (VaultSelectorState {
                highlighted: previous_of(old(self).highlighted, old(self).items@.len()),
                ..*old(self)
            }),
    {
        self.highlighted = step_previous(self.highlighted, self.items.len());
    }
}

} // verus!
