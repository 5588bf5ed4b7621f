//! Pane coordination and block-scoped document editing for a terminal note browser.

pub mod app;
pub mod command;
pub mod config;
pub mod explorer;
pub mod help_modal;
pub mod note_editor;
pub mod outline;
pub mod splash_modal;
pub mod text;
pub mod vault_selector;
pub mod vault_selector_modal;
