//! A modal command-bar interaction engine for desktop applications.
//!
//! The crate is the core state machine behind a vim-style command bar: a
//! normal navigation mode, a colon-command mode with completion, transient
//! multi-key shortcut sequences resolved against per-mode mapping tables,
//! and suspend-for-answer input prompts (blocking or not).
//!
//! The engine works on plain values. Key events arrive as [`keys::Key`]
//! values, typed commands arrive as [`commands::Command`] values, and
//! everything the host must perform (widget operations, callback
//! invocations, event emissions) comes back as [`effects::Effect`] values.
//! Rendering, key-code translation, the config-text grammar and settings
//! coercion are collaborators behind the traits in [`interface`].

pub mod command;
pub mod commands;
pub mod controller;
pub mod effects;
pub mod input;
pub mod interface;
pub mod keys;
pub mod mappings;
pub mod modes;
pub mod shortcut;

mod text;
