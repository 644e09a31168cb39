//! The collaborator interfaces the engine is driven with.
//!
//! The command-line grammar, the set of special commands and the coercion
//! of setting values are host concerns: the engine only routes their
//! results. Each collaborator is a narrow trait implemented by the host;
//! the engine promises nothing about what the collaborators return and is
//! verified for every possible answer.

use vstd::prelude::*;

use crate::commands::{ParseResult, SettingVariant};

verus! {

/// The command-line and config-text parser.
pub trait CommandParser {
    /// Parse one line of text into typed commands and errors.
    fn parse_line(&mut self, line: &str) -> ParseResult;
}

/// The host's set of special (identifier-prefixed) commands.
pub trait SpecialCommands {
    /// Whether a character introduces a special command.
    fn is_identifier(&self, c: char) -> bool;

    /// Whether a special command identifier is incremental: its command is
    /// dispatched on every entry change, not only on activation.
    fn is_incremental(&self, c: char) -> bool;

    /// Convert an identifier and the typed text to the payload of a custom
    /// command, or refuse.
    fn identifier_to_command(&self, identifier: char, text: &str) -> Result<String, String>;
}

/// The settings collaborator: coerces a raw textual value into a typed
/// setting variant.
pub trait SettingsCoercer {
    /// Coerce `value` for the setting `name`, or explain why it cannot be.
    fn to_variant(&self, name: &str, value: &str) -> Result<SettingVariant, String>;
}

/// The collaborators, bundled so that handlers take a single argument.
pub struct Collaborators<P: CommandParser, C: SpecialCommands, S: SettingsCoercer> {
    pub parser: P,
    pub special: C,
    pub settings: S,
}

} // verus!
