//! Typed commands, parse results, and shortcut-command interpretation.
//!
//! A command is the typed form of one line of config or command-bar text,
//! as produced by the command-line parser collaborator. Application
//! commands come from a fixed, closed registry of built-in actions, so an
//! unknown application-command name is rejected when the text is typed,
//! not when it is dispatched.

use vstd::prelude::*;
use vstd::string::*;

use crate::keys::Key;
use crate::text::str_eq;

verus! {

/// The fixed, closed registry of built-in application actions.
#[derive(Clone, Copy, Debug, PartialEq, Eq, Structural)]
pub enum AppAction {
    /// Select the next completion entry.
    CompleteNext,
    /// Select the previous completion entry.
    CompletePrevious,
    /// Delete the character after the entry cursor.
    EntryDeleteNextChar,
    /// Delete the word after the entry cursor.
    EntryDeleteNextWord,
    /// Delete the word before the entry cursor.
    EntryDeletePreviousWord,
    /// Move the entry cursor to the end.
    EntryEnd,
    /// Move the entry cursor one character forward.
    EntryNextChar,
    /// Move the entry cursor one word forward.
    EntryNextWord,
    /// Move the entry cursor one character back.
    EntryPreviousChar,
    /// Move the entry cursor one word back.
    EntryPreviousWord,
    /// Move the entry cursor to the start, after any command prefix.
    EntrySmartHome,
}

/// The name under which an application action is registered.
pub open spec fn app_action_name(a: AppAction) -> Seq<char> {
    match a {
        AppAction::CompleteNext => "complete-next"@,
        AppAction::CompletePrevious => "complete-previous"@,
        AppAction::EntryDeleteNextChar => "entry-delete-next-char"@,
        AppAction::EntryDeleteNextWord => "entry-delete-next-word"@,
        AppAction::EntryDeletePreviousWord => "entry-delete-previous-word"@,
        AppAction::EntryEnd => "entry-end"@,
        AppAction::EntryNextChar => "entry-next-char"@,
        AppAction::EntryNextWord => "entry-next-word"@,
        AppAction::EntryPreviousChar => "entry-previous-char"@,
        AppAction::EntryPreviousWord => "entry-previous-word"@,
        AppAction::EntrySmartHome => "entry-smart-home"@,
    }
}

/// The action registered under a name, if any.
pub open spec fn spec_app_action_of(name: Seq<char>) -> Option<AppAction> {
    if name == "complete-next"@ {
        Some(AppAction::CompleteNext)
    } else if name == "complete-previous"@ {
        Some(AppAction::CompletePrevious)
    } else if name == "entry-delete-next-char"@ {
        Some(AppAction::EntryDeleteNextChar)
    } else if name == "entry-delete-next-word"@ {
        Some(AppAction::EntryDeleteNextWord)
    } else if name == "entry-delete-previous-word"@ {
        Some(AppAction::EntryDeletePreviousWord)
    } else if name == "entry-end"@ {
        Some(AppAction::EntryEnd)
    } else if name == "entry-next-char"@ {
        Some(AppAction::EntryNextChar)
    } else if name == "entry-next-word"@ {
        Some(AppAction::EntryNextWord)
    } else if name == "entry-previous-char"@ {
        Some(AppAction::EntryPreviousChar)
    } else if name == "entry-previous-word"@ {
        Some(AppAction::EntryPreviousWord)
    } else if name == "entry-smart-home"@ {
        Some(AppAction::EntrySmartHome)
    } else {
        None
    }
}

/// Classify an application-command name against the fixed registry. A name
/// outside the registry yields `None`; validating names here, when commands
/// are built, makes an unknown name unreachable at dispatch time.
pub fn app_action_of_name(name: &str) -> (r: Option<AppAction>)
    ensures
        r == spec_app_action_of(name@),
{
    if str_eq(name, "complete-next") {
        Some(AppAction::CompleteNext)
    } else if str_eq(name, "complete-previous") {
        Some(AppAction::CompletePrevious)
    } else if str_eq(name, "entry-delete-next-char") {
        Some(AppAction::EntryDeleteNextChar)
    } else if str_eq(name, "entry-delete-next-word") {
        Some(AppAction::EntryDeleteNextWord)
    } else if str_eq(name, "entry-delete-previous-word") {
        Some(AppAction::EntryDeletePreviousWord)
    } else if str_eq(name, "entry-end") {
        Some(AppAction::EntryEnd)
    } else if str_eq(name, "entry-next-char") {
        Some(AppAction::EntryNextChar)
    } else if str_eq(name, "entry-next-word") {
        Some(AppAction::EntryNextWord)
    } else if str_eq(name, "entry-previous-char") {
        Some(AppAction::EntryPreviousChar)
    } else if str_eq(name, "entry-previous-word") {
        Some(AppAction::EntryPreviousWord)
    } else if str_eq(name, "entry-smart-home") {
        Some(AppAction::EntrySmartHome)
    } else {
        None
    }
}

/// A typed setting value, as coerced by the settings collaborator.
#[derive(Clone, Debug)]
pub enum SettingValue {
    Bool(bool),
    Int(i64),
    Str(String),
}

impl SettingValue {
    /// An equal copy of the value.
    pub fn duplicate(&self) -> (r: SettingValue)
        ensures
            r == *self,
    {
        match self {
            SettingValue::Bool(b) => SettingValue::Bool(*b),
            SettingValue::Int(i) => SettingValue::Int(*i),
            SettingValue::Str(s) => SettingValue::Str(s.clone()),
        }
    }
}

/// A coerced setting: the setting name and its typed value.
#[derive(Clone, Debug)]
pub struct SettingVariant {
    pub name: String,
    pub value: SettingValue,
}

impl SettingVariant {
    /// An equal copy of the setting.
    pub fn duplicate(&self) -> (r: SettingVariant)
        ensures
            r == *self,
    {
        SettingVariant { name: self.name.clone(), value: self.value.duplicate() }
    }
}

/// One typed command from parsed config or command-bar text.
#[derive(Debug)]
pub enum Command {
    /// A built-in application action.
    App(AppAction),
    /// A custom command, forwarded verbatim to the host.
    Custom(String),
    /// Bind a key sequence to an action string in a mode.
    MapKeys {
        /// The action executed when the keys are pressed.
        action: String,
        /// The key shortcut that triggers the action.
        keys: Vec<Key>,
        /// The mode prefix in which the binding lives.
        mode: String,
    },
    /// Change a setting; the raw value is coerced by the settings
    /// collaborator at dispatch time.
    SetSetting {
        name: String,
        value: String,
    },
    /// Remove the binding of a key sequence in a mode.
    UnmapKeys {
        /// The bound key shortcut to remove.
        keys: Vec<Key>,
        /// The mode prefix in which the binding lives.
        mode: String,
    },
}

/// One error from parsing config or command-bar text.
#[derive(Clone, Debug)]
pub enum ParseError {
    /// A required command argument is missing.
    MissingArgument,
    /// The line holds no command at all (blank or a comment).
    NoCommand,
    /// The text does not match the grammar.
    Parse {
        /// The unexpected token.
        unexpected: String,
        /// What was expected instead.
        expected: String,
    },
    /// The command name is not known.
    UnknownCommand {
        /// The unknown name.
        unexpected: String,
    },
}

/// What parsing a batch of text produced: the typed commands and the
/// errors, in order. The two lists are independent: an error invalidates
/// neither earlier nor later commands of the same batch.
#[derive(Debug)]
pub struct ParseResult {
    pub commands: Vec<Command>,
    pub errors: Vec<ParseError>,
}

impl ParseResult {
    /// An empty parse result.
    pub fn new() -> (r: ParseResult)
        ensures
            r.commands@.len() == 0,
            r.errors@.len() == 0,
    {
        ParseResult { commands: Vec::new(), errors: Vec::new() }
    }
}

/// The interpretation of an action string bound to a key sequence.
#[derive(Debug)]
pub enum ShortcutCommand {
    /// A complete command that is to be executed immediately.
    Complete(String),
    /// An incomplete command: the entry is pre-filled and the user
    /// finishes typing before activating it.
    Incomplete(String),
}

/// Whether a dispatched special command came from an incremental update or
/// from activating the entry.
#[derive(Clone, Copy, Debug, PartialEq, Eq, Structural)]
pub enum ActivationType {
    /// The entry text changed while an incremental identifier is active.
    Current,
    /// The entry was activated.
    Activate,
}

} // verus!
