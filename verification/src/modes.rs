//! Interaction modes and the mode registry.
//!
//! The engine has a closed set of built-in modes plus caller-declared custom
//! modes. A custom mode is identified by its index into the registry that
//! declared it. The registry maps short prefixes (used by map and unmap
//! commands) to modes; the prefixes `n` and `c` are reserved for the
//! built-in normal and command modes, and declaring a duplicate prefix is a
//! fatal startup error.

use vstd::prelude::*;
use vstd::string::*;

use crate::text::str_eq;

verus! {

/// The interaction mode governing how key input is interpreted.
#[derive(Clone, Copy, Debug, PartialEq, Eq, Structural)]
pub enum Mode {
    /// Navigation mode: keys feed the shortcut matcher.
    Normal,
    /// Colon-command mode: the entry is shown and text is typed.
    Command,
    /// Suspend-for-answer mode resolved through a deferred callback.
    Input,
    /// Suspend-for-answer mode resolved through a nested event-loop pump.
    BlockingInput,
    /// A caller-declared mode; the index points into the mode registry.
    Custom(usize),
}

/// The mode whose mapping table governs key lookup: the input modes share
/// the command mode's bindings.
pub open spec fn spec_effective_mode(m: Mode) -> Mode {
    match m {
        Mode::Input => Mode::Command,
        Mode::BlockingInput => Mode::Command,
        _ => m,
    }
}

impl Mode {
    /// The mode whose mapping table governs key lookup.
    pub fn effective(self) -> (r: Mode)
        ensures
            r == spec_effective_mode(self),
    {
        match self {
            Mode::Input | Mode::BlockingInput => Mode::Command,
            _ => self,
        }
    }
}

/// A caller-declared custom mode: the prefix used by map and unmap commands
/// and the display name of the mode.
#[derive(Debug)]
pub struct ModeEntry {
    pub prefix: String,
    pub name: String,
}

/// A fatal error raised while building the engine, before any event runs.
#[derive(Debug)]
pub enum StartupError {
    /// A custom mode prefix is declared twice, or shadows a reserved one.
    DuplicateModePrefix(String),
}

/// The mode registry: the built-in prefixes `n` (normal) and `c` (command)
/// plus the caller-declared custom modes.
pub struct ModeRegistry {
    pub customs: Vec<ModeEntry>,
}

/// Whether a prefix is reserved for a built-in mode.
pub open spec fn reserved_prefix(p: Seq<char>) -> bool {
    p == "n"@ || p == "c"@
}

/// Whether a list of custom modes has pairwise distinct, non-reserved
/// prefixes.
pub open spec fn prefixes_valid(s: Seq<ModeEntry>) -> bool {
    &&& forall|i: int| 0 <= i < s.len() ==> !reserved_prefix(#[trigger] s[i].prefix@)
    &&& forall|i: int, j: int|
        0 <= i < j < s.len() ==> s[i].prefix@ != s[j].prefix@
}

impl ModeRegistry {
    /// The declared custom modes, in declaration order.
    pub open spec fn customs_seq(self) -> Seq<ModeEntry> {
        self.customs@
    }

    /// A registry is well formed when its prefixes are distinct and none is
    /// reserved.
    pub open spec fn wf(self) -> bool {
        prefixes_valid(self.customs@)
    }

    /// Whether a mode is one this registry knows: built-in, or a custom
    /// index inside bounds.
    pub open spec fn mode_ok(self, m: Mode) -> bool {
        match m {
            Mode::Custom(i) => i < self.customs@.len(),
            _ => true,
        }
    }

    /// The name of a mode: a fixed name for the built-ins, the declared name
    /// for a custom mode.
    pub open spec fn spec_mode_name(self, m: Mode) -> Seq<char> {
        match m {
            Mode::Normal => "normal"@,
            Mode::Command => "command"@,
            Mode::Input => "input"@,
            Mode::BlockingInput => "blocking-input"@,
            Mode::Custom(i) => self.customs@[i as int].name@,
        }
    }

    /// The display label of a mode: empty for the built-in modes, the mode
    /// name otherwise.
    pub open spec fn spec_mode_label(self, m: Mode) -> Seq<char> {
        match m {
            Mode::Custom(i) => self.customs@[i as int].name@,
            _ => Seq::empty(),
        }
    }

    /// Whether some custom mode is declared under this prefix.
    pub open spec fn has_custom_prefix(self, p: Seq<char>) -> bool {
        exists|i: int| 0 <= i < self.customs@.len() && (#[trigger] self.customs@[i].prefix@) == p
    }

    /// What a prefix resolves to, if anything.
    pub open spec fn spec_resolve(self, p: Seq<char>) -> Option<Mode> {
        if p == "n"@ {
            Some(Mode::Normal)
        } else if p == "c"@ {
            Some(Mode::Command)
        } else if self.has_custom_prefix(p) {
            Some(Mode::Custom((choose|i: int|
                0 <= i < self.customs@.len() && (#[trigger] self.customs@[i].prefix@) == p
            ) as usize))
        } else {
            None
        }
    }

    /// Build a registry from the caller-declared modes. Rejects a duplicate
    /// or reserved prefix as a fatal startup error.
    pub fn new(user_modes: Vec<ModeEntry>) -> (r: Result<ModeRegistry, StartupError>)
        ensures
            r is Ok <==> prefixes_valid(user_modes@),
            r matches Ok(reg) ==> reg.customs@ == user_modes@ && reg.wf(),
            r matches Err(e) ==> match e {
                StartupError::DuplicateModePrefix(p) => reserved_prefix(p@) || exists|i: int, j: int|
                    0 <= i < j < user_modes@.len()
                        && (#[trigger] user_modes@[i].prefix@) == p@
                        && (#[trigger] user_modes@[j].prefix@) == p@,
            },
    {
        let mut i: usize = 0;
        while i < user_modes.len()
            invariant
                i <= user_modes@.len(),
                forall|k: int| 0 <= k < i ==> !reserved_prefix(#[trigger] user_modes@[k].prefix@),
                forall|k: int, l: int|
                    0 <= k < l < user_modes@.len() && l < i ==> user_modes@[k].prefix@ != user_modes@[l].prefix@,
            decreases user_modes@.len() - i,
        {
            let p = user_modes[i].prefix.as_str();
            if str_eq(p, "n") || str_eq(p, "c") {
                return Err(StartupError::DuplicateModePrefix(user_modes[i].prefix.clone()));
            }
            let mut j: usize = 0;
            while j < i
                invariant
                    j <= i,
                    i < user_modes@.len(),
                    forall|k: int| 0 <= k < j ==> user_modes@[k].prefix@ != user_modes@[i as int].prefix@,
                decreases i - j,
            {
                if str_eq(user_modes[j].prefix.as_str(), user_modes[i].prefix.as_str()) {
                    return Err(StartupError::DuplicateModePrefix(user_modes[i].prefix.clone()));
                }
                j += 1;
            }
            i += 1;
        }
        Ok(ModeRegistry { customs: user_modes })
    }

    /// Resolve a map-command prefix to a mode: `n` and `c` are the built-in
    /// normal and command modes, anything else is looked up among the custom
    /// modes.
    pub fn resolve(&self, prefix: &str) -> (r: Option<Mode>)
        requires
            self.wf(),
        ensures
            r == self.spec_resolve(prefix@),
            r matches Some(m) ==> self.mode_ok(m),
    {
        if str_eq(prefix, "n") {
            return Some(Mode::Normal);
        }
        if str_eq(prefix, "c") {
            return Some(Mode::Command);
        }
        let mut i: usize = 0;
        while i < self.customs.len()
            invariant
                i <= self.customs@.len(),
                self.wf(),
                !reserved_prefix(prefix@),
                forall|k: int| 0 <= k < i ==> (#[trigger] self.customs@[k].prefix@) != prefix@,
            decreases self.customs@.len() - i,
        {
            if str_eq(self.customs[i].prefix.as_str(), prefix) {
                proof {
                    let w = choose|k: int|
                        0 <= k < self.customs@.len() && (#[trigger] self.customs@[k].prefix@) == prefix@;
                    assert(w == i as int);
                }
                return Some(Mode::Custom(i));
            }
            i += 1;
        }
        None
    }

    /// The name of a mode, for mode-changed notifications and display.
    pub fn mode_name(&self, m: Mode) -> (r: String)
        requires
            self.mode_ok(m),
        ensures
            r@ == self.spec_mode_name(m),
    {
        match m {
            Mode::Normal => String::from_str("normal"),
            Mode::Command => String::from_str("command"),
            Mode::Input => String::from_str("input"),
            Mode::BlockingInput => String::from_str("blocking-input"),
            Mode::Custom(i) => self.customs[i].name.clone(),
        }
    }

    /// The display label of a mode: empty for the built-in modes, the mode
    /// name otherwise.
    pub fn mode_label(&self, m: Mode) -> (r: String)
        requires
            self.mode_ok(m),
        ensures
            r@ == self.spec_mode_label(m),
    {
        match m {
            Mode::Custom(i) => self.customs[i].name.clone(),
            _ => String::new(),
        }
    }
}

} // verus!
