//! The mode controller: the engine's state and its basic transitions.
//!
//! One [`Mg`] value owns all mutable state: the current mode and command
//! identifier, the shortcut buffer, the mapping table, the transient
//! message and entry surfaces, and the pending input request. Handlers
//! mutate the state and return the [`Effect`] values the host must
//! perform, in order.

use vstd::prelude::*;
use vstd::string::*;

use crate::commands::{SettingValue, SettingVariant};
use crate::effects::{CompleterChoice, Effect, ErrorInfo, Msg};
use crate::keys::{keys_string, shortcut_to_string, Key};
use crate::mappings::MappingTable;
use crate::modes::{prefixes_valid, Mode, ModeEntry, ModeRegistry, StartupError};
use crate::text::str_eq;

verus! {

/// The color state of the status line.
#[derive(Clone, Copy, Debug, PartialEq, Eq, Structural)]
pub enum MessageColor {
    /// The ordinary foreground color.
    Neutral,
    /// Alert messages.
    Blue,
    /// Warning messages.
    Orange,
    /// Error messages.
    Red,
}

/// Rejection of an input request while another one is outstanding.
#[derive(Clone, Copy, Debug, PartialEq, Eq, Structural)]
pub enum InputRequestError {
    /// At most one input request may be outstanding.
    AlreadyPending,
}

/// An equal copy of an optional answer string.
fn clone_answer(a: &Option<String>) -> (r: Option<String>)
    ensures
        r == *a,
{
    match a {
        None => None,
        Some(s) => Some(s.clone()),
    }
}

/// How many of these effects hand an error to the host's error sink.
pub open spec fn count_error_effects(s: Seq<Effect>) -> nat
    decreases s.len(),
{
    if s.len() == 0 {
        0
    } else {
        (if s[0] is Error {
            1nat
        } else {
            0nat
        }) + count_error_effects(s.subrange(1, s.len() as int))
    }
}

/// The error count of a single effect.
pub proof fn lemma_count_error_one(s: Seq<Effect>)
    requires
        s.len() == 1,
    ensures
        count_error_effects(s) == (if s[0] is Error {
            1nat
        } else {
            0nat
        }),
{
    assert(s.subrange(1, 1) =~= Seq::<Effect>::empty());
    assert(count_error_effects(Seq::<Effect>::empty()) == 0);
}

/// The error count of a pair of effects.
pub proof fn lemma_count_error_two(s: Seq<Effect>)
    requires
        s.len() == 2,
    ensures
        count_error_effects(s) == (if s[0] is Error {
            1nat
        } else {
            0nat
        }) + (if s[1] is Error {
            1nat
        } else {
            0nat
        }),
{
    assert(s.subrange(1, 2)[0] == s[1]);
    assert(s.subrange(1, 2).len() == 1);
    lemma_count_error_one(s.subrange(1, 2));
}

/// Counting error effects distributes over concatenation.
pub proof fn lemma_count_error_append(a: Seq<Effect>, b: Seq<Effect>)
    ensures
        count_error_effects(a + b) == count_error_effects(a) + count_error_effects(b),
    decreases a.len(),
{
    if a.len() == 0 {
        assert(a + b =~= b);
    } else {
        assert((a + b)[0] == a[0]);
        assert((a + b).subrange(1, (a + b).len() as int) =~= a.subrange(1, a.len() as int) + b);
        lemma_count_error_append(a.subrange(1, a.len() as int), b);
    }
}

/// The map denoted by a list of applied settings; a later value overwrites
/// an earlier one for the same name.
pub open spec fn settings_map(s: Seq<SettingVariant>) -> Map<Seq<char>, SettingValue>
    decreases s.len(),
{
    if s.len() == 0 {
        Map::empty()
    } else {
        settings_map(s.drop_last()).insert(s.last().name@, s.last().value)
    }
}

/// The engine: current mode, shortcut buffer, mapping table, transient
/// surfaces and the pending input request, all exclusively owned here.
pub struct Mg {
    /// The mode registry, fixed at construction.
    pub registry: ModeRegistry,
    /// The per-mode key-sequence bindings.
    pub mappings: MappingTable,
    /// The active mode.
    pub current_mode: Mode,
    /// The identifier character selecting the command-line grammar.
    pub current_command_mode: char,
    /// The accumulated shortcut key sequence.
    pub current_shortcut: Vec<Key>,
    /// The display text of the shortcut buffer.
    pub shortcut_label: String,
    /// The display label of the active mode.
    pub mode_label: String,
    /// Whether the command entry is shown.
    pub entry_shown: bool,
    /// Whether the completion view is shown.
    pub completion_shown: bool,
    /// The engine's mirror of the entry text.
    pub entry_text: String,
    /// The transient status message.
    pub message: String,
    /// The status-line color.
    pub color: MessageColor,
    /// The window title.
    pub title: String,
    /// Whether an input request is outstanding.
    pub input_pending: bool,
    /// The accepted single-character answers of the pending request.
    pub choices: Vec<char>,
    /// The recorded answer of the last delivered request.
    pub answer: Option<String>,
    /// Single-key shortcuts that answer an input request directly.
    pub shortcuts: Vec<(Key, String)>,
    /// Whether the last input-mode key was answered by such a shortcut.
    pub shortcut_pressed: bool,
    /// Placeholder variables substituted into incomplete commands.
    pub variables: Vec<(String, String)>,
    /// The applied settings, in application order.
    pub settings: Vec<SettingVariant>,
}

impl Mg {
    /// The engine invariant: the registry and table are well formed, the
    /// active mode is one the registry knows, and the derived labels match
    /// the state they display.
    pub open spec fn wf(self) -> bool {
        &&& self.registry.wf()
        &&& self.mappings.wf()
        &&& self.registry.mode_ok(self.current_mode)
        &&& self.mode_label@ == self.registry.spec_mode_label(self.current_mode)
        &&& self.shortcut_label@ == keys_string(self.current_shortcut@)
    }

    /// The construction-time configuration is unchanged.
    pub open spec fn same_config(self, o: Mg) -> bool {
        &&& self.registry == o.registry
        &&& self.variables == o.variables
        &&& self.shortcuts == o.shortcuts
        &&& self.title == o.title
    }

    /// The mapping table is unchanged.
    pub open spec fn same_mappings(self, o: Mg) -> bool {
        self.mappings == o.mappings
    }

    /// The applied settings are unchanged.
    pub open spec fn same_settings(self, o: Mg) -> bool {
        self.settings == o.settings
    }

    /// The pending input request is unchanged.
    pub open spec fn same_input(self, o: Mg) -> bool {
        &&& self.input_pending == o.input_pending
        &&& self.choices == o.choices
        &&& self.answer == o.answer
    }

    /// The shortcut buffer is unchanged.
    pub open spec fn same_shortcut_buf(self, o: Mg) -> bool {
        &&& self.current_shortcut == o.current_shortcut
        &&& self.shortcut_label == o.shortcut_label
        &&& self.shortcut_pressed == o.shortcut_pressed
    }

    /// The entry, completion and message surfaces are unchanged.
    pub open spec fn same_surface(self, o: Mg) -> bool {
        &&& self.entry_shown == o.entry_shown
        &&& self.completion_shown == o.completion_shown
        &&& self.entry_text == o.entry_text
        &&& self.message == o.message
        &&& self.color == o.color
    }

    /// The mode state is unchanged.
    pub open spec fn same_mode(self, o: Mg) -> bool {
        &&& self.current_mode == o.current_mode
        &&& self.current_command_mode == o.current_command_mode
        &&& self.mode_label == o.mode_label
    }

    /// Build an engine from the caller-declared custom modes. Starts in
    /// normal mode with the default `:` identifier, an empty mapping table
    /// and no pending request. A duplicate mode prefix is a fatal startup
    /// error.
    pub fn new(user_modes: Vec<ModeEntry>) -> (r: Result<Mg, StartupError>)
        ensures
            r is Ok <==> prefixes_valid(user_modes@),
            r matches Ok(mg) ==> {
                &&& mg.wf()
                &&& mg.registry.customs_seq() == user_modes@
                &&& mg.current_mode == Mode::Normal
                &&& mg.current_command_mode == ':'
                &&& mg.current_shortcut@.len() == 0
                &&& mg.mappings.as_map() == Map::<(Mode, Seq<Key>), Seq<char>>::empty()
                &&& !mg.input_pending
                &&& mg.choices@.len() == 0
                &&& mg.answer is None
                &&& !mg.entry_shown
                &&& !mg.completion_shown
                &&& mg.entry_text@.len() == 0
                &&& mg.message@.len() == 0
                &&& mg.color == MessageColor::Neutral
                &&& mg.settings@.len() == 0
                &&& !mg.shortcut_pressed
            },
    {
        let registry = match ModeRegistry::new(user_modes) {
            Ok(registry) => registry,
            Err(e) => {
                return Err(e);
            },
        };
        Ok(Mg {
            registry,
            mappings: MappingTable::new(),
            current_mode: Mode::Normal,
            current_command_mode: ':',
            current_shortcut: Vec::new(),
            shortcut_label: String::new(),
            mode_label: String::new(),
            entry_shown: false,
            completion_shown: false,
            entry_text: String::new(),
            message: String::new(),
            color: MessageColor::Neutral,
            title: String::new(),
            input_pending: false,
            choices: Vec::new(),
            answer: None,
            shortcuts: Vec::new(),
            shortcut_pressed: false,
            variables: Vec::new(),
            settings: Vec::new(),
        })
    }

    /// The name of the current mode.
    pub fn get_mode(&self) -> (r: String)
        requires
            self.wf(),
        ensures
            r@ == self.registry.spec_mode_name(self.current_mode),
    {
        self.registry.mode_name(self.current_mode)
    }

    /// Set the current special-command identifier.
    pub fn set_current_identifier(&mut self, identifier: char)
        ensures
            *final(self) == (Mg { current_command_mode: identifier, ..*old(self) }),
    {
        self.current_command_mode = identifier;
    }

    /// Set the current mode and update the mode label; the host is told
    /// through a mode-changed effect carrying the mode name.
    pub fn set_mode(&mut self, mode: Mode) -> (r: Vec<Effect>)
        requires
            old(self).wf(),
            old(self).registry.mode_ok(mode),
        ensures
            final(self).wf(),
            final(self).current_mode == mode,
            final(self).current_command_mode == old(self).current_command_mode,
            final(self).mode_label@ == final(self).registry.spec_mode_label(mode),
            final(self).same_config(*old(self)),
            final(self).same_mappings(*old(self)),
            final(self).same_settings(*old(self)),
            final(self).same_input(*old(self)),
            final(self).same_shortcut_buf(*old(self)),
            final(self).same_surface(*old(self)),
            r@.len() == 1 && (r@[0] matches Effect::ModeChanged(n)
                && n@ == old(self).registry.spec_mode_name(mode)),
    {
        self.current_mode = mode;
        self.mode_label = self.registry.mode_label(mode);
        let name = self.registry.mode_name(mode);
        let mut effects: Vec<Effect> = Vec::new();
        effects.push(Effect::ModeChanged(name));
        effects
    }

    /// Hide the command entry and the completion view.
    pub fn hide_entry_and_completion(&mut self)
        ensures
            *final(self) == (Mg { entry_shown: false, completion_shown: false, ..*old(self) }),
    {
        self.completion_shown = false;
        self.entry_shown = false;
    }

    /// Show the command entry.
    pub fn show_entry(&mut self)
        ensures
            *final(self) == (Mg { entry_shown: true, ..*old(self) }),
    {
        self.entry_shown = true;
    }

    /// Reset the status-line colors.
    pub fn reset_colors(&mut self)
        ensures
            *final(self) == (Mg { color: MessageColor::Neutral, ..*old(self) }),
    {
        self.color = MessageColor::Neutral;
    }

    /// Clear the current shortcut buffer.
    pub fn clear_shortcut(&mut self)
        ensures
            final(self).current_shortcut@ == Seq::<Key>::empty(),
            final(self).shortcut_label@ == Seq::<char>::empty(),
            *final(self) == (Mg {
                current_shortcut: final(self).current_shortcut,
                shortcut_label: final(self).shortcut_label,
                ..*old(self)
            }),
    {
        self.current_shortcut.clear();
        self.update_shortcut_label();
    }

    /// Add the key to the current shortcut.
    pub fn add_to_shortcut(&mut self, key: Key)
        ensures
            final(self).current_shortcut@ == old(self).current_shortcut@.push(key),
            final(self).shortcut_label@ == keys_string(final(self).current_shortcut@),
            *final(self) == (Mg {
                current_shortcut: final(self).current_shortcut,
                shortcut_label: final(self).shortcut_label,
                ..*old(self)
            }),
    {
        self.current_shortcut.push(key);
        self.update_shortcut_label();
    }

    /// Recompute the display text of the shortcut buffer.
    pub fn update_shortcut_label(&mut self)
        ensures
            final(self).shortcut_label@ == keys_string(old(self).current_shortcut@),
            *final(self) == (Mg { shortcut_label: final(self).shortcut_label, ..*old(self) }),
    {
        self.shortcut_label = shortcut_to_string(self.current_shortcut.as_slice());
    }

    /// Return to normal mode: hide the entry and completion surfaces,
    /// enter normal mode and restore the default `:` identifier.
    pub fn return_to_normal_mode(&mut self) -> (r: Vec<Effect>)
        requires
            old(self).wf(),
        ensures
            final(self).wf(),
            final(self).current_mode == Mode::Normal,
            final(self).current_command_mode == ':',
            final(self).mode_label@.len() == 0,
            !final(self).entry_shown,
            !final(self).completion_shown,
            final(self).entry_text == old(self).entry_text,
            final(self).message == old(self).message,
            final(self).color == old(self).color,
            final(self).same_config(*old(self)),
            final(self).same_mappings(*old(self)),
            final(self).same_settings(*old(self)),
            final(self).same_input(*old(self)),
            final(self).same_shortcut_buf(*old(self)),
            r@.len() == 1 && (r@[0] matches Effect::ModeChanged(n) && n@ == "normal"@),
    {
        self.hide_entry_and_completion();
        let effects = self.set_mode(Mode::Normal);
        self.set_current_identifier(':');
        effects
    }

    /// Reset the transient surfaces: colors, entry, completion, message
    /// and the shortcut buffer.
    pub fn reset(&mut self)
        ensures
            final(self).color == MessageColor::Neutral,
            !final(self).entry_shown,
            !final(self).completion_shown,
            final(self).message@.len() == 0,
            final(self).current_shortcut@ == Seq::<Key>::empty(),
            final(self).shortcut_label@ == Seq::<char>::empty(),
            final(self).entry_text == old(self).entry_text,
            final(self).same_config(*old(self)),
            final(self).same_mappings(*old(self)),
            final(self).same_settings(*old(self)),
            final(self).same_input(*old(self)),
            final(self).same_mode(*old(self)),
            final(self).shortcut_pressed == old(self).shortcut_pressed,
    {
        self.reset_colors();
        self.hide_entry_and_completion();
        self.message = String::new();
        self.clear_shortcut();
    }

    /// The command text currently in the entry.
    pub fn get_command(&self) -> (r: Option<String>)
        ensures
            r matches Some(t) && t@ == self.entry_text@,
    {
        Some(self.entry_text.clone())
    }

    /// Set the entry text.
    pub fn set_input(&mut self, original_input: &str)
        ensures
            final(self).entry_text@ == original_input@,
            *final(self) == (Mg { entry_text: final(self).entry_text, ..*old(self) }),
    {
        self.entry_text = String::from_str(original_input);
    }

    /// Set the window title.
    pub fn set_title(&mut self, title: &str)
        ensures
            final(self).title@ == title@,
            *final(self) == (Mg { title: final(self).title, ..*old(self) }),
    {
        self.title = String::from_str(title);
    }

    /// Set the placeholder variables available to incomplete commands.
    /// Each occurrence of a variable name in angle brackets is replaced by
    /// its value when a command is input.
    pub fn set_variables(&mut self, variables: Vec<(String, String)>)
        ensures
            *final(self) == (Mg { variables, ..*old(self) }),
    {
        self.variables = variables;
    }

    /// Set the single-key shortcuts that answer an input request directly.
    pub fn set_input_shortcuts(&mut self, shortcuts: Vec<(Key, String)>)
        ensures
            *final(self) == (Mg { shortcuts, ..*old(self) }),
    {
        self.shortcuts = shortcuts;
    }

    /// The settings applied so far, in application order.
    pub fn settings(&self) -> (r: &Vec<SettingVariant>)
        ensures
            r == &self.settings,
    {
        &self.settings
    }

    /// Apply a coerced setting and notify the host.
    pub fn set_setting(&mut self, setting: SettingVariant) -> (r: Vec<Effect>)
        ensures
            settings_map(final(self).settings@) == settings_map(old(self).settings@).insert(
                setting.name@,
                setting.value,
            ),
            *final(self) == (Mg { settings: final(self).settings, ..*old(self) }),
            r@.len() == 1 && (r@[0] matches Effect::SettingChanged(v) && v == setting),
    {
        let notified = setting.duplicate();
        self.settings.push(setting);
        proof {
            assert(final(self).settings@.drop_last() =~= old(self).settings@);
        }
        let mut effects: Vec<Effect> = Vec::new();
        effects.push(Effect::SettingChanged(notified));
        effects
    }

    /// Show an alert message to the user.
    pub fn alert(&mut self, message: &str)
        ensures
            final(self).message@ == message@,
            final(self).color == MessageColor::Blue,
            *final(self) == (Mg {
                message: final(self).message,
                color: MessageColor::Blue,
                ..*old(self)
            }),
    {
        self.message = String::from_str(message);
        self.color = MessageColor::Blue;
    }

    /// Show a message to the user, with the ordinary colors.
    pub fn message(&mut self, message: &str)
        ensures
            final(self).message@ == message@,
            final(self).color == MessageColor::Neutral,
            *final(self) == (Mg {
                message: final(self).message,
                color: MessageColor::Neutral,
                ..*old(self)
            }),
    {
        self.reset_colors();
        self.message = String::from_str(message);
    }

    /// Show an information message; the host is asked to hide it again
    /// after a few seconds, if it is still the one displayed.
    pub fn info(&mut self, message: &str) -> (r: Vec<Effect>)
        ensures
            final(self).message@ == message@,
            final(self).color == MessageColor::Neutral,
            *final(self) == (Mg {
                message: final(self).message,
                color: MessageColor::Neutral,
                ..*old(self)
            }),
            r@.len() == 1 && (r@[0] matches Effect::ScheduleHideInfo(m) && m@ == message@),
    {
        self.message = String::from_str(message);
        self.reset_colors();
        let mut effects: Vec<Effect> = Vec::new();
        effects.push(Effect::ScheduleHideInfo(String::from_str(message)));
        effects
    }

    /// Show a warning message; the host is asked to hide it again after a
    /// few seconds, if it is still the one displayed.
    pub fn warning(&mut self, message: &str) -> (r: Vec<Effect>)
        ensures
            final(self).message@ == message@,
            final(self).color == MessageColor::Orange,
            *final(self) == (Mg {
                message: final(self).message,
                color: MessageColor::Orange,
                ..*old(self)
            }),
            r@.len() == 1 && (r@[0] matches Effect::ScheduleHideColoredMessage(m) && m@ == message@),
    {
        self.message = String::from_str(message);
        self.color = MessageColor::Orange;
        let mut effects: Vec<Effect> = Vec::new();
        effects.push(Effect::ScheduleHideColoredMessage(String::from_str(message)));
        effects
    }

    /// Show an error to the user: display its message with the error
    /// color, hide the entry, and hand the classified error to the host's
    /// error sink.
    pub fn error(&mut self, error: ErrorInfo) -> (r: Vec<Effect>)
        ensures
            final(self).message@ == error.message@,
            final(self).color == MessageColor::Red,
            !final(self).entry_shown,
            *final(self) == (Mg {
                message: final(self).message,
                color: MessageColor::Red,
                entry_shown: false,
                ..*old(self)
            }),
            r@.len() == 1 && (r@[0] matches Effect::Error(e) && e == error),
    {
        self.message = error.message.clone();
        self.entry_shown = false;
        self.color = MessageColor::Red;
        let mut effects: Vec<Effect> = Vec::new();
        effects.push(Effect::Error(error));
        effects
    }

    /// Record an outstanding input request with its accepted
    /// single-character answers; at most one request may be outstanding,
    /// a second one is rejected. The mode becomes the input mode asked
    /// for; the answer comes back later through [`Mg::deliver`].
    pub fn request_input(&mut self, choices: Vec<char>, blocking: bool) -> (r: Result<
        Vec<Effect>,
        InputRequestError,
    >)
        requires
            old(self).wf(),
        ensures
            final(self).wf(),
            old(self).input_pending ==> (r matches Err(e) && e == InputRequestError::AlreadyPending
                && *final(self) == *old(self)),
            !old(self).input_pending ==> (r matches Ok(effects) && {
                &&& final(self).input_pending
                &&& final(self).choices == choices
                &&& final(self).answer is None
                &&& final(self).current_mode == (if blocking {
                    Mode::BlockingInput
                } else {
                    Mode::Input
                })
                &&& final(self).current_command_mode == old(self).current_command_mode
                &&& final(self).same_config(*old(self))
                &&& final(self).same_mappings(*old(self))
                &&& final(self).same_settings(*old(self))
                &&& final(self).same_shortcut_buf(*old(self))
                &&& final(self).same_surface(*old(self))
                &&& effects@.len() == 1 && (effects@[0] matches Effect::ModeChanged(n) && n@
                    == (if blocking {
                    "blocking-input"@
                } else {
                    "input"@
                }))
            }),
    {
        if self.input_pending {
            return Err(InputRequestError::AlreadyPending);
        }
        self.input_pending = true;
        self.choices = choices;
        self.answer = None;
        let effects = self.set_mode(if blocking {
            Mode::BlockingInput
        } else {
            Mode::Input
        });
        Ok(effects)
    }

    /// Deliver the answer of the outstanding input request; `None` is the
    /// cancellation path. In blocking-input mode the answer is recorded
    /// and the nested event-loop pump released, without invoking any
    /// callback; in input mode the request is cleared before the answer is
    /// handed out, so it is delivered at most once, and the session
    /// returns to normal mode. Without a pending request this is a no-op.
    pub fn deliver(&mut self, answer: Option<String>) -> (r: Vec<Effect>)
        requires
            old(self).wf(),
        ensures
            final(self).wf(),
            !old(self).input_pending ==> *final(self) == *old(self) && r@.len() == 0,
            old(self).input_pending && old(self).current_mode == Mode::BlockingInput ==> {
                &&& final(self).answer == answer
                &&& !final(self).input_pending
                &&& final(self).choices == old(self).choices
                &&& final(self).same_mode(*old(self))
                &&& final(self).same_surface(*old(self))
                &&& final(self).same_shortcut_buf(*old(self))
                &&& final(self).same_config(*old(self))
                &&& final(self).same_mappings(*old(self))
                &&& final(self).same_settings(*old(self))
                &&& r@.len() == 1 && r@[0] is ReleaseBlockingWait
            },
            old(self).input_pending && old(self).current_mode == Mode::Input ==> {
                &&& final(self).answer == answer
                &&& !final(self).input_pending
                &&& final(self).choices@.len() == 0
                &&& final(self).current_mode == Mode::Normal
                &&& final(self).current_command_mode == ':'
                &&& !final(self).entry_shown
                &&& !final(self).completion_shown
                &&& final(self).message@.len() == 0
                &&& final(self).color == MessageColor::Neutral
                &&& final(self).current_shortcut@.len() == 0
                &&& final(self).entry_text == old(self).entry_text
                &&& final(self).same_config(*old(self))
                &&& final(self).same_mappings(*old(self))
                &&& final(self).same_settings(*old(self))
                &&& r@.len() == 2
                &&& (r@[0] matches Effect::DeliverAnswer(a) && a == answer)
                &&& (r@[1] matches Effect::ModeChanged(n) && n@ == "normal"@)
            },
            old(self).input_pending && old(self).current_mode != Mode::BlockingInput && old(
                self,
            ).current_mode != Mode::Input ==> *final(self) == *old(self) && r@.len() == 0,
    {
        let mut effects: Vec<Effect> = Vec::new();
        if !self.input_pending {
            return effects;
        }
        match self.current_mode {
            Mode::BlockingInput => {
                self.input_pending = false;
                self.answer = answer;
                effects.push(Effect::ReleaseBlockingWait);
            },
            Mode::Input => {
                self.input_pending = false;
                self.answer = clone_answer(&answer);
                self.choices.clear();
                effects.push(Effect::DeliverAnswer(answer));
                let mut rest = self.return_to_normal_mode();
                effects.append(&mut rest);
                self.reset();
            },
            _ => {},
        }
        effects
    }

    /// Deliver a concrete answer string, as a matched choice or answer
    /// shortcut does.
    pub fn set_dialog_answer(&mut self, answer: &str) -> (r: Vec<Effect>)
        requires
            old(self).wf(),
        ensures
            final(self).wf(),
            !old(self).input_pending ==> *final(self) == *old(self) && r@.len() == 0,
            old(self).input_pending && old(self).current_mode == Mode::BlockingInput ==> {
                &&& final(self).answer matches Some(s) && s@ == answer@
                &&& !final(self).input_pending
                &&& final(self).same_mode(*old(self))
                &&& final(self).same_surface(*old(self))
                &&& final(self).same_config(*old(self))
                &&& final(self).same_mappings(*old(self))
                &&& final(self).same_settings(*old(self))
                &&& r@.len() == 1 && r@[0] is ReleaseBlockingWait
            },
            old(self).input_pending && old(self).current_mode == Mode::Input ==> {
                &&& final(self).answer matches Some(s) && s@ == answer@
                &&& !final(self).input_pending
                &&& final(self).choices@.len() == 0
                &&& final(self).current_mode == Mode::Normal
                &&& final(self).current_command_mode == ':'
                &&& !final(self).entry_shown
                &&& !final(self).completion_shown
                &&& final(self).message@.len() == 0
                &&& final(self).color == MessageColor::Neutral
                &&& final(self).current_shortcut@ == Seq::<Key>::empty()
                &&& final(self).same_config(*old(self))
                &&& final(self).same_mappings(*old(self))
                &&& final(self).same_settings(*old(self))
                &&& r@.len() == 2
                &&& (r@[0] matches Effect::DeliverAnswer(a) && a matches Some(s) && s@ == answer@)
                &&& (r@[1] matches Effect::ModeChanged(n) && n@ == "normal"@)
            },
            old(self).input_pending && old(self).current_mode != Mode::BlockingInput && old(
                self,
            ).current_mode != Mode::Input ==> *final(self) == *old(self) && r@.len() == 0,
    {
        self.deliver(Some(String::from_str(answer)))
    }

    /// Take the recorded answer of the last delivered request.
    pub fn take_answer(&mut self) -> (r: Option<String>)
        ensures
            r == old(self).answer,
            *final(self) == (Mg { answer: None, ..*old(self) }),
    {
        let mut taken: Option<String> = None;
        core::mem::swap(&mut taken, &mut self.answer);
        taken
    }

    /// Apply one event message.
    pub fn update(&mut self, msg: Msg) -> (r: Vec<Effect>)
        requires
            old(self).wf(),
            msg matches Msg::SetMode(m) ==> old(self).registry.mode_ok(m),
        ensures
            final(self).wf(),
            match msg {
                Msg::AppClose => *final(self) == *old(self) && r@.len() == 0,
                Msg::CustomCommand(_) => *final(self) == *old(self) && r@.len() == 0,
                Msg::ModeChanged(_) => *final(self) == *old(self) && r@.len() == 0,
                Msg::SettingChanged(_) => *final(self) == *old(self) && r@.len() == 0,
                Msg::EnterCommandMode => {
                    &&& final(self).current_mode == Mode::Command
                    &&& final(self).current_command_mode == ':'
                    &&& final(self).entry_shown
                    &&& final(self).completion_shown
                    &&& final(self).message@.len() == 0
                    &&& final(self).color == MessageColor::Neutral
                    &&& final(self).current_shortcut@.len() == 0
                    &&& final(self).entry_text == old(self).entry_text
                    &&& final(self).same_config(*old(self))
                    &&& final(self).same_mappings(*old(self))
                    &&& final(self).same_settings(*old(self))
                    &&& final(self).same_input(*old(self))
                    &&& r@.len() == 2
                    &&& (r@[0] matches Effect::SetCompleter { choice, input }
                        && choice == CompleterChoice::DefaultCompleter
                        && input@ == old(self).entry_text@)
                    &&& (r@[1] matches Effect::ModeChanged(n) && n@ == "command"@)
                },
                Msg::EnterNormalMode => {
                    &&& final(self).current_mode == Mode::Normal
                    &&& final(self).current_command_mode == ':'
                    &&& !final(self).entry_shown
                    &&& !final(self).completion_shown
                    &&& final(self).same_config(*old(self))
                    &&& final(self).same_mappings(*old(self))
                    &&& final(self).same_settings(*old(self))
                    &&& final(self).same_input(*old(self))
                    &&& final(self).same_shortcut_buf(*old(self))
                    &&& final(self).message == old(self).message
                    &&& final(self).entry_text == old(self).entry_text
                    &&& r@.len() == 1 && (r@[0] matches Effect::ModeChanged(n) && n@ == "normal"@)
                },
                Msg::EnterNormalModeAndReset => {
                    &&& final(self).current_mode == Mode::Normal
                    &&& final(self).current_command_mode == ':'
                    &&& !final(self).entry_shown
                    &&& !final(self).completion_shown
                    &&& final(self).message@.len() == 0
                    &&& final(self).color == MessageColor::Neutral
                    &&& final(self).current_shortcut@.len() == 0
                    &&& final(self).entry_text == old(self).entry_text
                    &&& final(self).same_config(*old(self))
                    &&& final(self).same_mappings(*old(self))
                    &&& final(self).same_settings(*old(self))
                    &&& final(self).same_input(*old(self))
                    &&& r@.len() == 1 && (r@[0] matches Effect::ModeChanged(n) && n@ == "normal"@)
                },
                Msg::HideColoredMessage(m) => {
                    &&& old(self).message@ == m@ ==> final(self).message@.len() == 0
                        && final(self).color == MessageColor::Neutral
                    &&& old(self).message@ != m@ ==> *final(self) == *old(self)
                    &&& final(self).same_mode(*old(self))
                    &&& final(self).same_mappings(*old(self))
                    &&& final(self).same_input(*old(self))
                    &&& r@.len() == 0
                },
                Msg::HideInfo(m) => {
                    &&& old(self).message@ == m@ ==> final(self).message@.len() == 0
                        && final(self).color == old(self).color
                    &&& old(self).message@ != m@ ==> *final(self) == *old(self)
                    &&& final(self).same_mode(*old(self))
                    &&& final(self).same_mappings(*old(self))
                    &&& final(self).same_input(*old(self))
                    &&& r@.len() == 0
                },
                Msg::SetMode(m) => {
                    &&& final(self).current_mode == m
                    &&& final(self).same_config(*old(self))
                    &&& final(self).same_mappings(*old(self))
                    &&& final(self).same_settings(*old(self))
                    &&& final(self).same_input(*old(self))
                    &&& final(self).same_shortcut_buf(*old(self))
                    &&& final(self).same_surface(*old(self))
                    &&& r@.len() == 1 && (r@[0] matches Effect::ModeChanged(n) && n@ == old(
                        self,
                    ).registry.spec_mode_name(m))
                },
            },
    {
        match msg {
            Msg::AppClose => Vec::new(),
            Msg::CustomCommand(_) => Vec::new(),
            Msg::ModeChanged(_) => Vec::new(),
            Msg::SettingChanged(_) => Vec::new(),
            Msg::EnterCommandMode => {
                let mut effects: Vec<Effect> = Vec::new();
                effects.push(Effect::SetCompleter {
                    choice: CompleterChoice::DefaultCompleter,
                    input: self.entry_text.clone(),
                });
                self.set_current_identifier(':');
                let mut mode_effects = self.set_mode(Mode::Command);
                effects.append(&mut mode_effects);
                self.reset();
                self.completion_shown = true;
                self.show_entry();
                effects
            },
            Msg::EnterNormalMode => self.return_to_normal_mode(),
            Msg::EnterNormalModeAndReset => {
                let effects = self.return_to_normal_mode();
                self.reset();
                effects
            },
            Msg::HideColoredMessage(m) => {
                self.hide_colored_message(m.as_str());
                Vec::new()
            },
            Msg::HideInfo(m) => {
                self.hide_info(m.as_str());
                Vec::new()
            },
            Msg::SetMode(m) => self.set_mode(m),
        }
    }

    /// Hide the information message, but only if it is still the one this
    /// hide was scheduled for: a stale timer must not erase a newer
    /// message.
    pub fn hide_info(&mut self, message: &str)
        ensures
            old(self).message@ == message@ ==> *final(self) == (Mg {
                message: final(self).message,
                ..*old(self)
            }) && final(self).message@.len() == 0,
            old(self).message@ != message@ ==> *final(self) == *old(self),
    {
        if str_eq(self.message.as_str(), message) {
            self.message = String::new();
        }
    }

    /// Hide a colored message, but only if it is still the one this hide
    /// was scheduled for; the colors are reset with it.
    pub fn hide_colored_message(&mut self, message: &str)
        ensures
            old(self).message@ == message@ ==> *final(self) == (Mg {
                message: final(self).message,
                color: MessageColor::Neutral,
                ..*old(self)
            }) && final(self).message@.len() == 0,
            old(self).message@ != message@ ==> *final(self) == *old(self),
    {
        if str_eq(self.message.as_str(), message) {
            self.message = String::new();
            self.reset_colors();
        }
    }
}

} // verus!
