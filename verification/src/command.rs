//! The command dispatcher and the error reporter.
//!
//! Typed commands are applied one at a time, in parse order: application
//! actions go to the fixed registry, custom commands are forwarded
//! verbatim, map and unmap commands mutate the mapping table, and setting
//! changes are coerced by the settings collaborator. Parse errors are
//! classified into user-facing messages and handed to the host's error
//! sink, one by one, without aborting the sibling commands of the same
//! batch.

use vstd::prelude::*;
use vstd::string::*;

use crate::commands::{
    ActivationType, AppAction, Command, ParseError, ParseResult, ShortcutCommand,
};
use crate::controller::{count_error_effects, MessageColor, Mg};
use crate::effects::{
    count_deliveries, lemma_count_deliveries_append, lemma_count_deliveries_one,
    lemma_count_deliveries_two, Effect, ErrorInfo,
};
use crate::interface::{CommandParser, Collaborators, SettingsCoercer, SpecialCommands};
use crate::keys::Key;
use crate::modes::{Mode, ModeRegistry};
use crate::text::{contains_char, has_match, match_at, replace_all, replace_all_exec};

verus! {

/// The literal marker that splits a mapped action into "run immediately"
/// and "pre-fill and wait".
pub open spec fn enter_marker() -> Seq<char> {
    "<Enter>"@
}

/// The user-facing message of a parse error; empty for the suppressed
/// no-command case.
pub open spec fn spec_parse_error_message(e: ParseError) -> Seq<char> {
    match e {
        ParseError::MissingArgument => "Argument required"@,
        ParseError::NoCommand => Seq::empty(),
        ParseError::Parse { unexpected, expected } => "Parse error: unexpected "@ + unexpected@
            + ", expecting: "@ + expected@,
        ParseError::UnknownCommand { unexpected } => "Not a command: "@ + unexpected@,
    }
}

/// The user-facing message for a map or unmap command whose mode prefix is
/// not registered.
pub open spec fn unknown_mode_message(prefix: Seq<char>) -> Seq<char> {
    "No such mode: "@ + prefix
}

/// Whether an application action edits the entry text, so that the
/// completions must be refreshed afterwards.
pub open spec fn updates_completions(a: AppAction) -> bool {
    ||| a is EntryDeleteNextChar
    ||| a is EntryDeleteNextWord
    ||| a is EntryDeletePreviousWord
}

/// What one command does to the mapping table: map and unmap commands
/// whose prefix resolves mutate the bindings of that mode, everything else
/// leaves the table alone.
pub open spec fn apply_mapping_command(
    reg: ModeRegistry,
    m: Map<(Mode, Seq<Key>), Seq<char>>,
    c: Command,
) -> Map<(Mode, Seq<Key>), Seq<char>> {
    match c {
        Command::MapKeys { action, keys, mode } => match reg.spec_resolve(mode@) {
            Some(md) => m.insert((md, keys@), action@),
            None => m,
        },
        Command::UnmapKeys { keys, mode } => match reg.spec_resolve(mode@) {
            Some(md) => m.remove((md, keys@)),
            None => m,
        },
        _ => m,
    }
}

/// What a batch of commands does to the mapping table, applied in order.
pub open spec fn apply_mapping_commands(
    reg: ModeRegistry,
    m: Map<(Mode, Seq<Key>), Seq<char>>,
    s: Seq<Command>,
) -> Map<(Mode, Seq<Key>), Seq<char>>
    decreases s.len(),
{
    if s.len() == 0 {
        m
    } else {
        apply_mapping_commands(reg, apply_mapping_command(reg, m, s[0]), s.subrange(1, s.len() as int))
    }
}

proof fn lemma_apply_mapping_snoc(
    reg: ModeRegistry,
    m: Map<(Mode, Seq<Key>), Seq<char>>,
    s: Seq<Command>,
    c: Command,
)
    ensures
        apply_mapping_commands(reg, m, s.push(c)) == apply_mapping_command(
            reg,
            apply_mapping_commands(reg, m, s),
            c,
        ),
    decreases s.len(),
{
    if s.len() == 0 {
        assert(s.push(c)[0] == c);
        assert(s.push(c).subrange(1, 1) =~= Seq::<Command>::empty());
        assert(s.push(c).len() == 1);
        assert(apply_mapping_commands(reg, m, s) == m);
        assert(apply_mapping_commands(
            reg,
            apply_mapping_command(reg, m, c),
            Seq::<Command>::empty(),
        ) == apply_mapping_command(reg, m, c));
        assert(apply_mapping_commands(reg, m, s.push(c)) == apply_mapping_command(reg, m, c));
    } else {
        assert(s.push(c)[0] == s[0]);
        assert(s.push(c).subrange(1, s.len() as int + 1) =~= s.subrange(1, s.len() as int).push(c));
        lemma_apply_mapping_snoc(reg, apply_mapping_command(reg, m, s[0]), s.subrange(1, s.len() as int), c);
    }
}

/// How many of these parse errors are user-visible: every one but the
/// suppressed no-command case.
pub open spec fn count_visible_errors(s: Seq<ParseError>) -> nat
    decreases s.len(),
{
    if s.len() == 0 {
        0
    } else {
        (if s[0] is NoCommand {
            0nat
        } else {
            1nat
        }) + count_visible_errors(s.subrange(1, s.len() as int))
    }
}

proof fn lemma_count_visible_snoc(s: Seq<ParseError>, e: ParseError)
    ensures
        count_visible_errors(s.push(e)) == count_visible_errors(s) + (if e is NoCommand {
            0nat
        } else {
            1nat
        }),
    decreases s.len(),
{
    if s.len() == 0 {
        assert(s.push(e)[0] == e);
        assert(s.push(e).subrange(1, 1) =~= Seq::<ParseError>::empty());
        assert(s.push(e).len() == 1);
        assert(count_visible_errors(Seq::<ParseError>::empty()) == 0);
        assert(count_visible_errors(s) == 0);
        assert(count_visible_errors(s.push(e)) == (if e is NoCommand { 0nat } else { 1nat }));
    } else {
        assert(s.push(e)[0] == s[0]);
        assert(s.push(e).subrange(1, s.len() as int + 1) =~= s.subrange(1, s.len() as int).push(e));
        lemma_count_visible_snoc(s.subrange(1, s.len() as int), e);
    }
}

/// Classify a parse error into its user-facing message; the no-command
/// case is suppressed entirely.
pub fn classify_parse_error(e: &ParseError) -> (r: Option<String>)
    ensures
        match r {
            Some(m) => !(e is NoCommand) && m@ == spec_parse_error_message(*e),
            None => e is NoCommand,
        },
{
    match e {
        ParseError::MissingArgument => Some(String::from_str("Argument required")),
        ParseError::NoCommand => None,
        ParseError::Parse { unexpected, expected } => {
            let mut m = String::from_str("Parse error: unexpected ");
            m.append(unexpected.as_str());
            m.append(", expecting: ");
            m.append(expected.as_str());
            Some(m)
        },
        ParseError::UnknownCommand { unexpected } => {
            let mut m = String::from_str("Not a command: ");
            m.append(unexpected.as_str());
            Some(m)
        },
    }
}

impl Mg {
    /// Convert an action string to a shortcut command: an action starting
    /// with the colon identifier runs up to the enter marker, or pre-fills
    /// the entry when the marker is absent; anything else is a complete
    /// command as it stands.
    pub fn action_to_command(&self, action: &str) -> (r: ShortcutCommand)
        ensures
            ({
                let a = action@;
                &&& (a.len() == 0 || a[0] != ':') ==> (r matches ShortcutCommand::Complete(c)
                    && c@ == a)
                &&& (a.len() > 0 && a[0] == ':' && !has_match(a, enter_marker())) ==> (
                r matches ShortcutCommand::Incomplete(c) && c@ == a.subrange(1, a.len() as int))
                &&& (a.len() > 0 && a[0] == ':' && has_match(a, enter_marker())) ==> (
                r matches ShortcutCommand::Complete(c) && exists|i: int|
                    {
                        &&& #[trigger] match_at(a, enter_marker(), i)
                        &&& forall|j: int| 0 <= j < i ==> !match_at(a, enter_marker(), j)
                        &&& c@ == a.subrange(1, i)
                    })
            }),
    {
        proof {
            reveal_strlit("<Enter>");
        }
        let len = action.unicode_len();
        if len > 0 && action.get_char(0) == ':' {
            match crate::text::find_pattern(action, "<Enter>") {
                Some(index) => {
                    proof {
                        if index == 0 {
                            assert(action@.subrange(0, 7)[0] == action@[0]);
                        }
                    }
                    ShortcutCommand::Complete(String::from_str(action.substring_char(1, index)))
                },
                None => ShortcutCommand::Incomplete(
                    String::from_str(action.substring_char(1, len)),
                ),
            }
        } else {
            ShortcutCommand::Complete(String::from_str(action))
        }
    }

    /// Ask the host to refresh the completion list for the current mode
    /// and entry text.
    pub fn update_completions(&self) -> (r: Vec<Effect>)
        requires
            self.wf(),
        ensures
            r@.len() == 1 && (r@[0] matches Effect::UpdateCompletions { mode, input }
                && mode@ == self.registry.spec_mode_name(self.current_mode)
                && input@ == self.entry_text@),
            count_deliveries(r@) == 0,
    {
        let mut effects: Vec<Effect> = Vec::new();
        effects.push(Effect::UpdateCompletions {
            mode: self.get_mode(),
            input: self.entry_text.clone(),
        });
        proof {
            lemma_count_deliveries_one(effects@);
        }
        effects
    }

    /// Route a built-in application action to the entry and completion
    /// surfaces; an action that edits the entry text also refreshes the
    /// completions.
    pub fn app_command(&self, action: AppAction) -> (r: Vec<Effect>)
        requires
            self.wf(),
        ensures
            r@[0] == Effect::App(action),
            !updates_completions(action) ==> r@.len() == 1,
            updates_completions(action) ==> r@.len() == 2 && (r@[1] matches Effect::UpdateCompletions {
                mode,
                input,
            } && mode@ == self.registry.spec_mode_name(self.current_mode)
                && input@ == self.entry_text@),
            count_deliveries(r@) == 0,
    {
        let mut effects: Vec<Effect> = Vec::new();
        effects.push(Effect::App(action));
        match action {
            AppAction::EntryDeleteNextChar
            | AppAction::EntryDeleteNextWord
            | AppAction::EntryDeletePreviousWord => {
                let mut rest = self.update_completions();
                effects.append(&mut rest);
            },
            _ => {},
        }
        proof {
            if effects@.len() == 1 {
                lemma_count_deliveries_one(effects@);
            } else {
                lemma_count_deliveries_two(effects@);
            }
        }
        effects
    }

    /// The entry text with each declared variable, written in angle
    /// brackets, replaced by its value, in declaration order.
    pub open spec fn subst_vars(s: Seq<char>, vars: Seq<(String, String)>) -> Seq<char>
        decreases vars.len(),
    {
        if vars.len() == 0 {
            s
        } else {
            Mg::subst_vars(
                replace_all(s, "<"@ + vars[0].0@ + ">"@, vars[0].1@),
                vars.subrange(1, vars.len() as int),
            )
        }
    }

    /// A command text padded with a trailing space when it has none, so
    /// the user can type an argument right away.
    pub open spec fn pad_command(s: Seq<char>) -> Seq<char> {
        if exists|i: int| 0 <= i < s.len() && s[i] == ' ' {
            s
        } else {
            s + " "@
        }
    }

    fn substitute_variables(&self, command: &str) -> (r: String)
        ensures
            r@ == Mg::subst_vars(command@, self.variables@),
    {
        proof {
            reveal_strlit("<");
            reveal_strlit(">");
        }
        let n = self.variables.len();
        let mut text = String::from_str(command);
        let mut i: usize = 0;
        proof {
            assert(self.variables@.subrange(0, n as int) =~= self.variables@);
        }
        while i < n
            invariant
                i <= n,
                n == self.variables@.len(),
                Mg::subst_vars(command@, self.variables@) == Mg::subst_vars(
                    text@,
                    self.variables@.subrange(i as int, n as int),
                ),
                "<"@.len() == 1,
                ">"@.len() == 1,
            decreases n - i,
        {
            let ghost rest = self.variables@.subrange(i as int, n as int);
            let mut pat = String::from_str("<");
            pat.append(self.variables[i].0.as_str());
            pat.append(">");
            let replaced = replace_all_exec(
                text.as_str(),
                pat.as_str(),
                self.variables[i].1.as_str(),
            );
            proof {
                assert(rest[0] == self.variables@[i as int]);
                assert(rest.subrange(1, rest.len() as int) =~= self.variables@.subrange(
                    i + 1,
                    n as int,
                ));
            }
            text = replaced;
            i += 1;
        }
        proof {
            assert(self.variables@.subrange(n as int, n as int) =~= Seq::<(String, String)>::empty());
        }
        text
    }

    /// Enter command mode with the entry pre-filled: the command text has
    /// its variables substituted and, when it carries no argument yet, a
    /// trailing space appended.
    pub fn input_command(&mut self, command: &str) -> (r: Vec<Effect>)
        requires
            old(self).wf(),
        ensures
            final(self).wf(),
            final(self).current_mode == Mode::Command,
            final(self).current_command_mode == old(self).current_command_mode,
            final(self).entry_shown,
            final(self).entry_text@ == Mg::pad_command(
                Mg::subst_vars(command@, old(self).variables@),
            ),
            final(self).completion_shown == old(self).completion_shown,
            final(self).message == old(self).message,
            final(self).color == old(self).color,
            final(self).same_config(*old(self)),
            final(self).same_mappings(*old(self)),
            final(self).same_settings(*old(self)),
            final(self).same_input(*old(self)),
            final(self).same_shortcut_buf(*old(self)),
            r@.len() == 1 && (r@[0] matches Effect::ModeChanged(n) && n@ == "command"@),
            count_deliveries(r@) == 0,
    {
        let effects = self.set_mode(Mode::Command);
        proof {
            lemma_count_deliveries_one(effects@);
        }
        self.show_entry();
        let mut text = self.substitute_variables(command);
        if !contains_char(text.as_str(), ' ') {
            text.append(" ");
        }
        self.entry_text = text;
        effects
    }

    /// Show a classified parse error to the user and hand it to the
    /// host's error sink; the no-command case is suppressed entirely.
    pub fn show_parse_error(&mut self, error: &ParseError) -> (r: Vec<Effect>)
        requires
            old(self).wf(),
        ensures
            final(self).wf(),
            error is NoCommand ==> *final(self) == *old(self) && r@.len() == 0,
            !(error is NoCommand) ==> {
                &&& final(self).message@ == spec_parse_error_message(*error)
                &&& final(self).color == MessageColor::Red
                &&& !final(self).entry_shown
                &&& final(self).same_mode(*old(self))
                &&& final(self).same_config(*old(self))
                &&& final(self).same_mappings(*old(self))
                &&& final(self).same_settings(*old(self))
                &&& final(self).same_input(*old(self))
                &&& final(self).same_shortcut_buf(*old(self))
                &&& final(self).completion_shown == old(self).completion_shown
                &&& final(self).entry_text == old(self).entry_text
                &&& r@.len() == 1 && (r@[0] matches Effect::Error(e)
                    && e.message@ == spec_parse_error_message(*error) && e.causes@.len() == 0)
            },
            count_error_effects(r@) == (if error is NoCommand {
                0nat
            } else {
                1nat
            }),
            count_deliveries(r@) == 0,
    {
        let message = match classify_parse_error(error) {
            Some(m) => m,
            None => {
                let r: Vec<Effect> = Vec::new();
                proof {
                    assert(count_error_effects(r@) == 0);
                }
                return r;
            },
        };
        let r = self.error(ErrorInfo { message, causes: Vec::new() });
        proof {
            crate::controller::lemma_count_error_one(r@);
            lemma_count_deliveries_one(r@);
        }
        r
    }

    /// Apply one typed command: route an application action, forward a
    /// custom command, mutate the mapping table, or coerce and apply a
    /// setting. A failed coercion surfaces one recoverable error and
    /// leaves the prior settings untouched; a set command always returns
    /// the session to normal mode afterwards.
    pub fn call_command<S: SettingsCoercer>(&mut self, command: Command, coercer: &S) -> (r: Vec<
        Effect,
    >)
        requires
            old(self).wf(),
        ensures
            final(self).wf(),
            final(self).same_config(*old(self)),
            final(self).same_input(*old(self)),
            final(self).same_shortcut_buf(*old(self)),
            final(self).mappings.as_map() == apply_mapping_command(
                old(self).registry,
                old(self).mappings.as_map(),
                command,
            ),
            count_error_effects(r@) <= 1,
            count_deliveries(r@) == 0,
            match command {
                Command::App(a) => *final(self) == *old(self) && r@[0] == Effect::App(a)
                    && (if updates_completions(a) {
                    r@.len() == 2
                } else {
                    r@.len() == 1
                }),
                Command::Custom(p) => *final(self) == *old(self) && r@.len() == 1 && (
                r@[0] matches Effect::CustomCommand(q) && q == p),
                Command::MapKeys { action, keys, mode } => {
                    &&& final(self).same_settings(*old(self))
                    &&& final(self).same_mode(*old(self))
                    &&& old(self).registry.spec_resolve(mode@) is Some ==> r@.len() == 0
                        && final(self).same_surface(*old(self))
                    &&& old(self).registry.spec_resolve(mode@) is None ==> r@.len() == 1 && (
                    r@[0] matches Effect::Error(e) && e.message@ == unknown_mode_message(mode@))
                },
                Command::SetSetting { name, value } => {
                    &&& final(self).current_mode == Mode::Normal
                    &&& final(self).current_command_mode == ':'
                    &&& !final(self).entry_shown
                    &&& !final(self).completion_shown
                    &&& final(self).same_mappings(*old(self))
                    &&& ({
                        ||| (r@.len() == 2 && (exists|v: crate::commands::SettingVariant|
                            {
                                &&& #[trigger] r@[0] == Effect::SettingChanged(v)
                                &&& crate::controller::settings_map(final(self).settings@)
                                    == crate::controller::settings_map(old(self).settings@).insert(
                                    v.name@,
                                    v.value,
                                )
                            }) && (r@[1] matches Effect::ModeChanged(n) && n@ == "normal"@))
                        ||| (r@.len() == 2 && final(self).same_settings(*old(self)) && (
                        r@[0] matches Effect::Error(e) && e.message@ == "Error setting value"@) && (
                        r@[1] matches Effect::ModeChanged(n) && n@ == "normal"@)
                            && final(self).message@ == "Error setting value"@ && final(self).color
                            == MessageColor::Red)
                    })
                },
                Command::UnmapKeys { keys, mode } => {
                    &&& final(self).same_settings(*old(self))
                    &&& final(self).same_mode(*old(self))
                    &&& old(self).registry.spec_resolve(mode@) is Some ==> r@.len() == 0
                        && final(self).same_surface(*old(self))
                    &&& old(self).registry.spec_resolve(mode@) is None ==> r@.len() == 1 && (
                    r@[0] matches Effect::Error(e) && e.message@ == unknown_mode_message(mode@))
                },
            },
    {
        match command {
            Command::App(action) => {
                let r = self.app_command(action);
                proof {
                    if r@.len() == 1 {
                        crate::controller::lemma_count_error_one(r@);
                    } else {
                        crate::controller::lemma_count_error_two(r@);
                    }
                }
                r
            },
            Command::Custom(payload) => {
                let mut effects: Vec<Effect> = Vec::new();
                effects.push(Effect::CustomCommand(payload));
                proof {
                    crate::controller::lemma_count_error_one(effects@);
                    lemma_count_deliveries_one(effects@);
                }
                effects
            },
            Command::MapKeys { action, keys, mode } => {
                match self.registry.resolve(mode.as_str()) {
                    Some(m) => {
                        self.mappings.insert(m, keys, action);
                        let r: Vec<Effect> = Vec::new();
                        proof {
                            assert(count_error_effects(r@) == 0);
                        }
                        r
                    },
                    None => {
                        let mut message = String::from_str("No such mode: ");
                        message.append(mode.as_str());
                        let r = self.error(ErrorInfo { message, causes: Vec::new() });
                        proof {
                            crate::controller::lemma_count_error_one(r@);
                            lemma_count_deliveries_one(r@);
                        }
                        r
                    },
                }
            },
            Command::SetSetting { name, value } => {
                let mut effects: Vec<Effect> = match coercer.to_variant(
                    name.as_str(),
                    value.as_str(),
                ) {
                    Ok(setting) => self.set_setting(setting),
                    Err(cause) => {
                        let mut causes: Vec<String> = Vec::new();
                        causes.push(cause);
                        self.error(ErrorInfo {
                            message: String::from_str("Error setting value"),
                            causes,
                        })
                    },
                };
                let mut rest = self.return_to_normal_mode();
                effects.append(&mut rest);
                proof {
                    crate::controller::lemma_count_error_two(effects@);
                    lemma_count_deliveries_two(effects@);
                }
                effects
            },
            Command::UnmapKeys { keys, mode } => {
                match self.registry.resolve(mode.as_str()) {
                    Some(m) => {
                        self.mappings.remove(m, keys.as_slice());
                        let r: Vec<Effect> = Vec::new();
                        proof {
                            assert(count_error_effects(r@) == 0);
                        }
                        r
                    },
                    None => {
                        let mut message = String::from_str("No such mode: ");
                        message.append(mode.as_str());
                        let r = self.error(ErrorInfo { message, causes: Vec::new() });
                        proof {
                            crate::controller::lemma_count_error_one(r@);
                            lemma_count_deliveries_one(r@);
                        }
                        r
                    },
                }
            },
        }
    }

    /// Execute the commands and show the errors of one parse result, in
    /// order; an error aborts neither the commands nor the other errors
    /// of the batch. When the batch came from activating the entry, the
    /// session returns to normal mode afterwards.
    pub fn execute_commands<S: SettingsCoercer>(
        &mut self,
        parse_result: ParseResult,
        activated: bool,
        coercer: &S,
    ) -> (r: Vec<Effect>)
        requires
            old(self).wf(),
        ensures
            final(self).wf(),
            final(self).same_config(*old(self)),
            final(self).same_input(*old(self)),
            final(self).same_shortcut_buf(*old(self)),
            final(self).mappings.as_map() == apply_mapping_commands(
                old(self).registry,
                old(self).mappings.as_map(),
                parse_result.commands@,
            ),
            count_error_effects(r@) >= count_visible_errors(parse_result.errors@),
            count_error_effects(r@) <= count_visible_errors(parse_result.errors@)
                + parse_result.commands@.len(),
            count_deliveries(r@) == 0,
            activated ==> final(self).current_mode == Mode::Normal
                && final(self).current_command_mode == ':',
            (!activated && parse_result.commands@.len() == 0 && count_visible_errors(
                parse_result.errors@,
            ) == 0) ==> *final(self) == *old(self) && r@.len() == 0,
    {
        let ParseResult { mut commands, errors } = parse_result;
        let ghost cmds0 = commands@;
        let ghost m0 = self.mappings.as_map();
        let ghost reg = self.registry;
        let n0 = commands.len();
        let mut effects: Vec<Effect> = Vec::new();
        let mut i: usize = 0;
        proof {
            assert(cmds0.len() == n0);
            assert(cmds0.take(0) =~= Seq::<Command>::empty());
        }
        while commands.len() > 0
            invariant
                self.wf(),
                cmds0.len() <= usize::MAX,
                i + commands@.len() == cmds0.len(),
                commands@ == cmds0.subrange(i as int, cmds0.len() as int),
                self.registry == reg,
                self.same_config(*old(self)),
                self.same_input(*old(self)),
                self.same_shortcut_buf(*old(self)),
                self.mappings.as_map() == apply_mapping_commands(reg, m0, cmds0.take(i as int)),
                count_error_effects(effects@) <= i,
                count_deliveries(effects@) == 0,
                i == 0 ==> *self == *old(self) && effects@.len() == 0,
            decreases commands@.len(),
    {
            let command = commands.remove(0);
            proof {
                assert(command == cmds0[i as int]);
                assert(cmds0.take(i + 1) =~= cmds0.take(i as int).push(command));
                lemma_apply_mapping_snoc(reg, m0, cmds0.take(i as int), command);
            }
            let mut step = self.call_command(command, coercer);
            proof {
                crate::controller::lemma_count_error_append(effects@, step@);
                lemma_count_deliveries_append(effects@, step@);
                assert(commands@ =~= cmds0.subrange(i + 1, cmds0.len() as int));
            }
            effects.append(&mut step);
            i += 1;
        }
        proof {
            assert(cmds0.take(cmds0.len() as int) =~= cmds0);
        }
        let ghost base = count_error_effects(effects@);
        let ghost errs0 = errors@;
        let mut j: usize = 0;
        proof {
            assert(errs0.take(0) =~= Seq::<ParseError>::empty());
        }
        while j < errors.len()
            invariant
                self.wf(),
                j <= errs0.len(),
                errors@ == errs0,
                self.registry == reg,
                self.same_config(*old(self)),
                self.same_input(*old(self)),
                self.same_shortcut_buf(*old(self)),
                self.mappings.as_map() == apply_mapping_commands(reg, m0, cmds0),
                count_error_effects(effects@) == base + count_visible_errors(errs0.take(j as int)),
                count_deliveries(effects@) == 0,
                base <= cmds0.len(),
                base >= 0,
                (cmds0.len() == 0 && count_visible_errors(errs0.take(j as int)) == 0) ==> *self
                    == *old(self) && effects@.len() == 0,
            decreases errs0.len() - j,
        {
            let mut step = self.show_parse_error(&errors[j]);
            proof {
                crate::controller::lemma_count_error_append(effects@, step@);
                lemma_count_deliveries_append(effects@, step@);
                assert(errs0.take(j + 1) =~= errs0.take(j as int).push(errs0[j as int]));
                lemma_count_visible_snoc(errs0.take(j as int), errs0[j as int]);
            }
            effects.append(&mut step);
            j += 1;
        }
        proof {
            assert(errs0.take(errs0.len() as int) =~= errs0);
        }
        if activated {
            let mut rest = self.return_to_normal_mode();
            proof {
                crate::controller::lemma_count_error_append(effects@, rest@);
                crate::controller::lemma_count_error_one(rest@);
                lemma_count_deliveries_append(effects@, rest@);
                lemma_count_deliveries_one(rest@);
            }
            effects.append(&mut rest);
        }
        effects
    }

    /// Handle activated or mapped command text: with the colon identifier
    /// the text is parsed and the batch dispatched; with a special
    /// identifier the text is handed to the host's special commands.
    pub fn handle_command<P: CommandParser, C: SpecialCommands, S: SettingsCoercer>(
        &mut self,
        command: Option<String>,
        activated: bool,
        hooks: &mut Collaborators<P, C, S>,
    ) -> (r: Vec<Effect>)
        requires
            old(self).wf(),
        ensures
            final(self).wf(),
            final(self).same_config(*old(self)),
            final(self).same_input(*old(self)),
            final(self).same_shortcut_buf(*old(self)),
            command is None ==> *final(self) == *old(self) && r@.len() == 0,
            count_deliveries(r@) == 0,
            // activating a colon-command batch returns the session to
            // normal mode, whatever the parser returned
            (command is Some && old(self).current_command_mode == ':' && activated)
                ==> final(self).current_mode == Mode::Normal && final(self).current_command_mode
                == ':',
            old(self).current_command_mode != ':' ==> {
                &&& final(self).same_mappings(*old(self))
                &&& final(self).same_settings(*old(self))
                &&& r@.len() <= 2
                &&& r@.len() > 0 ==> r@.last() is CustomCommand
            },
    {
        match command {
            Some(command) => {
                if self.current_command_mode == ':' {
                    let parse_result = hooks.parser.parse_line(command.as_str());
                    self.execute_commands(parse_result, activated, &hooks.settings)
                } else {
                    self.handle_special_command(ActivationType::Activate, command.as_str(), &hooks.special)
                }
            },
            None => Vec::new(),
        }
    }

    /// Hand special-command text to the host: when the host recognises it
    /// under the current identifier, the resulting custom command is
    /// forwarded, and an activation returns the session to normal mode
    /// first.
    pub fn handle_special_command<C: SpecialCommands>(
        &mut self,
        activation_type: ActivationType,
        command: &str,
        special: &C,
    ) -> (r: Vec<Effect>)
        requires
            old(self).wf(),
        ensures
            final(self).wf(),
            final(self).same_config(*old(self)),
            final(self).same_input(*old(self)),
            final(self).same_mappings(*old(self)),
            final(self).same_settings(*old(self)),
            final(self).same_shortcut_buf(*old(self)),
            r@.len() == 0 ==> *final(self) == *old(self),
            count_deliveries(r@) == 0,
            r@.len() > 0 ==> {
                &&& r@.last() is CustomCommand
                &&& activation_type is Activate ==> {
                    &&& r@.len() == 2
                    &&& (r@[0] matches Effect::ModeChanged(n) && n@ == "normal"@)
                    &&& final(self).current_mode == Mode::Normal
                    &&& final(self).current_command_mode == ':'
                    &&& !final(self).entry_shown
                    &&& !final(self).completion_shown
                }
                &&& activation_type is Current ==> r@.len() == 1 && final(self).same_mode(
                    *old(self),
                ) && final(self).same_surface(*old(self))
            },
    {
        match special.identifier_to_command(self.current_command_mode, command) {
            Ok(payload) => {
                let mut effects: Vec<Effect> = if let ActivationType::Activate = activation_type {
                    self.return_to_normal_mode()
                } else {
                    Vec::new()
                };
                effects.push(Effect::CustomCommand(payload));
                proof {
                    if effects@.len() == 1 {
                        lemma_count_deliveries_one(effects@);
                    } else {
                        lemma_count_deliveries_two(effects@);
                    }
                }
                effects
            },
            Err(_) => Vec::new(),
        }
    }

    /// Handle the entry being activated: in an input mode the text is the
    /// answer of the pending request and its choices are cleared; in the
    /// other modes it is command text.
    pub fn command_activate<P: CommandParser, C: SpecialCommands, S: SettingsCoercer>(
        &mut self,
        input: Option<String>,
        hooks: &mut Collaborators<P, C, S>,
    ) -> (r: Vec<Effect>)
        requires
            old(self).wf(),
        ensures
            final(self).wf(),
            final(self).same_config(*old(self)),
            (old(self).current_mode == Mode::Input || old(self).current_mode
                == Mode::BlockingInput) ==> {
                &&& final(self).choices@.len() == 0
                &&& old(self).input_pending ==> {
                    &&& !final(self).input_pending
                    &&& final(self).answer == input
                    &&& old(self).current_mode == Mode::BlockingInput ==> r@.len() == 1
                        && r@[0] is ReleaseBlockingWait
                    &&& old(self).current_mode == Mode::Input ==> {
                        &&& final(self).current_mode == Mode::Normal
                        &&& final(self).current_command_mode == ':'
                        &&& final(self).message@.len() == 0
                        &&& final(self).current_shortcut@ == Seq::<Key>::empty()
                        &&& r@.len() == 2
                        &&& (r@[0] matches Effect::DeliverAnswer(a) && a == input)
                        &&& (r@[1] matches Effect::ModeChanged(n) && n@ == "normal"@)
                    }
                }
                &&& !old(self).input_pending ==> r@.len() == 0
                    && final(self).input_pending == old(self).input_pending
                    && final(self).same_mode(*old(self))
            },
            // outside the input modes the text is command text: nothing
            // of the pending request is touched, an absent input is a
            // no-op, a colon activation returns the session to normal
            // mode, and a special identifier forwards at most one custom
            // command
            !(old(self).current_mode == Mode::Input || old(self).current_mode
                == Mode::BlockingInput) ==> {
                &&& final(self).same_input(*old(self))
                &&& final(self).same_shortcut_buf(*old(self))
                &&& count_deliveries(r@) == 0
                &&& input is None ==> *final(self) == *old(self) && r@.len() == 0
                &&& (input is Some && old(self).current_command_mode == ':')
                    ==> final(self).current_mode == Mode::Normal
                        && final(self).current_command_mode == ':'
                &&& old(self).current_command_mode != ':' ==> {
                    &&& final(self).same_mappings(*old(self))
                    &&& final(self).same_settings(*old(self))
                    &&& r@.len() <= 2
                    &&& r@.len() > 0 ==> r@.last() is CustomCommand
                }
            },
    {
        if matches!(self.current_mode, Mode::Input | Mode::BlockingInput) {
            let effects = self.deliver(input);
            self.choices.clear();
            effects
        } else {
            self.handle_command(input, true, hooks)
        }
    }

    /// Ask the host to delete the currently selected completion item.
    pub fn delete_current_completion_item(&self) -> (r: Vec<Effect>)
        ensures
            r@.len() == 1 && r@[0] is DeleteCurrentCompletionItem,
    {
        let mut effects: Vec<Effect> = Vec::new();
        effects.push(Effect::DeleteCurrentCompletionItem);
        effects
    }

    /// Restore the entry to the text the user had typed before a
    /// completion was selected.
    pub fn handle_unselect(&mut self, original_input: &str)
        ensures
            final(self).entry_text@ == original_input@,
            *final(self) == (Mg { entry_text: final(self).entry_text, ..*old(self) }),
    {
        self.set_input(original_input);
    }

    /// Put a selected completion into the entry; an empty selection leaves
    /// the entry alone.
    pub fn selection_changed(&mut self, completion: &Option<String>)
        ensures
            completion matches Some(text) ==> final(self).entry_text@ == text@ && *final(self)
                == (Mg { entry_text: final(self).entry_text, ..*old(self) }),
            completion is None ==> *final(self) == *old(self),
    {
        if let Some(text) = completion {
            self.set_input(text.as_str());
        }
    }

    /// Handle a key release in command mode: with an incremental special
    /// identifier active, the current entry text is dispatched on every
    /// change.
    pub fn command_key_release<C: SpecialCommands>(&mut self, special: &C) -> (r: Vec<Effect>)
        requires
            old(self).wf(),
        ensures
            final(self).wf(),
            final(self).same_config(*old(self)),
            final(self).same_input(*old(self)),
            final(self).same_mappings(*old(self)),
            final(self).same_settings(*old(self)),
            final(self).same_shortcut_buf(*old(self)),
            old(self).current_command_mode == ':' ==> *final(self) == *old(self) && r@.len() == 0,
    {
        if self.current_command_mode != ':' && special.is_incremental(self.current_command_mode) {
            let command = self.entry_text.clone();
            self.handle_special_command(ActivationType::Current, command.as_str(), special)
        } else {
            Vec::new()
        }
    }
}

} // verus!
