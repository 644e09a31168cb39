//! Key-event routing and the input modes.
//!
//! A key press is routed by the active mode: normal mode watches for the
//! colon and the special-command identifiers, command mode watches for
//! Escape, and the input modes check answer shortcuts and the accepted
//! choice characters before falling back to the shortcut matcher. Escape
//! always short-circuits: it resets the transient state, and from an input
//! mode it cancels the pending request by delivering the absent answer —
//! exactly once, however often Escape is repeated.

use vstd::prelude::*;
use vstd::string::*;

use crate::controller::Mg;
use crate::effects::{
    count_deliveries, escape_delivery_count, lemma_count_deliveries_append,
    lemma_count_deliveries_one, lemma_count_deliveries_two, CompleterChoice, Effect, Msg,
};
use crate::interface::{CommandParser, Collaborators, SettingsCoercer, SpecialCommands};
use crate::keys::{BaseKey, Key};
use crate::modes::Mode;
use crate::text::push_char;

verus! {

/// The answer bound to a key among the single-key answer shortcuts; the
/// first binding wins.
pub open spec fn spec_shortcut_lookup(s: Seq<(Key, String)>, k: Key) -> Option<String>
    decreases s.len(),
{
    if s.len() == 0 {
        None
    } else if s[0].0 == k {
        Some(s[0].1)
    } else {
        spec_shortcut_lookup(s.subrange(1, s.len() as int), k)
    }
}

proof fn lemma_shortcut_lookup_at(s: Seq<(Key, String)>, k: Key, i: int)
    requires
        0 <= i < s.len(),
        s[i].0 == k,
        forall|j: int| 0 <= j < i ==> (#[trigger] s[j]).0 != k,
    ensures
        spec_shortcut_lookup(s, k) == Some(s[i].1),
    decreases i,
{
    if i == 0 {
    } else {
        assert(s[0].0 != k);
        let tail = s.subrange(1, s.len() as int);
        assert(tail[i - 1] == s[i]);
        assert(forall|j: int| 0 <= j < i - 1 ==> (#[trigger] tail[j]).0 != k) by {
            assert(forall|j: int| 0 <= j < i - 1 ==> tail[j] == s[j + 1]);
        }
        lemma_shortcut_lookup_at(tail, k, i - 1);
    }
}

proof fn lemma_shortcut_lookup_none(s: Seq<(Key, String)>, k: Key)
    requires
        forall|j: int| 0 <= j < s.len() ==> (#[trigger] s[j]).0 != k,
    ensures
        spec_shortcut_lookup(s, k) is None,
    decreases s.len(),
{
    if s.len() > 0 {
        let tail = s.subrange(1, s.len() as int);
        assert(forall|j: int| 0 <= j < tail.len() ==> tail[j] == s[j + 1]);
        lemma_shortcut_lookup_none(tail, k);
    }
}

/// Whether a key types one of the accepted single-character answers.
pub open spec fn is_choice_key(choices: Seq<char>, key: Key) -> bool {
    exists|i: int| 0 <= i < choices.len() && BaseKey::Char(#[trigger] choices[i]) == key.base
}

fn find_choice(choices: &Vec<char>, key: Key) -> (r: bool)
    ensures
        r == is_choice_key(choices@, key),
{
    let mut i: usize = 0;
    while i < choices.len()
        invariant
            i <= choices@.len(),
            forall|j: int| 0 <= j < i ==> BaseKey::Char(#[trigger] choices@[j]) != key.base,
        decreases choices@.len() - i,
    {
        let candidate = Key { base: BaseKey::Char(choices[i]), control: false };
        if candidate.base == key.base {
            return true;
        }
        i += 1;
    }
    false
}

impl Mg {
    /// Answer the pending request directly from a bound single-key answer
    /// shortcut, if this key carries one.
    pub fn handle_input_shortcut(&mut self, key: Key) -> (r: (Vec<Effect>, bool))
        requires
            old(self).wf(),
        ensures
            final(self).wf(),
            final(self).same_config(*old(self)),
            final(self).same_mappings(*old(self)),
            final(self).same_settings(*old(self)),
            r.1 == (spec_shortcut_lookup(old(self).shortcuts@, key) is Some),
            spec_shortcut_lookup(old(self).shortcuts@, key) is None ==> *final(self) == *old(self)
                && r.0@.len() == 0,
            spec_shortcut_lookup(old(self).shortcuts@, key) matches Some(ans) ==> {
                &&& final(self).shortcut_pressed
                &&& !old(self).input_pending ==> r.0@.len() == 0 && final(self).input_pending
                    == old(self).input_pending
                &&& (old(self).input_pending && old(self).current_mode == Mode::Input) ==> {
                    &&& !final(self).input_pending
                    &&& final(self).current_mode == Mode::Normal
                    &&& final(self).answer matches Some(s) && s@ == ans@
                    &&& r.0@.len() == 2
                    &&& (r.0@[0] matches Effect::DeliverAnswer(a) && a matches Some(s) && s@
                        == ans@)
                }
                &&& (old(self).input_pending && old(self).current_mode == Mode::BlockingInput)
                    ==> {
                    &&& !final(self).input_pending
                    &&& final(self).answer matches Some(s) && s@ == ans@
                    &&& r.0@.len() == 1 && r.0@[0] is ReleaseBlockingWait
                }
            },
    {
        let mut i: usize = 0;
        while i < self.shortcuts.len()
            invariant
                self.wf(),
                *self == *old(self),
                i <= self.shortcuts@.len(),
                forall|j: int| 0 <= j < i ==> (#[trigger] self.shortcuts@[j]).0 != key,
            decreases self.shortcuts@.len() - i,
        {
            if self.shortcuts[i].0 == key {
                proof {
                    lemma_shortcut_lookup_at(self.shortcuts@, key, i as int);
                }
                let answer = self.shortcuts[i].1.clone();
                let effects = self.set_dialog_answer(answer.as_str());
                self.shortcut_pressed = true;
                return (effects, true);
            }
            i += 1;
        }
        proof {
            lemma_shortcut_lookup_none(self.shortcuts@, key);
        }
        (Vec::new(), false)
    }

    /// Handle a key press in an input mode: Escape cancels the pending
    /// request, an answer shortcut or an accepted choice character
    /// delivers its answer, and anything else feeds the shortcut matcher.
    pub fn input_key_press<P: CommandParser, C: SpecialCommands, S: SettingsCoercer>(
        &mut self,
        key: Key,
        hooks: &mut Collaborators<P, C, S>,
    ) -> (r: (Vec<Effect>, bool))
        requires
            old(self).wf(),
            old(self).current_mode == Mode::Input || old(self).current_mode
                == Mode::BlockingInput,
        ensures
            final(self).wf(),
            final(self).same_config(*old(self)),
            key.base is Escape ==> {
                &&& count_deliveries(r.0@) == escape_delivery_count(
                    old(self).current_mode,
                    old(self).input_pending,
                )
                &&& !final(self).input_pending
                &&& final(self).current_mode == Mode::Normal
                &&& final(self).current_command_mode == ':'
                &&& final(self).message@.len() == 0
                &&& final(self).color == crate::controller::MessageColor::Neutral
                &&& !final(self).entry_shown
                &&& !final(self).completion_shown
                &&& final(self).current_shortcut@ == Seq::<Key>::empty()
                &&& r.1 == false
                &&& (old(self).input_pending && old(self).current_mode == Mode::Input) ==> (
                r.0@[0] matches Effect::DeliverAnswer(a) && a is None)
                &&& (old(self).input_pending && old(self).current_mode == Mode::BlockingInput)
                    ==> r.0@[0] is ReleaseBlockingWait && final(self).answer is None
            },
            !(key.base is Escape) ==> {
                &&& (spec_shortcut_lookup(old(self).shortcuts@, key) is None && !is_choice_key(
                    old(self).choices@,
                    key,
                )) ==> {
                    &&& final(self).input_pending == old(self).input_pending
                    &&& final(self).choices == old(self).choices
                    &&& count_deliveries(r.0@) == 0
                    &&& crate::shortcut::matcher_step_post(*old(self), *final(self), key, r.0@, r.1)
                }
                &&& (spec_shortcut_lookup(old(self).shortcuts@, key) is None && is_choice_key(
                    old(self).choices@,
                    key,
                ) && old(self).input_pending && old(self).current_mode == Mode::Input) ==> {
                    &&& !final(self).input_pending
                    &&& final(self).choices@.len() == 0
                    &&& final(self).current_mode == Mode::Normal
                    &&& final(self).message@.len() == 0
                    &&& final(self).current_shortcut@ == Seq::<Key>::empty()
                    &&& r.1 == true
                    &&& r.0@.len() == 2
                    &&& (r.0@[0] matches Effect::DeliverAnswer(a) && a matches Some(s) && s@.len()
                        == 1 && BaseKey::Char(s@[0]) == key.base)
                }
            },
    {
        match key.base {
            BaseKey::Escape => {
                let mut effects = self.deliver(None);
                proof {
                    if effects@.len() == 1 {
                        lemma_count_deliveries_one(effects@);
                    } else if effects@.len() == 2 {
                        lemma_count_deliveries_two(effects@);
                    }
                }
                if !matches!(self.current_mode, Mode::Normal) {
                    let mut entered = self.return_to_normal_mode();
                    proof {
                        lemma_count_deliveries_one(entered@);
                        lemma_count_deliveries_append(effects@, entered@);
                    }
                    effects.append(&mut entered);
                }
                self.reset();
                (effects, false)
            },
            _ => {
                let (effects, handled) = self.handle_input_shortcut(key);
                if handled {
                    return (effects, true);
                }
                if let BaseKey::Char(c) = key.base {
                    if find_choice(&self.choices, key) {
                        let mut answer = String::new();
                        push_char(&mut answer, c);
                        let effects = self.set_dialog_answer(answer.as_str());
                        return (effects, true);
                    }
                }
                self.handle_shortcut(key, hooks)
            },
        }
    }

    /// Handle a key press in normal mode: the colon enters command mode,
    /// Escape resets the transient state, a special-command identifier
    /// enters its command mode, and anything else feeds the shortcut
    /// matcher.
    pub fn normal_key_press<P: CommandParser, C: SpecialCommands, S: SettingsCoercer>(
        &mut self,
        key: Key,
        hooks: &mut Collaborators<P, C, S>,
    ) -> (r: (Vec<Effect>, bool))
        requires
            old(self).wf(),
        ensures
            final(self).wf(),
            final(self).same_config(*old(self)),
            final(self).same_input(*old(self)),
            key.base == BaseKey::Char(':') ==> {
                &&& final(self).current_mode == Mode::Command
                &&& final(self).current_command_mode == ':'
                &&& final(self).entry_shown
                &&& final(self).completion_shown
                &&& final(self).message@.len() == 0
                &&& final(self).color == crate::controller::MessageColor::Neutral
                &&& final(self).current_shortcut@ == Seq::<Key>::empty()
                &&& final(self).same_mappings(*old(self))
                &&& r.1 == true
                &&& r.0@.len() == 2
                &&& (r.0@[0] matches Effect::SetCompleter { choice, input }
                    && choice == CompleterChoice::DefaultCompleter)
                &&& (r.0@[1] matches Effect::ModeChanged(n) && n@ == "command"@)
            },
            key.base is Escape ==> {
                &&& final(self).same_mode(*old(self))
                &&& final(self).same_mappings(*old(self))
                &&& final(self).same_settings(*old(self))
                &&& !final(self).entry_shown
                &&& !final(self).completion_shown
                &&& final(self).message@.len() == 0
                &&& final(self).color == crate::controller::MessageColor::Neutral
                &&& final(self).current_shortcut@ == Seq::<Key>::empty()
                &&& r.0@.len() == 0
                &&& r.1 == true
            },
            // whether a character introduces a special command is the
            // host's decision: either its command mode is entered, or the
            // key went to the shortcut matcher
            key.base matches BaseKey::Char(c) ==> {
                ||| c == ':'
                ||| {
                    &&& final(self).current_mode == Mode::Command
                    &&& final(self).current_command_mode == c
                    &&& final(self).entry_shown
                    &&& final(self).message@.len() == 0
                    &&& final(self).current_shortcut@ == Seq::<Key>::empty()
                    &&& final(self).same_mappings(*old(self))
                    &&& r.1 == true
                    &&& r.0@.len() == 2
                    &&& (r.0@[0] matches Effect::SetCompleter { choice, input }
                        && choice == CompleterChoice::NoCompleter
                        && input@ == old(self).entry_text@)
                    &&& (r.0@[1] matches Effect::ModeChanged(n) && n@ == "command"@)
                }
                ||| crate::shortcut::matcher_step_post(*old(self), *final(self), key, r.0@, r.1)
            },
            // a named key other than Escape always goes to the matcher
            (!(key.base is Escape) && !(key.base is Char)) ==> crate::shortcut::matcher_step_post(
                *old(self),
                *final(self),
                key,
                r.0@,
                r.1,
            ),
    {
        match key.base {
            BaseKey::Char(c) => {
                if c == ':' {
                    let effects = self.update(Msg::EnterCommandMode);
                    (effects, true)
                } else if hooks.special.is_identifier(c) {
                    let mut effects: Vec<Effect> = Vec::new();
                    effects.push(Effect::SetCompleter {
                        choice: CompleterChoice::NoCompleter,
                        input: self.entry_text.clone(),
                    });
                    self.set_current_identifier(c);
                    let mut entered = self.set_mode(Mode::Command);
                    effects.append(&mut entered);
                    self.reset();
                    self.show_entry();
                    (effects, true)
                } else {
                    self.handle_shortcut(key, hooks)
                }
            },
            BaseKey::Escape => {
                self.reset();
                self.clear_shortcut();
                (Vec::new(), true)
            },
            _ => self.handle_shortcut(key, hooks),
        }
    }

    /// Handle a key press in command mode: Escape returns to normal mode
    /// and resets; anything else feeds the shortcut matcher.
    pub fn command_key_press<P: CommandParser, C: SpecialCommands, S: SettingsCoercer>(
        &mut self,
        key: Key,
        hooks: &mut Collaborators<P, C, S>,
    ) -> (r: (Vec<Effect>, bool))
        requires
            old(self).wf(),
        ensures
            final(self).wf(),
            final(self).same_config(*old(self)),
            final(self).same_input(*old(self)),
            key.base is Escape ==> {
                &&& final(self).current_mode == Mode::Normal
                &&& final(self).current_command_mode == ':'
                &&& !final(self).entry_shown
                &&& !final(self).completion_shown
                &&& final(self).message@.len() == 0
                &&& final(self).color == crate::controller::MessageColor::Neutral
                &&& final(self).current_shortcut@ == Seq::<Key>::empty()
                &&& final(self).same_mappings(*old(self))
                &&& r.1 == false
                &&& r.0@.len() == 1 && (r.0@[0] matches Effect::ModeChanged(n) && n@ == "normal"@)
            },
            !(key.base is Escape) ==> crate::shortcut::matcher_step_post(
                *old(self),
                *final(self),
                key,
                r.0@,
                r.1,
            ),
    {
        match key.base {
            BaseKey::Escape => {
                let effects = self.update(Msg::EnterNormalModeAndReset);
                (effects, false)
            },
            _ => self.handle_shortcut(key, hooks),
        }
    }

    /// Route a key press to the handler of the active mode.
    pub fn key_press<P: CommandParser, C: SpecialCommands, S: SettingsCoercer>(
        &mut self,
        key: Key,
        hooks: &mut Collaborators<P, C, S>,
    ) -> (r: (Vec<Effect>, bool))
        requires
            old(self).wf(),
        ensures
            final(self).wf(),
            final(self).same_config(*old(self)),
            // Escape short-circuits from every mode: the session is left
            // in normal mode with the transient state reset, and a
            // pending input answer is delivered exactly once
            key.base is Escape ==> {
                &&& count_deliveries(r.0@) == escape_delivery_count(
                    old(self).current_mode,
                    old(self).input_pending,
                )
                &&& final(self).current_mode == Mode::Normal
                &&& final(self).message@.len() == 0
                &&& final(self).color == crate::controller::MessageColor::Neutral
                &&& !final(self).entry_shown
                &&& !final(self).completion_shown
                &&& final(self).current_shortcut@ == Seq::<Key>::empty()
                &&& (old(self).current_mode == Mode::Input || old(self).current_mode
                    == Mode::BlockingInput) ==> !final(self).input_pending
                    && final(self).current_command_mode == ':'
            },
            // normal mode: the colon enters command mode, another
            // character enters the host's special command mode or feeds
            // the matcher, a named key feeds the matcher
            old(self).current_mode == Mode::Normal ==> {
                &&& final(self).same_input(*old(self))
                &&& key.base == BaseKey::Char(':') ==> {
                    &&& final(self).current_mode == Mode::Command
                    &&& final(self).current_command_mode == ':'
                    &&& final(self).entry_shown
                    &&& final(self).completion_shown
                    &&& final(self).message@.len() == 0
                    &&& final(self).current_shortcut@ == Seq::<Key>::empty()
                    &&& final(self).same_mappings(*old(self))
                    &&& r.1 == true
                    &&& r.0@.len() == 2
                    &&& (r.0@[0] matches Effect::SetCompleter { choice, input }
                        && choice == CompleterChoice::DefaultCompleter)
                    &&& (r.0@[1] matches Effect::ModeChanged(n) && n@ == "command"@)
                }
                &&& key.base matches BaseKey::Char(c) ==> {
                    ||| c == ':'
                    ||| {
                        &&& final(self).current_mode == Mode::Command
                        &&& final(self).current_command_mode == c
                        &&& final(self).entry_shown
                        &&& final(self).message@.len() == 0
                        &&& final(self).current_shortcut@ == Seq::<Key>::empty()
                        &&& final(self).same_mappings(*old(self))
                        &&& r.1 == true
                    }
                    ||| crate::shortcut::matcher_step_post(*old(self), *final(self), key, r.0@, r.1)
                }
                &&& (!(key.base is Escape) && !(key.base is Char))
                    ==> crate::shortcut::matcher_step_post(*old(self), *final(self), key, r.0@, r.1)
            },
            // command mode: every key but Escape feeds the matcher
            (old(self).current_mode == Mode::Command && !(key.base is Escape))
                ==> final(self).same_input(*old(self)) && crate::shortcut::matcher_step_post(
                *old(self),
                *final(self),
                key,
                r.0@,
                r.1,
            ),
            // a custom mode: every key but Escape feeds the matcher
            (old(self).current_mode matches Mode::Custom(_) && !(key.base is Escape))
                ==> final(self).same_input(*old(self)) && crate::shortcut::matcher_step_post(
                *old(self),
                *final(self),
                key,
                r.0@,
                r.1,
            ),
            // an input mode: an accepted choice delivers its answer, any
            // other non-shortcut key delivers nothing and keeps the
            // request
            ((old(self).current_mode == Mode::Input || old(self).current_mode
                == Mode::BlockingInput) && !(key.base is Escape)) ==> {
                &&& (spec_shortcut_lookup(old(self).shortcuts@, key) is None && !is_choice_key(
                    old(self).choices@,
                    key,
                )) ==> {
                    &&& final(self).input_pending == old(self).input_pending
                    &&& final(self).choices == old(self).choices
                    &&& count_deliveries(r.0@) == 0
                    &&& crate::shortcut::matcher_step_post(*old(self), *final(self), key, r.0@, r.1)
                }
                &&& (spec_shortcut_lookup(old(self).shortcuts@, key) is None && is_choice_key(
                    old(self).choices@,
                    key,
                ) && old(self).input_pending && old(self).current_mode == Mode::Input) ==> {
                    &&& !final(self).input_pending
                    &&& final(self).choices@.len() == 0
                    &&& final(self).current_mode == Mode::Normal
                    &&& r.1 == true
                    &&& r.0@.len() == 2
                    &&& (r.0@[0] matches Effect::DeliverAnswer(a) && a matches Some(s) && s@.len()
                        == 1 && BaseKey::Char(s@[0]) == key.base)
                }
            },
    {
        match self.current_mode {
            Mode::Normal => {
                let r = self.normal_key_press(key, hooks);
                proof {
                    if key.base is Escape {
                        assert(count_deliveries(r.0@) == 0);
                    }
                }
                r
            },
            Mode::Command => {
                let r = self.command_key_press(key, hooks);
                proof {
                    if key.base is Escape {
                        lemma_count_deliveries_one(r.0@);
                    }
                }
                r
            },
            Mode::Input | Mode::BlockingInput => self.input_key_press(key, hooks),
            Mode::Custom(_) => {
                if matches!(key.base, BaseKey::Escape) {
                    let r = (self.update(Msg::EnterNormalModeAndReset), true);
                    proof {
                        lemma_count_deliveries_one(r.0@);
                    }
                    r
                } else {
                    self.handle_shortcut(key, hooks)
                }
            },
        }
    }

    /// Route a key release: in command mode an incremental special
    /// identifier dispatches the entry text on every change.
    pub fn key_release<C: SpecialCommands>(&mut self, key: Key, special: &C) -> (r: (
        Vec<Effect>,
        bool,
    ))
        requires
            old(self).wf(),
        ensures
            final(self).wf(),
            final(self).same_config(*old(self)),
            final(self).same_input(*old(self)),
            final(self).same_mappings(*old(self)),
            old(self).current_mode != Mode::Command ==> *final(self) == *old(self) && r.0@.len()
                == 0,
            r.1 == false,
    {
        let _ = key;
        match self.current_mode {
            Mode::Command => {
                let effects = self.command_key_release(special);
                (effects, false)
            },
            _ => (Vec::new(), false),
        }
    }
}

/// LAW: Escape from an input mode with a pending request delivers the
/// absent answer exactly once: the first Escape makes one delivery and
/// leaves the request cleared in normal mode, from where any further
/// Escape delivers nothing.
pub proof fn lemma_escape_delivers_exactly_once(mode: Mode, pending: bool)
    requires
        pending,
        mode == Mode::Input || mode == Mode::BlockingInput,
    ensures
        escape_delivery_count(mode, pending) == 1,
        escape_delivery_count(Mode::Normal, false) == 0,
        escape_delivery_count(mode, pending) + escape_delivery_count(Mode::Normal, false) == 1,
{
}

} // verus!
