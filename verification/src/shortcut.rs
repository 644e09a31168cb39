//! The shortcut matcher.
//!
//! Pressed keys accumulate in the shortcut buffer and are resolved against
//! the active mode's mapping table with prefix semantics: an exact match
//! dispatches the bound action and clears the buffer, a strict prefix of
//! some binding keeps accumulating, and a dead end clears the buffer. The
//! input modes share the command mode's bindings. Escape never reaches the
//! matcher: it short-circuits and resets the shortcut state.
//!
//! The step functions in this module are the matcher's mathematical model;
//! [`Mg::handle_shortcut`] is proved to follow them, and the laws about
//! whole key sequences are proved over them.

use vstd::prelude::*;
use vstd::string::*;

use crate::commands::ShortcutCommand;
use crate::controller::{MessageColor, Mg};
use crate::effects::{
    count_deliveries, lemma_count_deliveries_append, lemma_count_deliveries_one, Effect,
};
use crate::interface::{CommandParser, Collaborators, SettingsCoercer, SpecialCommands};
use crate::keys::{is_prefix_of, BaseKey, Key};
use crate::modes::{spec_effective_mode, Mode};
use crate::text::has_match;
use crate::command::enter_marker;

verus! {

/// Whether the buffer has an exact binding in the mode's effective table.
pub open spec fn exact_binding(
    table: Map<(Mode, Seq<Key>), Seq<char>>,
    mode: Mode,
    buf: Seq<Key>,
) -> bool {
    table.contains_key((spec_effective_mode(mode), buf))
}

/// Whether some binding of the mode's effective table extends the buffer
/// (the buffer is a prefix of its key sequence, possibly the whole of it).
pub open spec fn extension_exists(
    table: Map<(Mode, Seq<Key>), Seq<char>>,
    mode: Mode,
    buf: Seq<Key>,
) -> bool {
    exists|k: (Mode, Seq<Key>)|
        #[trigger] table.contains_key(k) && k.0 == spec_effective_mode(mode) && is_prefix_of(
            buf,
            k.1,
        )
}

/// The shortcut buffer after one key: an exact match or a dead end clears
/// it, a strict prefix of some binding keeps accumulating.
pub open spec fn step_buffer(
    table: Map<(Mode, Seq<Key>), Seq<char>>,
    mode: Mode,
    buf: Seq<Key>,
    key: Key,
) -> Seq<Key> {
    let next = buf.push(key);
    if exact_binding(table, mode, next) {
        Seq::empty()
    } else if extension_exists(table, mode, next) {
        next
    } else {
        Seq::empty()
    }
}

/// Whether one key completes an exact match and dispatches its action.
pub open spec fn step_dispatches(
    table: Map<(Mode, Seq<Key>), Seq<char>>,
    mode: Mode,
    buf: Seq<Key>,
    key: Key,
) -> bool {
    exact_binding(table, mode, buf.push(key))
}

/// The shortcut buffer after pressing a whole key sequence.
pub open spec fn run_buffer(
    table: Map<(Mode, Seq<Key>), Seq<char>>,
    mode: Mode,
    buf: Seq<Key>,
    keys: Seq<Key>,
) -> Seq<Key>
    decreases keys.len(),
{
    if keys.len() == 0 {
        buf
    } else {
        run_buffer(
            table,
            mode,
            step_buffer(table, mode, buf, keys[0]),
            keys.subrange(1, keys.len() as int),
        )
    }
}

/// The actions dispatched while pressing a whole key sequence, in order.
pub open spec fn run_dispatched(
    table: Map<(Mode, Seq<Key>), Seq<char>>,
    mode: Mode,
    buf: Seq<Key>,
    keys: Seq<Key>,
) -> Seq<Seq<char>>
    decreases keys.len(),
{
    if keys.len() == 0 {
        Seq::empty()
    } else {
        (if step_dispatches(table, mode, buf, keys[0]) {
            seq![table[(spec_effective_mode(mode), buf.push(keys[0]))]]
        } else {
            Seq::<Seq<char>>::empty()
        }) + run_dispatched(
            table,
            mode,
            step_buffer(table, mode, buf, keys[0]),
            keys.subrange(1, keys.len() as int),
        )
    }
}

/// A prefix of a prefix is a prefix.
pub proof fn lemma_prefix_trans(a: Seq<Key>, b: Seq<Key>, c: Seq<Key>)
    requires
        is_prefix_of(a, b),
        is_prefix_of(b, c),
    ensures
        is_prefix_of(a, c),
{
    assert forall|i: int| 0 <= i < a.len() implies c.subrange(0, a.len() as int)[i] == a[i] by {
        assert(b.subrange(0, a.len() as int)[i] == a[i]);
        assert(c.subrange(0, b.len() as int)[i] == b[i]);
    }
    assert(c.subrange(0, a.len() as int) =~= a);
}

proof fn lemma_run_accumulates(
    table: Map<(Mode, Seq<Key>), Seq<char>>,
    mode: Mode,
    buf: Seq<Key>,
    rest: Seq<Key>,
    s: Seq<Key>,
)
    requires
        buf + rest == s,
        forall|t: Seq<Key>| #[trigger] is_prefix_of(t, s) ==> !exact_binding(table, mode, t),
        extension_exists(table, mode, s),
    ensures
        run_buffer(table, mode, buf, rest) == s,
        run_dispatched(table, mode, buf, rest) == Seq::<Seq<char>>::empty(),
    decreases rest.len(),
{
    if rest.len() == 0 {
        assert(buf + rest =~= buf);
    } else {
        let next = buf.push(rest[0]);
        assert(is_prefix_of(next, s)) by {
            assert(next.len() <= s.len());
            assert(s.subrange(0, next.len() as int) =~= next);
        }
        assert(!exact_binding(table, mode, next));
        assert(extension_exists(table, mode, next)) by {
            let k = choose|k: (Mode, Seq<Key>)|
                #[trigger] table.contains_key(k) && k.0 == spec_effective_mode(mode)
                    && is_prefix_of(s, k.1);
            lemma_prefix_trans(next, s, k.1);
            assert(table.contains_key(k) && k.0 == spec_effective_mode(mode) && is_prefix_of(
                next,
                k.1,
            ));
        }
        assert(step_buffer(table, mode, buf, rest[0]) == next);
        assert(next + rest.subrange(1, rest.len() as int) =~= s);
        lemma_run_accumulates(table, mode, next, rest.subrange(1, rest.len() as int), s);
    }
}

/// LAW: matching a key sequence that has no exact binding, and no bound
/// prefix, but which some binding extends, leaves the shortcut buffer
/// exactly equal to the sequence and dispatches no command.
pub proof fn lemma_prefix_accumulates(
    table: Map<(Mode, Seq<Key>), Seq<char>>,
    mode: Mode,
    s: Seq<Key>,
)
    requires
        forall|t: Seq<Key>| #[trigger] is_prefix_of(t, s) ==> !exact_binding(table, mode, t),
        extension_exists(table, mode, s),
    ensures
        run_buffer(table, mode, Seq::empty(), s) == s,
        run_dispatched(table, mode, Seq::empty(), s) == Seq::<Seq<char>>::empty(),
{
    assert(Seq::<Key>::empty() + s =~= s);
    lemma_run_accumulates(table, mode, Seq::empty(), s, s);
}

proof fn lemma_run_bound(
    table: Map<(Mode, Seq<Key>), Seq<char>>,
    mode: Mode,
    buf: Seq<Key>,
    rest: Seq<Key>,
    s: Seq<Key>,
)
    requires
        buf + rest == s,
        rest.len() > 0,
        exact_binding(table, mode, s),
        forall|t: Seq<Key>|
            #[trigger] is_prefix_of(t, s) && buf.len() < t.len() < s.len() ==> !exact_binding(
                table,
                mode,
                t,
            ),
    ensures
        run_buffer(table, mode, buf, rest) == Seq::<Key>::empty(),
        run_dispatched(table, mode, buf, rest) == seq![
            table[(spec_effective_mode(mode), s)],
        ],
    decreases rest.len(),
{
    let next = buf.push(rest[0]);
    assert(is_prefix_of(next, s)) by {
        assert(next.len() <= s.len());
        assert(s.subrange(0, next.len() as int) =~= next);
    }
    if rest.len() == 1 {
        assert(next =~= s);
        assert(step_dispatches(table, mode, buf, rest[0]));
        assert(step_buffer(table, mode, buf, rest[0]) == Seq::<Key>::empty());
        assert(rest.subrange(1, 1) =~= Seq::<Key>::empty());
        assert(run_buffer(table, mode, buf, rest) == run_buffer(
            table,
            mode,
            step_buffer(table, mode, buf, rest[0]),
            rest.subrange(1, 1),
        ));
        assert(run_buffer(table, mode, Seq::<Key>::empty(), rest.subrange(1, 1))
            == Seq::<Key>::empty());
        assert(run_dispatched(
            table,
            mode,
            step_buffer(table, mode, buf, rest[0]),
            rest.subrange(1, 1),
        ) == Seq::<Seq<char>>::empty());
        assert(run_dispatched(table, mode, buf, rest) =~= seq![
            table[(spec_effective_mode(mode), s)],
        ]);
    } else {
        assert(next.len() < s.len());
        assert(!exact_binding(table, mode, next));
        assert(extension_exists(table, mode, next)) by {
            let k = (spec_effective_mode(mode), s);
            assert(table.contains_key(k) && k.0 == spec_effective_mode(mode) && is_prefix_of(
                next,
                k.1,
            ));
        }
        assert(step_buffer(table, mode, buf, rest[0]) == next);
        assert(next + rest.subrange(1, rest.len() as int) =~= s);
        lemma_run_bound(table, mode, next, rest.subrange(1, rest.len() as int), s);
        assert(!step_dispatches(table, mode, buf, rest[0]));
        assert(run_dispatched(table, mode, buf, rest) == Seq::<Seq<char>>::empty()
            + run_dispatched(table, mode, next, rest.subrange(1, rest.len() as int)));
        assert(run_dispatched(table, mode, buf, rest) =~= seq![
            table[(spec_effective_mode(mode), s)],
        ]);
    }
}

/// LAW: pressing a bound key sequence verbatim, none of whose proper
/// prefixes is bound, dispatches its action exactly once and leaves the
/// shortcut buffer cleared afterwards.
pub proof fn lemma_bound_sequence_dispatches_once(
    table: Map<(Mode, Seq<Key>), Seq<char>>,
    mode: Mode,
    s: Seq<Key>,
)
    requires
        s.len() > 0,
        exact_binding(table, mode, s),
        forall|t: Seq<Key>|
            #[trigger] is_prefix_of(t, s) && 0 < t.len() < s.len() ==> !exact_binding(
                table,
                mode,
                t,
            ),
    ensures
        run_buffer(table, mode, Seq::empty(), s) == Seq::<Key>::empty(),
        run_dispatched(table, mode, Seq::empty(), s) == seq![
            table[(spec_effective_mode(mode), s)],
        ],
{
    assert(Seq::<Key>::empty() + s =~= s);
    lemma_run_bound(table, mode, Seq::empty(), s, s);
}

/// Whether a key event is swallowed by the surrounding window: keys in
/// normal mode, completion navigation in command mode.
pub open spec fn spec_should_inhibit(mode: Mode, key: Key) -> bool {
    mode == Mode::Normal || (mode == Mode::Command && (key.base is Tab || key.base is ShiftTab))
}

/// Whether a key feeds the shortcut buffer: it does unless a visible entry
/// owns plain character input, while control-modified keys and the
/// completion-navigation keys are reserved even then.
pub open spec fn spec_accumulates(entry_shown: bool, key: Key) -> bool {
    !entry_shown || key.control || key.base is Tab || key.base is ShiftTab
}

/// Whether a bound action pre-fills the entry instead of running at once:
/// it starts with the colon identifier and carries no enter marker.
pub open spec fn incomplete_action(a: Seq<char>) -> bool {
    a.len() > 0 && a[0] == ':' && !has_match(a, enter_marker())
}

/// Everything the matcher promises for one key, relating the state before
/// the key to the state after it: the shortcut buffer follows the step
/// function; a key that dispatches nothing changes nothing else, except
/// that a dead end with the entry hidden performs a full reset; and a
/// dispatched pre-fill action enters command mode with the entry
/// prepared. The key handlers forward this for every key they hand to the
/// matcher.
pub open spec fn matcher_step_post(
    pre: Mg,
    post: Mg,
    key: Key,
    effects: Seq<Effect>,
    inhibit: bool,
) -> bool {
    &&& !spec_accumulates(pre.entry_shown, key) ==> post == pre && effects.len() == 0 && inhibit
        == spec_should_inhibit(pre.current_mode, key)
    &&& spec_accumulates(pre.entry_shown, key) ==> {
        let table = pre.mappings.as_map();
        let mode = pre.current_mode;
        let next = pre.current_shortcut@.push(key);
        &&& post.current_shortcut@ == step_buffer(table, mode, pre.current_shortcut@, key)
        &&& !step_dispatches(table, mode, pre.current_shortcut@, key) ==> {
            &&& post.same_mappings(pre)
            &&& post.same_settings(pre)
            &&& post.same_mode(pre)
            &&& inhibit == spec_should_inhibit(mode, key)
            &&& effects.len() == 0
            &&& extension_exists(table, mode, next) ==> post.same_surface(pre)
            &&& !extension_exists(table, mode, next) ==> {
                &&& pre.entry_shown ==> post.same_surface(pre)
                &&& !pre.entry_shown ==> {
                    &&& post.message@.len() == 0
                    &&& !post.entry_shown
                    &&& !post.completion_shown
                    &&& post.color == MessageColor::Neutral
                    &&& post.entry_text == pre.entry_text
                }
            }
        }
        &&& step_dispatches(table, mode, pre.current_shortcut@, key) ==> {
            let action = table[(spec_effective_mode(mode), next)];
            &&& incomplete_action(action) ==> {
                &&& post.current_mode == Mode::Command
                &&& post.entry_shown
                &&& post.completion_shown
                &&& post.entry_text@ == Mg::pad_command(
                    Mg::subst_vars(action.subrange(1, action.len() as int), pre.variables@),
                )
                &&& post.same_mappings(pre)
                &&& post.same_settings(pre)
                &&& inhibit == true
            }
            &&& !incomplete_action(action) ==> inhibit == spec_should_inhibit(mode, key)
        }
    }
}

impl Mg {
    /// Whether no binding of the active mode extends the current shortcut
    /// buffer: the buffer is a dead end.
    pub fn no_possible_shortcut(&self) -> (r: bool)
        requires
            self.wf(),
        ensures
            r == !extension_exists(
                self.mappings.as_map(),
                self.current_mode,
                self.current_shortcut@,
            ),
    {
        !self.mappings.any_prefixed(
            self.current_mode.effective(),
            self.current_shortcut.as_slice(),
        )
    }

    /// Handle a possible input of a shortcut: append the key to the
    /// buffer (when the entry does not own it), resolve the buffer
    /// against the active mode's bindings, and dispatch, keep
    /// accumulating, or clear on a dead end.
    pub fn handle_shortcut<P: CommandParser, C: SpecialCommands, S: SettingsCoercer>(
        &mut self,
        key: Key,
        hooks: &mut Collaborators<P, C, S>,
    ) -> (r: (Vec<Effect>, bool))
        requires
            old(self).wf(),
            !(key.base is Escape),
        ensures
            final(self).wf(),
            final(self).same_config(*old(self)),
            final(self).same_input(*old(self)),
            count_deliveries(r.0@) == 0,
            matcher_step_post(*old(self), *final(self), key, r.0@, r.1),
    {
        let should_inhibit = matches!(self.current_mode, Mode::Normal) || (matches!(
            self.current_mode,
            Mode::Command,
        ) && matches!(key.base, BaseKey::Tab | BaseKey::ShiftTab));
        let accumulates = !self.entry_shown || key.control || matches!(
            key.base,
            BaseKey::Tab | BaseKey::ShiftTab,
        );
        let mut effects: Vec<Effect> = Vec::new();
        if accumulates {
            self.add_to_shortcut(key);
            let effective = self.current_mode.effective();
            let action: Option<String> = match self.mappings.lookup(
                effective,
                self.current_shortcut.as_slice(),
            ) {
                Some(action) => Some(action.clone()),
                None => None,
            };
            match action {
                Some(action) => {
                    if !self.entry_shown {
                        self.reset();
                    }
                    self.clear_shortcut();
                    match self.action_to_command(action.as_str()) {
                        ShortcutCommand::Complete(command) => {
                            proof {
                                assert(count_deliveries(effects@) == 0);
                            }
                            let mut dispatched = self.handle_command(Some(command), false, hooks);
                            proof {
                                lemma_count_deliveries_append(effects@, dispatched@);
                            }
                            effects.append(&mut dispatched);
                        },
                        ShortcutCommand::Incomplete(command) => {
                            let mut entered = self.input_command(command.as_str());
                            proof {
                                lemma_count_deliveries_append(effects@, entered@);
                            }
                            effects.append(&mut entered);
                            self.completion_shown = true;
                            let mut completions = self.update_completions();
                            proof {
                                lemma_count_deliveries_append(effects@, completions@);
                            }
                            effects.append(&mut completions);
                            return (effects, true);
                        },
                    }
                },
                None => {
                    if self.no_possible_shortcut() {
                        if !self.entry_shown {
                            self.reset();
                        }
                        self.clear_shortcut();
                    }
                },
            }
        }
        (effects, should_inhibit)
    }
}

} // verus!
