//! Effects and messages: the engine's explicit outputs and inputs.
//!
//! Instead of storing callbacks, every handler returns the list of
//! [`Effect`] values the host must perform, in order: event emissions,
//! widget operations, timer requests, and the one-shot delivery of a
//! pending input answer. The host feeds events back in as [`Msg`] values
//! or through the dedicated handler methods.

use vstd::prelude::*;

use crate::commands::{AppAction, SettingVariant};
use crate::modes::Mode;

verus! {

/// Which completer the completion view should use.
#[derive(Clone, Copy, Debug, PartialEq, Eq, Structural)]
pub enum CompleterChoice {
    /// The default command completer.
    DefaultCompleter,
    /// No completion at all.
    NoCompleter,
}

/// A classified, user-facing error, handed to the host's error sink.
#[derive(Clone, Debug)]
pub struct ErrorInfo {
    /// The user-visible message.
    pub message: String,
    /// The underlying causes, outermost first.
    pub causes: Vec<String>,
}

/// One operation the host must perform after a handler returns.
#[derive(Debug)]
pub enum Effect {
    /// The current mode changed; the payload is the mode name.
    ModeChanged(String),
    /// A custom command is forwarded verbatim to the host.
    CustomCommand(String),
    /// A setting was applied.
    SettingChanged(SettingVariant),
    /// Invoke the pending input callback, exactly once, with this answer.
    DeliverAnswer(Option<String>),
    /// Release the nested event-loop pump of a blocking input request; the
    /// recorded answer is read afterwards.
    ReleaseBlockingWait,
    /// Perform a built-in application action on the entry or completion
    /// surface.
    App(AppAction),
    /// Refresh the completion list for this mode and entry text.
    UpdateCompletions {
        /// The name of the mode the completions are for.
        mode: String,
        /// The current entry text.
        input: String,
    },
    /// Select which completer the completion view uses.
    SetCompleter {
        choice: CompleterChoice,
        /// The current entry text.
        input: String,
    },
    /// Start a single-shot timer that hides this plain info message if it
    /// is still the one displayed when the timer fires.
    ScheduleHideInfo(String),
    /// Start a single-shot timer that hides this colored message if it is
    /// still the one displayed when the timer fires.
    ScheduleHideColoredMessage(String),
    /// Delete the currently selected completion entry.
    DeleteCurrentCompletionItem,
    /// Hand a classified, recoverable error to the host's error sink.
    Error(ErrorInfo),
}

/// How many of these effects deliver an input answer: a callback
/// invocation or the release of a blocking wait.
pub open spec fn count_deliveries(s: Seq<Effect>) -> nat
    decreases s.len(),
{
    if s.len() == 0 {
        0
    } else {
        (if s[0] is DeliverAnswer || s[0] is ReleaseBlockingWait {
            1nat
        } else {
            0nat
        }) + count_deliveries(s.subrange(1, s.len() as int))
    }
}

/// How many answers processing Escape delivers from a given state: one
/// when a request is pending in an input mode, none otherwise.
pub open spec fn escape_delivery_count(mode: Mode, pending: bool) -> nat {
    if pending && (mode is Input || mode is BlockingInput) {
        1nat
    } else {
        0nat
    }
}

pub proof fn lemma_count_deliveries_one(s: Seq<Effect>)
    requires
        s.len() == 1,
    ensures
        count_deliveries(s) == (if s[0] is DeliverAnswer || s[0] is ReleaseBlockingWait {
            1nat
        } else {
            0nat
        }),
{
    assert(s.subrange(1, 1) =~= Seq::<Effect>::empty());
    assert(count_deliveries(Seq::<Effect>::empty()) == 0);
}

pub proof fn lemma_count_deliveries_two(s: Seq<Effect>)
    requires
        s.len() == 2,
    ensures
        count_deliveries(s) == (if s[0] is DeliverAnswer || s[0] is ReleaseBlockingWait {
            1nat
        } else {
            0nat
        }) + (if s[1] is DeliverAnswer || s[1] is ReleaseBlockingWait {
            1nat
        } else {
            0nat
        }),
{
    assert(s.subrange(1, 2)[0] == s[1]);
    assert(s.subrange(1, 2).len() == 1);
    lemma_count_deliveries_one(s.subrange(1, 2));
}

pub proof fn lemma_count_deliveries_append(a: Seq<Effect>, b: Seq<Effect>)
    ensures
        count_deliveries(a + b) == count_deliveries(a) + count_deliveries(b),
    decreases a.len(),
{
    if a.len() == 0 {
        assert(a + b =~= b);
    } else {
        assert((a + b)[0] == a[0]);
        assert((a + b).subrange(1, (a + b).len() as int) =~= a.subrange(1, a.len() as int) + b);
        lemma_count_deliveries_append(a.subrange(1, a.len() as int), b);
    }
}

/// An event delivered to the engine through [`crate::controller::Mg::update`].
#[derive(Debug)]
pub enum Msg {
    /// The host window is closing; observed by the host, a no-op here.
    AppClose,
    /// A custom command was dispatched; observed by the host, a no-op here.
    CustomCommand(String),
    /// Enter command mode, as the colon key does.
    EnterCommandMode,
    /// Return to normal mode.
    EnterNormalMode,
    /// Return to normal mode and reset the transient surfaces.
    EnterNormalModeAndReset,
    /// A hide timer for this colored message fired.
    HideColoredMessage(String),
    /// A hide timer for this plain info message fired.
    HideInfo(String),
    /// The mode changed; observed by the host, a no-op here.
    ModeChanged(String),
    /// Switch to this mode.
    SetMode(Mode),
    /// A setting was applied; observed by the host, a no-op here.
    SettingChanged(SettingVariant),
}

} // verus!
