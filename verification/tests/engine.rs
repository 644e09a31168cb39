//! Engine tests with stub collaborators: mode transitions, shortcut
//! matching, the input-request protocol, messages and the error reporter.

use mg::commands::{app_action_of_name, AppAction, Command, ParseError, ParseResult, SettingValue, SettingVariant, ShortcutCommand};
use mg::controller::{InputRequestError, MessageColor, Mg};
use mg::effects::{CompleterChoice, Effect, Msg};
use mg::interface::{Collaborators, CommandParser, SettingsCoercer, SpecialCommands};
use mg::keys::{shortcut_to_string, BaseKey, Key};
use mg::modes::{Mode, ModeEntry, StartupError};

/// A parser that treats every nonempty line as one custom command and a
/// blank line as the suppressed no-command error.
struct StubParser;

impl CommandParser for StubParser {
    fn parse_line(&mut self, line: &str) -> ParseResult {
        let mut result = ParseResult::new();
        if line.trim().is_empty() {
            result.errors.push(ParseError::NoCommand);
        } else {
            result.commands.push(Command::Custom(line.to_string()));
        }
        result
    }
}

struct StubSpecial;

impl SpecialCommands for StubSpecial {
    fn is_identifier(&self, c: char) -> bool {
        c == '/'
    }

    fn is_incremental(&self, c: char) -> bool {
        c == '/'
    }

    fn identifier_to_command(&self, identifier: char, text: &str) -> Result<String, String> {
        if identifier == '/' {
            Ok(format!("search {}", text))
        } else {
            Err(format!("not a special command identifier: {}", identifier))
        }
    }
}

struct StubCoercer;

impl SettingsCoercer for StubCoercer {
    fn to_variant(&self, name: &str, value: &str) -> Result<SettingVariant, String> {
        if value == "???" {
            Err(format!("cannot coerce value for {}", name))
        } else {
            Ok(SettingVariant { name: name.to_string(), value: SettingValue::Str(value.to_string()) })
        }
    }
}

fn hooks() -> Collaborators<StubParser, StubSpecial, StubCoercer> {
    Collaborators { parser: StubParser, special: StubSpecial, settings: StubCoercer }
}

fn engine() -> Mg {
    Mg::new(Vec::new()).unwrap()
}

fn key(c: char) -> Key {
    Key { base: BaseKey::Char(c), control: false }
}

fn count_errors(effects: &[Effect]) -> usize {
    effects.iter().filter(|e| matches!(e, Effect::Error(_))).count()
}

fn count_deliver(effects: &[Effect]) -> usize {
    effects
        .iter()
        .filter(|e| matches!(e, Effect::DeliverAnswer(_) | Effect::ReleaseBlockingWait))
        .count()
}

#[test]
fn starts_in_normal_mode() {
    let mg = engine();
    assert_eq!(mg.get_mode(), "normal");
    assert_eq!(mg.get_command(), Some(String::new()));
}

#[test]
fn duplicate_mode_prefix_is_fatal() {
    let modes = vec![
        ModeEntry { prefix: "i".to_string(), name: "insert".to_string() },
        ModeEntry { prefix: "i".to_string(), name: "italic".to_string() },
    ];
    match Mg::new(modes) {
        Err(StartupError::DuplicateModePrefix(p)) => assert_eq!(p, "i"),
        _ => panic!("a duplicate prefix must be rejected"),
    }
    match Mg::new(vec![ModeEntry { prefix: "n".to_string(), name: "nav".to_string() }]) {
        Err(StartupError::DuplicateModePrefix(p)) => assert_eq!(p, "n"),
        _ => panic!("a reserved prefix must be rejected"),
    }
}

#[test]
fn custom_mode_label() {
    let modes = vec![ModeEntry { prefix: "i".to_string(), name: "insert".to_string() }];
    let mut mg = Mg::new(modes).unwrap();
    let effects = mg.update(Msg::SetMode(Mode::Custom(0)));
    assert_eq!(effects.len(), 1);
    match &effects[0] {
        Effect::ModeChanged(name) => assert_eq!(name, "insert"),
        _ => panic!("expected a mode-changed effect"),
    }
    assert_eq!(mg.get_mode(), "insert");
    assert_eq!(mg.mode_label, "insert");
    mg.update(Msg::EnterNormalMode);
    assert_eq!(mg.mode_label, "");
}

#[test]
fn shortcut_display() {
    let keys = [
        key('g'),
        Key { base: BaseKey::Enter, control: false },
        Key { base: BaseKey::Char('a'), control: true },
        Key { base: BaseKey::ShiftTab, control: false },
    ];
    assert_eq!(shortcut_to_string(&keys), "g<Enter><C-a><S-Tab>");
    assert_eq!(shortcut_to_string(&[]), "");
}

#[test]
fn action_round_trip() {
    let mg = engine();
    match mg.action_to_command(":quit<Enter>") {
        ShortcutCommand::Complete(c) => assert_eq!(c, "quit"),
        _ => panic!("an action with the enter marker is complete"),
    }
    match mg.action_to_command(":e ") {
        ShortcutCommand::Incomplete(c) => assert_eq!(c, "e "),
        _ => panic!("an action without the enter marker is incomplete"),
    }
    match mg.action_to_command("go-top") {
        ShortcutCommand::Complete(c) => assert_eq!(c, "go-top"),
        _ => panic!("an action without the identifier is complete as it stands"),
    }
}

#[test]
fn prefix_keeps_accumulating() {
    let mut mg = engine();
    let mut h = hooks();
    mg.mappings.insert(Mode::Normal, vec![key('g'), key('g')], "go-top".to_string());
    let (effects, inhibit) = mg.handle_shortcut(key('g'), &mut h);
    assert!(inhibit);
    assert!(effects.is_empty());
    assert_eq!(mg.current_shortcut, vec![key('g')]);
    assert_eq!(mg.shortcut_label, "g");
}

#[test]
fn bound_sequence_dispatches_once_and_clears() {
    let mut mg = engine();
    let mut h = hooks();
    mg.mappings.insert(Mode::Normal, vec![key('g'), key('g')], "go-top".to_string());
    let (first, _) = mg.handle_shortcut(key('g'), &mut h);
    let (second, _) = mg.handle_shortcut(key('g'), &mut h);
    assert!(first.is_empty());
    let customs: Vec<&Effect> = second
        .iter()
        .filter(|e| matches!(e, Effect::CustomCommand(_)))
        .collect();
    assert_eq!(customs.len(), 1);
    match customs[0] {
        Effect::CustomCommand(c) => assert_eq!(c, "go-top"),
        _ => unreachable!(),
    }
    assert!(mg.current_shortcut.is_empty());
    assert_eq!(mg.shortcut_label, "");
}

#[test]
fn dead_end_clears_buffer() {
    let mut mg = engine();
    let mut h = hooks();
    mg.mappings.insert(Mode::Normal, vec![key('g'), key('g')], "go-top".to_string());
    mg.handle_shortcut(key('g'), &mut h);
    let (effects, _) = mg.handle_shortcut(key('x'), &mut h);
    assert!(effects.is_empty());
    assert!(mg.current_shortcut.is_empty());
}

#[test]
fn incomplete_action_prefills_entry() {
    let mut mg = engine();
    let mut h = hooks();
    mg.mappings.insert(Mode::Normal, vec![key('o')], ":open ".to_string());
    let (effects, inhibit) = mg.handle_shortcut(key('o'), &mut h);
    assert!(inhibit);
    assert_eq!(mg.get_mode(), "command");
    assert!(mg.entry_shown);
    assert_eq!(mg.entry_text, "open ");
    assert!(effects.iter().any(|e| matches!(e, Effect::ModeChanged(n) if n == "command")));
    assert!(effects.iter().any(|e| matches!(e, Effect::UpdateCompletions { .. })));
}

#[test]
fn unmap_of_unbound_sequence_is_noop() {
    let mut mg = engine();
    let mut h = hooks();
    mg.mappings.insert(Mode::Normal, vec![key('g')], "go-top".to_string());
    let effects = mg.call_command(
        Command::UnmapKeys { keys: vec![key('z')], mode: "n".to_string() },
        &h.settings,
    );
    assert!(effects.is_empty());
    assert_eq!(count_errors(&effects), 0);
    assert_eq!(mg.mappings.entries.len(), 1);
    assert_eq!(
        mg.mappings.lookup(Mode::Normal, &[key('g')]).map(|a| a.clone()),
        Some("go-top".to_string())
    );
}

#[test]
fn map_then_resolve_round_trip() {
    let mut mg = engine();
    let h = hooks();
    let effects = mg.call_command(
        Command::MapKeys {
            action: ":quit<Enter>".to_string(),
            keys: vec![key('q')],
            mode: "n".to_string(),
        },
        &h.settings,
    );
    assert!(effects.is_empty());
    let action = mg.mappings.lookup(Mode::Normal, &[key('q')]).unwrap().clone();
    match mg.action_to_command(&action) {
        ShortcutCommand::Complete(c) => assert_eq!(c, "quit"),
        _ => panic!("the mapped action must resolve to a complete command"),
    }
}

#[test]
fn unknown_mode_prefix_is_reported() {
    let mut mg = engine();
    let h = hooks();
    let effects = mg.call_command(
        Command::MapKeys { action: "x".to_string(), keys: vec![key('a')], mode: "z".to_string() },
        &h.settings,
    );
    assert_eq!(count_errors(&effects), 1);
    assert_eq!(mg.message, "No such mode: z");
}

#[test]
fn escape_cancels_pending_input_once() {
    let mut mg = engine();
    let mut h = hooks();
    mg.request_input(vec!['y', 'n'], false).unwrap();
    assert_eq!(mg.get_mode(), "input");
    let esc = Key { base: BaseKey::Escape, control: false };
    let (first, _) = mg.key_press(esc, &mut h);
    assert_eq!(count_deliver(&first), 1);
    assert!(first
        .iter()
        .any(|e| matches!(e, Effect::DeliverAnswer(None))));
    assert_eq!(mg.get_mode(), "normal");
    let (second, _) = mg.key_press(esc, &mut h);
    assert_eq!(count_deliver(&second), 0);
}

#[test]
fn choice_key_delivers_answer() {
    let mut mg = engine();
    let mut h = hooks();
    mg.request_input(vec!['y', 'n'], false).unwrap();
    let (effects, inhibit) = mg.key_press(key('y'), &mut h);
    assert!(inhibit);
    assert_eq!(count_deliver(&effects), 1);
    match &effects[0] {
        Effect::DeliverAnswer(Some(answer)) => assert_eq!(answer, "y"),
        _ => panic!("the choice key must deliver its one-character answer"),
    }
    assert_eq!(mg.get_mode(), "normal");
    assert!(mg.choices.is_empty());
}

#[test]
fn non_choice_key_keeps_request() {
    let mut mg = engine();
    let mut h = hooks();
    mg.request_input(vec!['y', 'n'], false).unwrap();
    let (effects, _) = mg.key_press(key('x'), &mut h);
    assert_eq!(count_deliver(&effects), 0);
    assert!(mg.input_pending);
    assert_eq!(mg.choices, vec!['y', 'n']);
    assert_eq!(mg.get_mode(), "input");
}

#[test]
fn blocking_request_records_answer() {
    let mut mg = engine();
    mg.request_input(Vec::new(), true).unwrap();
    assert_eq!(mg.get_mode(), "blocking-input");
    let effects = mg.set_dialog_answer("yes");
    assert_eq!(effects.len(), 1);
    assert!(matches!(effects[0], Effect::ReleaseBlockingWait));
    assert_eq!(mg.take_answer(), Some("yes".to_string()));
    assert_eq!(mg.take_answer(), None);
}

#[test]
fn second_request_is_rejected() {
    let mut mg = engine();
    mg.request_input(Vec::new(), false).unwrap();
    assert!(matches!(
        mg.request_input(Vec::new(), true),
        Err(InputRequestError::AlreadyPending)
    ));
}

#[test]
fn answer_shortcut_delivers() {
    let mut mg = engine();
    let mut h = hooks();
    mg.set_input_shortcuts(vec![(key('o'), "yes".to_string())]);
    mg.request_input(Vec::new(), false).unwrap();
    let (effects, inhibit) = mg.key_press(key('o'), &mut h);
    assert!(inhibit);
    assert!(effects
        .iter()
        .any(|e| matches!(e, Effect::DeliverAnswer(Some(a)) if a == "yes")));
    assert!(mg.shortcut_pressed);
}

#[test]
fn entry_activation_answers_input() {
    let mut mg = engine();
    let mut h = hooks();
    mg.request_input(Vec::new(), false).unwrap();
    let effects = mg.command_activate(Some("an answer".to_string()), &mut h);
    assert_eq!(count_deliver(&effects), 1);
    assert!(effects
        .iter()
        .any(|e| matches!(e, Effect::DeliverAnswer(Some(a)) if a == "an answer")));
    assert_eq!(mg.get_mode(), "normal");
    assert!(!mg.input_pending);
}

#[test]
fn stale_hide_timer_keeps_newer_message() {
    let mut mg = engine();
    let effects = mg.info("saved");
    assert!(matches!(&effects[0], Effect::ScheduleHideInfo(m) if m == "saved"));
    mg.message("loading");
    mg.update(Msg::HideInfo("saved".to_string()));
    assert_eq!(mg.message, "loading");
    mg.update(Msg::HideInfo("loading".to_string()));
    assert_eq!(mg.message, "");
}

#[test]
fn warning_colors_and_hides() {
    let mut mg = engine();
    let effects = mg.warning("careful");
    assert!(matches!(&effects[0], Effect::ScheduleHideColoredMessage(m) if m == "careful"));
    assert_eq!(mg.color, MessageColor::Orange);
    mg.update(Msg::HideColoredMessage("careful".to_string()));
    assert_eq!(mg.message, "");
    assert_eq!(mg.color, MessageColor::Neutral);
    mg.alert("look");
    assert_eq!(mg.color, MessageColor::Blue);
}

#[test]
fn variables_are_substituted() {
    let mut mg = engine();
    mg.set_variables(vec![("url".to_string(), "example.com".to_string())]);
    mg.input_command("open <url>");
    assert_eq!(mg.entry_text, "open example.com");
    assert_eq!(mg.get_mode(), "command");
    assert!(mg.entry_shown);
}

#[test]
fn command_without_argument_is_padded() {
    let mut mg = engine();
    mg.input_command("quit");
    assert_eq!(mg.entry_text, "quit ");
}

#[test]
fn parse_error_messages() {
    let mut mg = engine();
    let effects = mg.show_parse_error(&ParseError::MissingArgument);
    assert!(matches!(&effects[0], Effect::Error(e) if e.message == "Argument required"));
    let effects = mg.show_parse_error(&ParseError::Parse {
        unexpected: "!".to_string(),
        expected: "=".to_string(),
    });
    assert!(
        matches!(&effects[0], Effect::Error(e) if e.message == "Parse error: unexpected !, expecting: =")
    );
    let effects = mg.show_parse_error(&ParseError::UnknownCommand { unexpected: "qq".to_string() });
    assert!(matches!(&effects[0], Effect::Error(e) if e.message == "Not a command: qq"));
    assert_eq!(mg.color, MessageColor::Red);
}

#[test]
fn no_command_error_is_suppressed() {
    let mut mg = engine();
    let effects = mg.show_parse_error(&ParseError::NoCommand);
    assert!(effects.is_empty());
    assert_eq!(mg.message, "");
}

#[test]
fn blank_line_produces_nothing() {
    let mut mg = engine();
    let mut h = hooks();
    let parse_result = h.parser.parse_line("   ");
    assert!(parse_result.commands.is_empty());
    let effects = mg.execute_commands(parse_result, false, &h.settings);
    assert_eq!(count_errors(&effects), 0);
    assert!(effects.is_empty());
}

#[test]
fn app_action_names() {
    assert_eq!(app_action_of_name("complete-next"), Some(AppAction::CompleteNext));
    assert_eq!(app_action_of_name("complete-previous"), Some(AppAction::CompletePrevious));
    assert_eq!(app_action_of_name("entry-delete-next-char"), Some(AppAction::EntryDeleteNextChar));
    assert_eq!(app_action_of_name("entry-delete-next-word"), Some(AppAction::EntryDeleteNextWord));
    assert_eq!(
        app_action_of_name("entry-delete-previous-word"),
        Some(AppAction::EntryDeletePreviousWord)
    );
    assert_eq!(app_action_of_name("entry-end"), Some(AppAction::EntryEnd));
    assert_eq!(app_action_of_name("entry-next-char"), Some(AppAction::EntryNextChar));
    assert_eq!(app_action_of_name("entry-next-word"), Some(AppAction::EntryNextWord));
    assert_eq!(app_action_of_name("entry-previous-char"), Some(AppAction::EntryPreviousChar));
    assert_eq!(app_action_of_name("entry-previous-word"), Some(AppAction::EntryPreviousWord));
    assert_eq!(app_action_of_name("entry-smart-home"), Some(AppAction::EntrySmartHome));
    assert_eq!(app_action_of_name("go-top"), None);
}

#[test]
fn entry_edits_refresh_completions() {
    let mg = engine();
    let effects = mg.app_command(AppAction::EntryDeleteNextChar);
    assert_eq!(effects.len(), 2);
    assert!(matches!(effects[0], Effect::App(AppAction::EntryDeleteNextChar)));
    assert!(matches!(&effects[1], Effect::UpdateCompletions { .. }));
    let effects = mg.app_command(AppAction::CompleteNext);
    assert_eq!(effects.len(), 1);
}

#[test]
fn settings_are_upserted() {
    let mut mg = engine();
    let effects = mg.set_setting(SettingVariant {
        name: "foo".to_string(),
        value: SettingValue::Int(1),
    });
    assert!(matches!(&effects[0], Effect::SettingChanged(v) if v.name == "foo"));
    mg.set_setting(SettingVariant { name: "foo".to_string(), value: SettingValue::Bool(true) });
    assert_eq!(mg.settings().len(), 2);
}

#[test]
fn colon_enters_command_mode() {
    let mut mg = engine();
    let mut h = hooks();
    let (effects, inhibit) = mg.key_press(key(':'), &mut h);
    assert!(inhibit);
    assert_eq!(mg.get_mode(), "command");
    assert!(mg.entry_shown);
    assert!(mg.completion_shown);
    assert!(matches!(
        &effects[0],
        Effect::SetCompleter { choice: CompleterChoice::DefaultCompleter, .. }
    ));
    assert!(matches!(&effects[1], Effect::ModeChanged(n) if n == "command"));
}

#[test]
fn special_identifier_enters_its_command_mode() {
    let mut mg = engine();
    let mut h = hooks();
    let (effects, inhibit) = mg.key_press(key('/'), &mut h);
    assert!(inhibit);
    assert_eq!(mg.get_mode(), "command");
    assert_eq!(mg.current_command_mode, '/');
    assert!(mg.entry_shown);
    assert!(matches!(
        &effects[0],
        Effect::SetCompleter { choice: CompleterChoice::NoCompleter, .. }
    ));
}

#[test]
fn incremental_special_command_fires_on_release() {
    let mut mg = engine();
    let mut h = hooks();
    mg.key_press(key('/'), &mut h);
    mg.set_input("vim");
    let (effects, _) = mg.key_release(key('m'), &h.special);
    assert_eq!(effects.len(), 1);
    assert!(matches!(&effects[0], Effect::CustomCommand(c) if c == "search vim"));
    assert_eq!(mg.get_mode(), "command");
}

#[test]
fn activation_dispatches_special_command() {
    let mut mg = engine();
    let mut h = hooks();
    mg.key_press(key('/'), &mut h);
    let effects = mg.command_activate(Some("vim".to_string()), &mut h);
    assert!(effects
        .iter()
        .any(|e| matches!(e, Effect::CustomCommand(c) if c == "search vim")));
    assert_eq!(mg.get_mode(), "normal");
    assert_eq!(mg.current_command_mode, ':');
}

#[test]
fn escape_in_command_mode_returns_to_normal() {
    let mut mg = engine();
    let mut h = hooks();
    mg.key_press(key(':'), &mut h);
    let esc = Key { base: BaseKey::Escape, control: false };
    let (effects, inhibit) = mg.key_press(esc, &mut h);
    assert!(!inhibit);
    assert_eq!(mg.get_mode(), "normal");
    assert!(!mg.entry_shown);
    assert!(matches!(&effects[0], Effect::ModeChanged(n) if n == "normal"));
}

#[test]
fn coercion_failure_reports_one_error() {
    let mut mg = engine();
    let h = hooks();
    let effects = mg.call_command(
        Command::SetSetting { name: "foo".to_string(), value: "???".to_string() },
        &h.settings,
    );
    assert_eq!(count_errors(&effects), 1);
    assert_eq!(mg.message, "Error setting value");
    assert!(mg.settings().is_empty());
    assert_eq!(mg.get_mode(), "normal");
}

#[test]
fn unselect_restores_original_input() {
    let mut mg = engine();
    mg.set_input("partial");
    mg.selection_changed(&Some("partially-completed".to_string()));
    assert_eq!(mg.entry_text, "partially-completed");
    mg.handle_unselect("partial");
    assert_eq!(mg.entry_text, "partial");
    let effects = mg.delete_current_completion_item();
    assert!(matches!(effects[0], Effect::DeleteCurrentCompletionItem));
}

#[test]
fn custom_mode_has_its_own_bindings() {
    let modes = vec![ModeEntry { prefix: "i".to_string(), name: "insert".to_string() }];
    let mut mg = Mg::new(modes).unwrap();
    let mut h = hooks();
    mg.call_command(
        Command::MapKeys { action: "leave".to_string(), keys: vec![key('j')], mode: "i".to_string() },
        &h.settings,
    );
    mg.update(Msg::SetMode(Mode::Custom(0)));
    let (effects, inhibit) = mg.key_press(key('j'), &mut h);
    assert!(!inhibit);
    assert!(effects
        .iter()
        .any(|e| matches!(e, Effect::CustomCommand(c) if c == "leave")));
    let esc = Key { base: BaseKey::Escape, control: false };
    let (effects, inhibit) = mg.key_press(esc, &mut h);
    assert!(inhibit);
    assert!(matches!(&effects[0], Effect::ModeChanged(n) if n == "normal"));
    assert_eq!(mg.get_mode(), "normal");
    assert!(mg.current_shortcut.is_empty());
}

#[test]
fn dead_end_with_hidden_entry_resets() {
    let mut mg = engine();
    let mut h = hooks();
    mg.mappings.insert(Mode::Normal, vec![key('g'), key('g')], "go-top".to_string());
    mg.message("note");
    mg.handle_shortcut(key('g'), &mut h);
    let (effects, _) = mg.handle_shortcut(key('x'), &mut h);
    assert!(effects.is_empty());
    assert!(mg.current_shortcut.is_empty());
    assert_eq!(mg.message, "");
    assert_eq!(mg.color, MessageColor::Neutral);
    assert!(!mg.entry_shown);
    assert!(!mg.completion_shown);
}

#[test]
fn shortcut_buffer_and_label_track_keys() {
    let mut mg = engine();
    mg.add_to_shortcut(key('a'));
    mg.add_to_shortcut(key('b'));
    assert_eq!(mg.shortcut_label, "ab");
    assert!(mg.no_possible_shortcut());
    mg.mappings.insert(Mode::Normal, vec![key('a'), key('b'), key('c')], "x".to_string());
    assert!(!mg.no_possible_shortcut());
    mg.clear_shortcut();
    assert!(mg.current_shortcut.is_empty());
    assert_eq!(mg.shortcut_label, "");
    mg.update_shortcut_label();
    assert_eq!(mg.shortcut_label, "");
}

#[test]
fn set_title_is_kept() {
    let mut mg = engine();
    mg.set_title("mg app");
    assert_eq!(mg.title, "mg app");
}
