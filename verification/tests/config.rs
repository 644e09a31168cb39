//! Integration tests driving the verified engine with the real
//! `mg-settings` config parser behind the parser-collaborator interface.

use mg::commands::{app_action_of_name, Command, ParseError, ParseResult, SettingValue, SettingVariant, ShortcutCommand};
use mg::controller::Mg;
use mg::effects::Effect;
use mg::interface::{Collaborators, CommandParser, SettingsCoercer, SpecialCommands};
use mg::keys::{BaseKey, Key};
use mg::modes::Mode;

use mg_settings::errors::ErrorType;
use mg_settings::key::Key as ConfigKey;
use mg_settings::{Config, EnumFromStr, Parser, Value};

/// The host's custom commands for these tests.
#[derive(Clone, Debug, PartialEq)]
enum TestComm {
    GoTop,
    Open(String),
    Quit,
}

impl TestComm {
    fn payload(&self) -> String {
        match self {
            TestComm::GoTop => "go-top".to_string(),
            TestComm::Open(arg) => format!("open {}", arg),
            TestComm::Quit => "quit".to_string(),
        }
    }
}

impl EnumFromStr for TestComm {
    fn create(variant: &str, argument: &str, _prefix: Option<u32>) -> Result<TestComm, String> {
        match variant {
            "go-top" => Ok(TestComm::GoTop),
            "open" => Ok(TestComm::Open(argument.to_string())),
            "quit" => Ok(TestComm::Quit),
            _ => Err(format!("unknown command {}", variant)),
        }
    }

    fn has_argument(variant: &str) -> Result<bool, String> {
        match variant {
            "go-top" | "quit" => Ok(false),
            "open" => Ok(true),
            _ => Err(format!("unknown command {}", variant)),
        }
    }
}

fn convert_key(k: &ConfigKey) -> Key {
    match k {
        ConfigKey::Backspace => Key { base: BaseKey::Backspace, control: false },
        ConfigKey::Char(c) => Key { base: BaseKey::Char(*c), control: false },
        ConfigKey::Control(inner) => Key { control: true, ..convert_key(inner) },
        ConfigKey::Delete => Key { base: BaseKey::Delete, control: false },
        ConfigKey::Down => Key { base: BaseKey::Down, control: false },
        ConfigKey::End => Key { base: BaseKey::End, control: false },
        ConfigKey::Enter => Key { base: BaseKey::Enter, control: false },
        ConfigKey::Escape => Key { base: BaseKey::Escape, control: false },
        ConfigKey::Home => Key { base: BaseKey::Home, control: false },
        ConfigKey::Left => Key { base: BaseKey::Left, control: false },
        ConfigKey::PageDown => Key { base: BaseKey::PageDown, control: false },
        ConfigKey::PageUp => Key { base: BaseKey::PageUp, control: false },
        ConfigKey::Right => Key { base: BaseKey::Right, control: false },
        ConfigKey::Space => Key { base: BaseKey::Space, control: false },
        ConfigKey::Tab => Key { base: BaseKey::Tab, control: false },
        ConfigKey::Up => Key { base: BaseKey::Up, control: false },
        other => panic!("key not used by these tests: {:?}", other),
    }
}

fn render_value(value: Value) -> String {
    match value {
        Value::Bool(b) => b.to_string(),
        Value::Float(f) => f.to_string(),
        Value::Int(i) => i.to_string(),
        Value::Str(s) => s,
    }
}

fn convert_command(command: mg_settings::Command<TestComm>) -> Command {
    match command {
        mg_settings::Command::App(name) => {
            Command::App(app_action_of_name(&name).expect("app commands are validated when parsed"))
        },
        mg_settings::Command::Custom(comm) => Command::Custom(comm.payload()),
        mg_settings::Command::Map { action, keys, mode } => Command::MapKeys {
            action,
            keys: keys.iter().map(convert_key).collect(),
            mode,
        },
        mg_settings::Command::Set(name, value) => {
            Command::SetSetting { name, value: render_value(value) }
        },
        mg_settings::Command::Unmap { keys, mode } => Command::UnmapKeys {
            keys: keys.iter().map(convert_key).collect(),
            mode,
        },
    }
}

fn convert_error(error: mg_settings::errors::Error) -> ParseError {
    match error {
        mg_settings::errors::Error::Parse(e) => match e.typ {
            ErrorType::MissingArgument => ParseError::MissingArgument,
            ErrorType::NoCommand => ParseError::NoCommand,
            ErrorType::Parse => ParseError::Parse { unexpected: e.unexpected, expected: e.expected },
            ErrorType::UnknownCommand => ParseError::UnknownCommand { unexpected: e.unexpected },
        },
        other => ParseError::Parse { unexpected: other.to_string(), expected: String::new() },
    }
}

/// The real config parser behind the engine's parser interface.
struct ConfigParser {
    parser: Parser<TestComm>,
}

impl ConfigParser {
    fn new() -> ConfigParser {
        let config = Config {
            application_commands: vec![
                "complete-next",
                "complete-previous",
                "entry-delete-next-char",
                "entry-delete-next-word",
                "entry-delete-previous-word",
                "entry-end",
                "entry-next-char",
                "entry-next-word",
                "entry-previous-char",
                "entry-previous-word",
                "entry-smart-home",
            ],
            mapping_modes: vec!["n", "c", "i"],
        };
        ConfigParser { parser: Parser::new_with_config(config) }
    }
}

impl CommandParser for ConfigParser {
    fn parse_line(&mut self, line: &str) -> ParseResult {
        let parsed = self.parser.parse_line(line, None);
        let mut result = ParseResult::new();
        for command in parsed.commands {
            result.commands.push(convert_command(command));
        }
        for error in parsed.errors {
            result.errors.push(convert_error(error));
        }
        result
    }
}

struct ConfigSpecial;

impl SpecialCommands for ConfigSpecial {
    fn is_identifier(&self, c: char) -> bool {
        c == '/'
    }

    fn is_incremental(&self, _c: char) -> bool {
        false
    }

    fn identifier_to_command(&self, identifier: char, text: &str) -> Result<String, String> {
        if identifier == '/' {
            Ok(format!("search {}", text))
        } else {
            Err("unknown identifier".to_string())
        }
    }
}

struct ConfigCoercer;

impl SettingsCoercer for ConfigCoercer {
    fn to_variant(&self, name: &str, value: &str) -> Result<SettingVariant, String> {
        if value == "???" {
            return Err(format!("no such value for {}", name));
        }
        let value = match value {
            "true" => SettingValue::Bool(true),
            "false" => SettingValue::Bool(false),
            other => match other.parse::<i64>() {
                Ok(i) => SettingValue::Int(i),
                Err(_) => SettingValue::Str(other.to_string()),
            },
        };
        Ok(SettingVariant { name: name.to_string(), value })
    }
}

fn config_hooks() -> Collaborators<ConfigParser, ConfigSpecial, ConfigCoercer> {
    Collaborators { parser: ConfigParser::new(), special: ConfigSpecial, settings: ConfigCoercer }
}

fn errors_of(effects: &[Effect]) -> usize {
    effects.iter().filter(|e| matches!(e, Effect::Error(_))).count()
}

fn ckey(c: char) -> Key {
    Key { base: BaseKey::Char(c), control: false }
}

#[test]
fn config_batch_applies_around_error() {
    let mut mg = Mg::new(Vec::new()).unwrap();
    let mut h = config_hooks();
    let mut total_errors = 0;
    for line in ["set foo = bar", "set foo = ???", "nmap gg go-top"] {
        let parsed = h.parser.parse_line(line);
        let effects = mg.execute_commands(parsed, false, &h.settings);
        total_errors += errors_of(&effects);
    }
    assert_eq!(total_errors, 1);
    assert_eq!(mg.message, "Error setting value");
    assert_eq!(mg.settings().len(), 1);
    assert_eq!(mg.settings()[0].name, "foo");
    assert!(matches!(&mg.settings()[0].value, SettingValue::Str(s) if s == "bar"));
    let action = mg
        .mappings
        .lookup(Mode::Normal, &[ckey('g'), ckey('g')])
        .expect("the third command binds gg in normal mode")
        .clone();
    assert_eq!(action, "go-top");
    match mg.action_to_command(&action) {
        ShortcutCommand::Complete(c) => assert_eq!(c, "go-top"),
        _ => panic!("the bound action resolves to a complete command"),
    }
    let (first, _) = mg.handle_shortcut(ckey('g'), &mut h);
    assert!(first.is_empty());
    let (second, _) = mg.handle_shortcut(ckey('g'), &mut h);
    assert!(second
        .iter()
        .any(|e| matches!(e, Effect::CustomCommand(c) if c == "go-top")));
}

#[test]
fn blank_line_has_no_visible_errors() {
    let mut mg = Mg::new(Vec::new()).unwrap();
    let mut h = config_hooks();
    let parsed = h.parser.parse_line("");
    assert!(parsed.commands.is_empty());
    let effects = mg.execute_commands(parsed, false, &h.settings);
    assert!(effects.is_empty());
    assert_eq!(mg.message, "");
}

#[test]
fn comment_line_has_no_visible_errors() {
    let mut mg = Mg::new(Vec::new()).unwrap();
    let mut h = config_hooks();
    let parsed = h.parser.parse_line("# a comment");
    let effects = mg.execute_commands(parsed, false, &h.settings);
    assert_eq!(errors_of(&effects), 0);
}

#[test]
fn unknown_command_is_reported() {
    let mut mg = Mg::new(Vec::new()).unwrap();
    let mut h = config_hooks();
    let parsed = h.parser.parse_line("frobnicate");
    let effects = mg.execute_commands(parsed, false, &h.settings);
    assert_eq!(errors_of(&effects), 1);
    assert_eq!(mg.message, "Not a command: frobnicate");
}

#[test]
fn missing_argument_through_parser() {
    let mut mg = Mg::new(Vec::new()).unwrap();
    let mut h = config_hooks();
    let parsed = h.parser.parse_line("set");
    let effects = mg.execute_commands(parsed, false, &h.settings);
    assert_eq!(errors_of(&effects), 1);
    assert_eq!(mg.message, "Argument required");
}

#[test]
fn mapped_shortcut_round_trip_through_parser() {
    let mut mg = Mg::new(Vec::new()).unwrap();
    let mut h = config_hooks();
    let parsed = h.parser.parse_line("nmap q :quit<Enter>");
    let effects = mg.execute_commands(parsed, false, &h.settings);
    assert_eq!(errors_of(&effects), 0);
    let action = mg.mappings.lookup(Mode::Normal, &[ckey('q')]).unwrap().clone();
    match mg.action_to_command(&action) {
        ShortcutCommand::Complete(c) => assert_eq!(c, "quit"),
        _ => panic!("the quit mapping must run immediately"),
    }
    let (effects, _) = mg.handle_shortcut(ckey('q'), &mut h);
    assert!(effects
        .iter()
        .any(|e| matches!(e, Effect::CustomCommand(c) if c == "quit")));
}

#[test]
fn prefill_mapping_through_parser() {
    let mut mg = Mg::new(Vec::new()).unwrap();
    let mut h = config_hooks();
    let parsed = h.parser.parse_line("nmap o :open ");
    mg.execute_commands(parsed, false, &h.settings);
    let (_, inhibit) = mg.handle_shortcut(ckey('o'), &mut h);
    assert!(inhibit);
    assert_eq!(mg.get_mode(), "command");
    assert_eq!(mg.entry_text, "open ");
}

#[test]
fn unmap_through_parser() {
    let mut mg = Mg::new(Vec::new()).unwrap();
    let mut h = config_hooks();
    let parsed = h.parser.parse_line("nmap q :quit<Enter>");
    mg.execute_commands(parsed, false, &h.settings);
    let parsed = h.parser.parse_line("nunmap q");
    let effects = mg.execute_commands(parsed, false, &h.settings);
    assert_eq!(errors_of(&effects), 0);
    assert!(mg.mappings.lookup(Mode::Normal, &[ckey('q')]).is_none());
}

#[test]
fn entry_activation_parses_and_dispatches() {
    let mut mg = Mg::new(Vec::new()).unwrap();
    let mut h = config_hooks();
    mg.update(mg::effects::Msg::EnterCommandMode);
    let effects = mg.command_activate(Some("open rust-lang.org".to_string()), &mut h);
    assert!(effects
        .iter()
        .any(|e| matches!(e, Effect::CustomCommand(c) if c == "open rust-lang.org")));
    assert_eq!(mg.get_mode(), "normal");
}
