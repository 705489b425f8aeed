use niri_sense::config::{
    _des_array_to_sense_event_config, _des_match_str_bool, _des_match_str_sense_vibration_length,
    _des_match_str_sense_vibration_strength, deserialize, deserialize_checked, deserialize_document, deserialize_events,
    deserialize_lengths, deserialize_server, deserialize_strengths, event_config_from_array,
    Outcome, SenseConfig, SenseConfigEvents, SenseConfigLengths, SenseConfigServer,
    SenseConfigStrengths, SenseEventConfig, DEFAULT_CONFIG_STR,
};
use niri_sense::toml_model::{TomlTable, TomlValue};
use niri_sense::util::{SenseVibrationLength, SenseVibrationStrength};
use niri_sense::util::SenseVibrationLength as L;
use niri_sense::util::SenseVibrationStrength as S;

fn value_model(v: &toml::Value) -> TomlValue {
    match v {
        toml::Value::String(s) => TomlValue::String(s.clone()),
        toml::Value::Integer(i) => TomlValue::Integer(*i),
        toml::Value::Float(_) => TomlValue::Float,
        toml::Value::Boolean(b) => TomlValue::Boolean(*b),
        toml::Value::Datetime(_) => TomlValue::Datetime,
        toml::Value::Array(items) => TomlValue::Array(items.iter().map(value_model).collect()),
        toml::Value::Table(t) => TomlValue::Table(table_model(t)),
    }
}

fn table_model(t: &toml::Table) -> TomlTable {
    TomlTable { entries: t.iter().map(|(k, v)| (k.clone(), value_model(v))).collect() }
}

fn parse(text: &str) -> TomlTable {
    table_model(&text.parse::<toml::Table>().unwrap())
}

fn ev(state: bool, strength: SenseVibrationStrength, length: SenseVibrationLength) -> SenseEventConfig {
    SenseEventConfig { state, strength, length }
}

fn strs(items: &[&str]) -> Vec<TomlValue> {
    items.iter().map(|s| TomlValue::String(s.to_string())).collect()
}

#[test]
fn state_words_are_on_and_off() {
    assert_eq!(_des_match_str_bool("on"), Some(true));
    assert_eq!(_des_match_str_bool("off"), Some(false));
    assert_eq!(_des_match_str_bool("On"), None);
    assert_eq!(_des_match_str_bool("true"), None);
    assert_eq!(_des_match_str_bool(""), None);
}

#[test]
fn length_words_name_the_presets() {
    assert_eq!(_des_match_str_sense_vibration_length("short"), Some(L::Short));
    assert_eq!(_des_match_str_sense_vibration_length("medium"), Some(L::Medium));
    assert_eq!(_des_match_str_sense_vibration_length("long"), Some(L::Long));
    assert_eq!(_des_match_str_sense_vibration_length("custom_a"), Some(L::CustomA));
    assert_eq!(_des_match_str_sense_vibration_length("custom_b"), Some(L::CustomB));
    assert_eq!(_des_match_str_sense_vibration_length("low"), None);
    assert_eq!(_des_match_str_sense_vibration_length("Short"), None);
}

#[test]
fn strength_words_name_the_presets() {
    assert_eq!(_des_match_str_sense_vibration_strength("low"), Some(S::Low));
    assert_eq!(_des_match_str_sense_vibration_strength("medium"), Some(S::Medium));
    assert_eq!(_des_match_str_sense_vibration_strength("high"), Some(S::High));
    assert_eq!(_des_match_str_sense_vibration_strength("custom_a"), Some(S::CustomA));
    assert_eq!(_des_match_str_sense_vibration_strength("custom_b"), Some(S::CustomB));
    assert_eq!(_des_match_str_sense_vibration_strength("short"), None);
}

#[test]
fn built_in_configuration() {
    let c = SenseConfig::default();
    assert_eq!(c.server, SenseConfigServer { address: "127.0.0.1".to_string(), port: 12345 });
    assert_eq!(
        c.lengths,
        SenseConfigLengths { short: 80, medium: 160, long: 240, custom_a: 320, custom_b: 480 }
    );
    assert_eq!(
        c.strengths,
        SenseConfigStrengths { low: 20, medium: 50, high: 80, custom_a: 10, custom_b: 100 }
    );
    assert!(c.events.repeated_event_prevention);
    assert_eq!(c.events.window_closed, ev(true, S::High, L::Medium));
    assert_eq!(c.events.niri_config_reloaded, ev(false, S::Low, L::Short));
}

#[test]
fn default_file_reads_back_as_the_built_in_configuration() {
    let c = deserialize(DEFAULT_CONFIG_STR).unwrap();
    assert_eq!(c, SenseConfig::default());
    let expected = SenseConfigEvents {
        repeated_event_prevention: true,
        workspace_focus_changed: ev(true, S::Low, L::Short),
        workspace_changed: ev(true, S::Low, L::Short),
        window_opened_or_changed: ev(true, S::Low, L::Short),
        window_closed: ev(true, S::High, L::Medium),
        window_focus_changed: ev(true, S::Low, L::Short),
        window_layout_changed: ev(true, S::Medium, L::Short),
        window_urgency_changed: ev(true, S::High, L::Long),
        keyboard_layout_changed: ev(true, S::Low, L::Short),
        overview_opened: ev(true, S::High, L::Medium),
        overview_closed: ev(true, S::Medium, L::Medium),
        screenshot_captured: ev(true, S::Medium, L::Short),
        cast_started_or_changed: ev(true, S::Medium, L::Short),
        cast_stopped: ev(true, S::Low, L::Short),
        niri_config_reloaded: ev(false, S::Low, L::Short),
    };
    assert_eq!(c.events, expected);
}

#[test]
fn first_run_and_second_run_agree() {
    let first = SenseConfig::from_loaded(None);
    let second = SenseConfig::from_loaded(Some(DEFAULT_CONFIG_STR));
    assert_eq!(first, second);
    assert!(!first.events.niri_config_reloaded.state);
}

#[test]
fn text_that_is_not_toml_is_malformed() {
    assert_eq!(deserialize_checked("[server"), Outcome::Malformed);
    assert_eq!(deserialize("[server"), None);
    assert_eq!(SenseConfig::from_loaded(Some("[server")), SenseConfig::default());
}

#[test]
fn parsing_reads_the_text_it_is_given() {
    let text = DEFAULT_CONFIG_STR.replace("address = \"127.0.0.1\"", "address = \"10.1.2.3\"");
    assert_eq!(deserialize(&text).unwrap().server.address, "10.1.2.3");
    assert!(matches!(deserialize_checked(DEFAULT_CONFIG_STR), Outcome::Parsed(_)));
}

#[test]
fn a_short_event_array_gives_the_built_in_configuration() {
    let text = DEFAULT_CONFIG_STR.replace("window_closed = [\"on\", \"high\", \"medium\"]", "window_closed = [\"on\", \"high\"]");
    assert_eq!(deserialize_checked(&text), Outcome::ShortArray);
    assert_eq!(SenseConfig::from_loaded(Some(&text)), SenseConfig::default());
}

#[test]
fn loading_without_a_file_gives_the_built_in_configuration() {
    assert_eq!(SenseConfig::from_loaded(None), SenseConfig::default());
}

#[test]
fn a_refused_document_gives_the_built_in_configuration() {
    let text = "[server]\naddress = \"10.0.0.2\"\n";
    assert_eq!(deserialize(text), None);
    assert_eq!(deserialize_document(&parse(text)), Outcome::Invalid);
    assert_eq!(SenseConfig::from_loaded(Some(text)), SenseConfig::default());
}

#[test]
fn a_valid_document_is_put_in_force() {
    let text = DEFAULT_CONFIG_STR.replace("port = 12345", "port = 8080");
    let c = SenseConfig::from_loaded(Some(&text));
    assert_eq!(c.server.port, 8080);
}

#[test]
fn server_table() {
    let t = parse("address = \"localhost\"\nport = 70000\n");
    assert_eq!(
        deserialize_server(&t),
        Some(SenseConfigServer { address: "localhost".to_string(), port: 4464 })
    );
    assert_eq!(deserialize_server(&parse("address = 1\nport = 2\n")), None);
    assert_eq!(deserialize_server(&parse("address = \"a\"\nport = \"2\"\n")), None);
    assert_eq!(deserialize_server(&parse("port = 2\n")), None);
}

#[test]
fn lengths_and_strengths_tables() {
    let t = parse("short = 1\nmedium = 2\nlong = -1\ncustom_a = 4\ncustom_b = 5\n");
    assert_eq!(
        deserialize_lengths(&t),
        Some(SenseConfigLengths { short: 1, medium: 2, long: u64::MAX, custom_a: 4, custom_b: 5 })
    );
    let t = parse("low = 1\nmedium = 2\nhigh = 300\ncustom_a = 4\ncustom_b = 5\n");
    assert_eq!(
        deserialize_strengths(&t),
        Some(SenseConfigStrengths { low: 1, medium: 2, high: 44, custom_a: 4, custom_b: 5 })
    );
    assert_eq!(deserialize_lengths(&parse("short = 1\nmedium = 2.5\n")), None);
    assert_eq!(deserialize_strengths(&parse("low = 1\nmedium = 2\nhigh = 3\ncustom_a = 4\n")), None);
}

#[test]
fn event_arrays() {
    assert_eq!(
        _des_array_to_sense_event_config(&strs(&["off", "high", "long"])),
        Some(ev(false, SenseVibrationStrength::High, SenseVibrationLength::Long))
    );
    assert_eq!(
        _des_array_to_sense_event_config(&strs(&["on", "low", "short", "extra"])),
        Some(ev(true, SenseVibrationStrength::Low, SenseVibrationLength::Short))
    );
    assert_eq!(_des_array_to_sense_event_config(&strs(&["maybe", "low", "short"])), None);
    assert_eq!(_des_array_to_sense_event_config(&strs(&["yes"])), None);
    assert_eq!(_des_array_to_sense_event_config(&strs(&["on", "loud"])), None);
    assert_eq!(
        _des_array_to_sense_event_config(&vec![
            TomlValue::Boolean(true),
            TomlValue::String("low".to_string()),
            TomlValue::String("short".to_string())
        ]),
        None
    );
}

#[test]
fn short_event_arrays_are_told_apart() {
    assert_eq!(event_config_from_array(&vec![]), Outcome::ShortArray);
    assert_eq!(event_config_from_array(&strs(&["on"])), Outcome::ShortArray);
    assert_eq!(event_config_from_array(&strs(&["on", "low"])), Outcome::ShortArray);
    assert_eq!(event_config_from_array(&strs(&["on", "nope"])), Outcome::Invalid);
}

#[test]
fn events_table_stops_at_the_first_bad_entry() {
    let good = parse(DEFAULT_CONFIG_STR);
    let events_text = DEFAULT_CONFIG_STR
        .split("[events]")
        .nth(1)
        .unwrap();
    let events = parse(events_text);
    assert!(matches!(deserialize_events(&events), Outcome::Parsed(_)));
    let bad_then_short = events_text
        .replace("workspace_changed = [\"on\", \"low\", \"short\"]", "workspace_changed = 3")
        .replace("window_closed = [\"on\", \"high\", \"medium\"]", "window_closed = [\"on\"]");
    assert_eq!(deserialize_events(&parse(&bad_then_short)), Outcome::Invalid);
    let short_doc = DEFAULT_CONFIG_STR.replace("window_closed = [\"on\", \"high\", \"medium\"]", "window_closed = [\"on\"]");
    assert_eq!(deserialize_document(&parse(&short_doc)), Outcome::ShortArray);
    let no_flag = events_text.replace("repeated_event_prevention = true", "");
    assert_eq!(deserialize_events(&parse(&no_flag)), Outcome::Invalid);
    assert!(matches!(deserialize_document(&good), Outcome::Parsed(_)));
}

#[test]
fn missing_or_misshapen_sections_refuse_the_document() {
    let no_events = DEFAULT_CONFIG_STR.split("[events]").next().unwrap().to_string();
    assert_eq!(deserialize_document(&parse(&no_events)), Outcome::Invalid);
    let server_not_table = DEFAULT_CONFIG_STR.replace(
        "[server]\naddress = \"127.0.0.1\"\nport = 12345\n",
        "server = 5\n",
    );
    assert_eq!(deserialize_document(&parse(&server_not_table)), Outcome::Invalid);
    let short_but_server_bad = DEFAULT_CONFIG_STR
        .replace("port = 12345", "port = \"x\"")
        .replace("window_closed = [\"on\", \"high\", \"medium\"]", "window_closed = [\"on\"]");
    assert_eq!(deserialize_document(&parse(&short_but_server_bad)), Outcome::Invalid);
}

#[test]
fn lookup_takes_the_first_entry_with_the_key() {
    let t = TomlTable {
        entries: vec![
            ("port".to_string(), TomlValue::Integer(1)),
            ("port".to_string(), TomlValue::Integer(2)),
        ],
    };
    assert_eq!(t.get("port"), Some(&TomlValue::Integer(1)));
    assert_eq!(t.get("address"), None);
}
