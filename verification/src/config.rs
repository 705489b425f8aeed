use vstd::prelude::*;
use vstd::string::*;
use crate::text::str_equals;
use crate::toml_model::{
    get_array, get_bool, get_integer, get_str, get_table, value_str, TomlTable, TomlValue,
};
use crate::util::{SenseVibrationLength, SenseVibrationStrength};

verus! {

/// How one kind of niri event is answered: whether it vibrates at all, and
/// with which named strength and length.
#[derive(Debug, Clone, Copy, PartialEq, Eq)]
pub struct SenseEventConfig {
    pub state: bool,
    pub strength: SenseVibrationStrength,
    pub length: SenseVibrationLength,
}

/// The whole configuration, as read from `sense.toml`.
#[derive(Debug, PartialEq, Eq)]
pub struct SenseConfig {
    pub server: SenseConfigServer,
    pub lengths: SenseConfigLengths,
    pub strengths: SenseConfigStrengths,
    pub events: SenseConfigEvents,
}

/// Where the buttplug.io server listens.
#[derive(Debug, PartialEq, Eq)]
pub struct SenseConfigServer {
    pub address: String,
    pub port: u16,
}

/// Vibration lengths in milliseconds, one per named preset.
#[derive(Debug, Clone, Copy, PartialEq, Eq)]
pub struct SenseConfigLengths {
    pub short: u64,
    pub medium: u64,
    pub long: u64,
    pub custom_a: u64,
    pub custom_b: u64,
}

/// Vibration strengths in percent, one per named preset.
#[derive(Debug, Clone, Copy, PartialEq, Eq)]
pub struct SenseConfigStrengths {
    pub low: u8,
    pub medium: u8,
    pub high: u8,
    pub custom_a: u8,
    pub custom_b: u8,
}

/// The `[events]` table: the repeat cooldown switch and one answer per event.
#[derive(Debug, Clone, Copy, PartialEq, Eq)]
pub struct SenseConfigEvents {
    pub repeated_event_prevention: bool,
    pub workspace_focus_changed: SenseEventConfig,
    pub workspace_changed: SenseEventConfig,
    pub window_opened_or_changed: SenseEventConfig,
    pub window_closed: SenseEventConfig,
    pub window_focus_changed: SenseEventConfig,
    pub window_layout_changed: SenseEventConfig,
    pub window_urgency_changed: SenseEventConfig,
    pub keyboard_layout_changed: SenseEventConfig,
    pub overview_opened: SenseEventConfig,
    pub overview_closed: SenseEventConfig,
    pub screenshot_captured: SenseEventConfig,
    pub cast_started_or_changed: SenseEventConfig,
    pub cast_stopped: SenseEventConfig,
    pub niri_config_reloaded: SenseEventConfig,
}

/// What reading the configuration or a part of it comes to: a value, a
/// refusal (a key missing or of the wrong kind, or a word that is not one of
/// the known ones), an event array too short for the element that the reader
/// indexes next, or text that is not TOML at all.
#[derive(Debug, PartialEq, Eq)]
pub enum Outcome<T> {
    Parsed(T),
    Invalid,
    ShortArray,
    Malformed,
}

pub open spec fn outcome_to_option<T>(o: Outcome<T>) -> Option<T> {
    match o {
        Outcome::Parsed(v) => Some(v),
        _ => None,
    }
}

/// The configuration file written where none is found.
pub const DEFAULT_CONFIG_STR: &'static str = "[server]
address = \"127.0.0.1\"
port = 12345

[lengths]
# length presets in ms,
# 1000ms = 1s; minimum: 10, maximum: 1000
short = 80
medium = 160
long = 240

custom_a = 320
custom_b = 480

[strengths]
# strength value in %
# minimum: 1, maximum: 100
low = 20
medium = 50
high = 80

custom_a = 10
custom_b = 100

[events]
# if enabled, for every:
# - Window Open or Change event,
# - Window Layout Change event,
# - Cast Started or Changed event,
# happened, a cooldown is set,
# that doesn't procecss the next 3 of these events.
repeated_event_prevention = true
# === configure different events below

# event_name  = [state, strength, length]
# state = \"off\", \"on\"
# strength = \"low\", \"medium\", \"high\", \"custom_a\", \"custom_b\"
# length = \"short\", \"medium\", \"long\", \"custom_a\", \"custom_b\"

blank = [\"on\", \"low\", \"short\"]

# workspace
workspace_focus_changed = [\"on\", \"low\", \"short\"]
workspace_changed = [\"on\", \"low\", \"short\"]

# windows
window_opened_or_changed = [\"on\", \"low\", \"short\"]
window_closed = [\"on\", \"high\", \"medium\"]
window_focus_changed = [\"on\", \"low\", \"short\"]
window_layout_changed = [\"on\", \"medium\", \"short\"]
window_urgency_changed = [\"on\", \"high\", \"long\"]

# keyboard
keyboard_layout_changed = [\"on\", \"low\", \"short\"]

# overview
overview_opened = [\"on\", \"high\", \"medium\"]
overview_closed = [\"on\", \"medium\", \"medium\"]

# casts
screenshot_captured = [\"on\", \"medium\", \"short\"]
cast_started_or_changed = [\"on\", \"medium\", \"short\"]
cast_stopped = [\"on\", \"low\", \"short\"]

# niri's config relaod not sense's!
niri_config_reloaded = [\"off\", \"low\", \"short\"]";

// ---------------------------------------------------------------- words

pub open spec fn state_word(s: Seq<char>) -> Option<bool> {
    if s == "on"@ {
        Some(true)
    } else if s == "off"@ {
        Some(false)
    } else {
        None
    }
}

pub open spec fn length_word(s: Seq<char>) -> Option<SenseVibrationLength> {
    if s == "short"@ {
        Some(SenseVibrationLength::Short)
    } else if s == "medium"@ {
        Some(SenseVibrationLength::Medium)
    } else if s == "long"@ {
        Some(SenseVibrationLength::Long)
    } else if s == "custom_a"@ {
        Some(SenseVibrationLength::CustomA)
    } else if s == "custom_b"@ {
        Some(SenseVibrationLength::CustomB)
    } else {
        None
    }
}

pub open spec fn strength_word(s: Seq<char>) -> Option<SenseVibrationStrength> {
    if s == "low"@ {
        Some(SenseVibrationStrength::Low)
    } else if s == "medium"@ {
        Some(SenseVibrationStrength::Medium)
    } else if s == "high"@ {
        Some(SenseVibrationStrength::High)
    } else if s == "custom_a"@ {
        Some(SenseVibrationStrength::CustomA)
    } else if s == "custom_b"@ {
        Some(SenseVibrationStrength::CustomB)
    } else {
        None
    }
}

/// Reads an event state: `"on"` or `"off"`.
pub fn _des_match_str_bool(s: &str) -> (r: Option<bool>)
    ensures
        r == state_word(s@),
{
    if str_equals(s, "on") {
        Some(true)
    } else if str_equals(s, "off") {
        Some(false)
    } else {
        None
    }
}

/// Reads a length preset name.
pub fn _des_match_str_sense_vibration_length(s: &str) -> (r: Option<SenseVibrationLength>)
    ensures
        r == length_word(s@),
{
    if str_equals(s, "short") {
        Some(SenseVibrationLength::Short)
    } else if str_equals(s, "medium") {
        Some(SenseVibrationLength::Medium)
    } else if str_equals(s, "long") {
        Some(SenseVibrationLength::Long)
    } else if str_equals(s, "custom_a") {
        Some(SenseVibrationLength::CustomA)
    } else if str_equals(s, "custom_b") {
        Some(SenseVibrationLength::CustomB)
    } else {
        None
    }
}

/// Reads a strength preset name.
pub fn _des_match_str_sense_vibration_strength(s: &str) -> (r: Option<SenseVibrationStrength>)
    ensures
        r == strength_word(s@),
{
    if str_equals(s, "low") {
        Some(SenseVibrationStrength::Low)
    } else if str_equals(s, "medium") {
        Some(SenseVibrationStrength::Medium)
    } else if str_equals(s, "high") {
        Some(SenseVibrationStrength::High)
    } else if str_equals(s, "custom_a") {
        Some(SenseVibrationStrength::CustomA)
    } else if str_equals(s, "custom_b") {
        Some(SenseVibrationStrength::CustomB)
    } else {
        None
    }
}


// ---------------------------------------------------------------- sections

/// The `[server]` table: a string `address` and an integer `port`, the port
/// cut to its low 16 bits as `as u16` does.
pub open spec fn server_from_table(t: TomlTable) -> Option<SenseConfigServer> {
    match (get_str(t, "address"@), get_integer(t, "port"@)) {
        (Some(address), Some(port)) => Some(SenseConfigServer { address, port: port as u16 }),
        _ => None,
    }
}

/// The `[lengths]` table: five integers, each taken `as u64`.
pub open spec fn lengths_from_table(t: TomlTable) -> Option<SenseConfigLengths> {
    match (
        get_integer(t, "short"@),
        get_integer(t, "medium"@),
        get_integer(t, "long"@),
        get_integer(t, "custom_a"@),
        get_integer(t, "custom_b"@),
    ) {
        (Some(short), Some(medium), Some(long), Some(custom_a), Some(custom_b)) => Some(
            SenseConfigLengths {
                short: short as u64,
                medium: medium as u64,
                long: long as u64,
                custom_a: custom_a as u64,
                custom_b: custom_b as u64,
            },
        ),
        _ => None,
    }
}

/// The `[strengths]` table: five integers, each taken `as u8`.
pub open spec fn strengths_from_table(t: TomlTable) -> Option<SenseConfigStrengths> {
    match (
        get_integer(t, "low"@),
        get_integer(t, "medium"@),
        get_integer(t, "high"@),
        get_integer(t, "custom_a"@),
        get_integer(t, "custom_b"@),
    ) {
        (Some(low), Some(medium), Some(high), Some(custom_a), Some(custom_b)) => Some(
            SenseConfigStrengths {
                low: low as u8,
                medium: medium as u8,
                high: high as u8,
                custom_a: custom_a as u8,
                custom_b: custom_b as u8,
            },
        ),
        _ => None,
    }
}

pub fn deserialize_server(table: &TomlTable) -> (r: Option<SenseConfigServer>)
    ensures
        r == server_from_table(*table),
{
    let address = match table.get("address") {
        Some(v) => match v.as_str() {
            Some(a) => a,
            None => return None,
        },
        None => return None,
    };
    let port = match table.get("port") {
        Some(v) => match v.as_integer() {
            Some(p) => p,
            None => return None,
        },
        None => return None,
    };
    Some(SenseConfigServer { address: address.clone(), port: port as u16 })
}

fn integer_entry(table: &TomlTable, key: &str) -> (r: Option<i64>)
    ensures
        r == get_integer(*table, key@),
{
    match table.get(key) {
        Some(v) => v.as_integer(),
        None => None,
    }
}

pub fn deserialize_lengths(table: &TomlTable) -> (r: Option<SenseConfigLengths>)
    ensures
        r == lengths_from_table(*table),
{
    let short = match integer_entry(table, "short") { Some(v) => v, None => return None };
    let medium = match integer_entry(table, "medium") { Some(v) => v, None => return None };
    let long = match integer_entry(table, "long") { Some(v) => v, None => return None };
    let custom_a = match integer_entry(table, "custom_a") { Some(v) => v, None => return None };
    let custom_b = match integer_entry(table, "custom_b") { Some(v) => v, None => return None };
    Some(
        SenseConfigLengths {
            short: short as u64,
            medium: medium as u64,
            long: long as u64,
            custom_a: custom_a as u64,
            custom_b: custom_b as u64,
        },
    )
}

pub fn deserialize_strengths(table: &TomlTable) -> (r: Option<SenseConfigStrengths>)
    ensures
        r == strengths_from_table(*table),
{
    let low = match integer_entry(table, "low") { Some(v) => v, None => return None };
    let medium = match integer_entry(table, "medium") { Some(v) => v, None => return None };
    let high = match integer_entry(table, "high") { Some(v) => v, None => return None };
    let custom_a = match integer_entry(table, "custom_a") { Some(v) => v, None => return None };
    let custom_b = match integer_entry(table, "custom_b") { Some(v) => v, None => return None };
    Some(
        SenseConfigStrengths {
            low: low as u8,
            medium: medium as u8,
            high: high as u8,
            custom_a: custom_a as u8,
            custom_b: custom_b as u8,
        },
    )
}

// ---------------------------------------------------------------- events

pub open spec fn state_of(v: TomlValue) -> Option<bool> {
    match value_str(v) {
        Some(s) => state_word(s@),
        None => None,
    }
}

pub open spec fn strength_of(v: TomlValue) -> Option<SenseVibrationStrength> {
    match value_str(v) {
        Some(s) => strength_word(s@),
        None => None,
    }
}

pub open spec fn length_of(v: TomlValue) -> Option<SenseVibrationLength> {
    match value_str(v) {
        Some(s) => length_word(s@),
        None => None,
    }
}

/// An event array `[state, strength, length]`, read element by element:
/// each element is looked at only once the ones before it were accepted,
/// and extra elements are ignored.
pub open spec fn event_config_outcome(items: Seq<TomlValue>) -> Outcome<SenseEventConfig> {
    if items.len() < 1 {
        Outcome::ShortArray
    } else if state_of(items[0]) is None {
        Outcome::Invalid
    } else if items.len() < 2 {
        Outcome::ShortArray
    } else if strength_of(items[1]) is None {
        Outcome::Invalid
    } else if items.len() < 3 {
        Outcome::ShortArray
    } else if length_of(items[2]) is None {
        Outcome::Invalid
    } else {
        Outcome::Parsed(
            SenseEventConfig {
                state: state_of(items[0])->0,
                strength: strength_of(items[1])->0,
                length: length_of(items[2])->0,
            },
        )
    }
}

fn item_state(v: &TomlValue) -> (r: Option<bool>)
    ensures
        r == state_of(*v),
{
    match v.as_str() {
        Some(s) => _des_match_str_bool(s.as_str()),
        None => None,
    }
}

fn item_strength(v: &TomlValue) -> (r: Option<SenseVibrationStrength>)
    ensures
        r == strength_of(*v),
{
    match v.as_str() {
        Some(s) => _des_match_str_sense_vibration_strength(s.as_str()),
        None => None,
    }
}

fn item_length(v: &TomlValue) -> (r: Option<SenseVibrationLength>)
    ensures
        r == length_of(*v),
{
    match v.as_str() {
        Some(s) => _des_match_str_sense_vibration_length(s.as_str()),
        None => None,
    }
}

/// Reads an event array, telling apart a refused array from one too short
/// for the element that would be read next.
pub fn event_config_from_array(items: &Vec<TomlValue>) -> (r: Outcome<SenseEventConfig>)
    ensures
        r == event_config_outcome(items@),
{
    if items.len() < 1 {
        return Outcome::ShortArray;
    }
    let state = match item_state(&items[0]) { Some(v) => v, None => return Outcome::Invalid };
    if items.len() < 2 {
        return Outcome::ShortArray;
    }
    let strength = match item_strength(&items[1]) {
        Some(v) => v,
        None => return Outcome::Invalid,
    };
    if items.len() < 3 {
        return Outcome::ShortArray;
    }
    let length = match item_length(&items[2]) { Some(v) => v, None => return Outcome::Invalid };
    Outcome::Parsed(SenseEventConfig { state, strength, length })
}

/// Reads an event array `[state, strength, length]`. The array must hold
/// every element that the reader gets to; where a refused element comes
/// first, a shorter array is fine.
pub fn _des_array_to_sense_event_config(vec: &Vec<TomlValue>) -> (r: Option<SenseEventConfig>)
    requires
        !(event_config_outcome(vec@) is ShortArray),
    ensures
        r == outcome_to_option(event_config_outcome(vec@)),
{
    match event_config_from_array(vec) {
        Outcome::Parsed(c) => Some(c),
        _ => None,
    }
}

/// The event entry stored under `key`: it must be an array.
pub open spec fn event_entry_outcome(t: TomlTable, key: Seq<char>) -> Outcome<SenseEventConfig> {
    match get_array(t, key) {
        Some(items) => event_config_outcome(items),
        None => Outcome::Invalid,
    }
}

/// The keys of the `[events]` table, in the order in which they are read.
pub open spec fn event_keys() -> Seq<Seq<char>> {
    seq![
        "workspace_focus_changed"@,
        "workspace_changed"@,
        "window_opened_or_changed"@,
        "window_closed"@,
        "window_focus_changed"@,
        "window_layout_changed"@,
        "window_urgency_changed"@,
        "keyboard_layout_changed"@,
        "overview_opened"@,
        "overview_closed"@,
        "screenshot_captured"@,
        "cast_started_or_changed"@,
        "cast_stopped"@,
        "niri_config_reloaded"@,
    ]
}

/// Reads the entries under `keys` in order; the first one that is not read
/// decides the outcome.
pub open spec fn entries_outcome(t: TomlTable, keys: Seq<Seq<char>>) -> Outcome<Seq<SenseEventConfig>>
    decreases keys.len(),
{
    if keys.len() == 0 {
        Outcome::Parsed(seq![])
    } else {
        match event_entry_outcome(t, keys[0]) {
            Outcome::Parsed(e) => match entries_outcome(t, keys.drop_first()) {
                Outcome::Parsed(es) => Outcome::Parsed(seq![e] + es),
                Outcome::Invalid => Outcome::Invalid,
                Outcome::ShortArray => Outcome::ShortArray,
                Outcome::Malformed => Outcome::Malformed,
            },
            Outcome::Invalid => Outcome::Invalid,
            Outcome::ShortArray => Outcome::ShortArray,
            Outcome::Malformed => Outcome::Malformed,
        }
    }
}

pub open spec fn events_from(rep: bool, es: Seq<SenseEventConfig>) -> SenseConfigEvents {
    SenseConfigEvents {
        repeated_event_prevention: rep,
        workspace_focus_changed: es[0],
        workspace_changed: es[1],
        window_opened_or_changed: es[2],
        window_closed: es[3],
        window_focus_changed: es[4],
        window_layout_changed: es[5],
        window_urgency_changed: es[6],
        keyboard_layout_changed: es[7],
        overview_opened: es[8],
        overview_closed: es[9],
        screenshot_captured: es[10],
        cast_started_or_changed: es[11],
        cast_stopped: es[12],
        niri_config_reloaded: es[13],
    }
}

/// The `[events]` table: the boolean `repeated_event_prevention`, then the
/// event arrays in the order of `event_keys`.
pub open spec fn events_outcome(t: TomlTable) -> Outcome<SenseConfigEvents> {
    match get_bool(t, "repeated_event_prevention"@) {
        None => Outcome::Invalid,
        Some(rep) => match entries_outcome(t, event_keys()) {
            Outcome::Parsed(es) => Outcome::Parsed(events_from(rep, es)),
            Outcome::Invalid => Outcome::Invalid,
            Outcome::ShortArray => Outcome::ShortArray,
            Outcome::Malformed => Outcome::Malformed,
        },
    }
}

pub open spec fn prepend_parsed(
    p: Seq<SenseEventConfig>,
    o: Outcome<Seq<SenseEventConfig>>,
) -> Outcome<Seq<SenseEventConfig>> {
    match o {
        Outcome::Parsed(es) => Outcome::Parsed(p + es),
        Outcome::Invalid => Outcome::Invalid,
        Outcome::ShortArray => Outcome::ShortArray,
        Outcome::Malformed => Outcome::Malformed,
    }
}

proof fn lemma_entries_prefix(t: TomlTable, keys: Seq<Seq<char>>, parsed: Seq<SenseEventConfig>)
    requires
        parsed.len() <= keys.len(),
        forall|j: int|
            0 <= j < parsed.len() ==> event_entry_outcome(t, #[trigger] keys[j]) == Outcome::Parsed(
                parsed[j],
            ),
    ensures
        entries_outcome(t, keys) == prepend_parsed(
            parsed,
            entries_outcome(t, keys.skip(parsed.len() as int)),
        ),
    decreases parsed.len(),
{
    if parsed.len() == 0 {
        assert(keys.skip(0) =~= keys);
        match entries_outcome(t, keys) {
            Outcome::Parsed(es) => {
                assert(parsed + es =~= es);
            },
            _ => {},
        }
    } else {
        let rest = keys.drop_first();
        let prest = parsed.drop_first();
        assert forall|j: int| 0 <= j < prest.len() implies event_entry_outcome(
            t,
            #[trigger] rest[j],
        ) == Outcome::Parsed(prest[j]) by {
            assert(rest[j] == keys[j + 1]);
            assert(prest[j] == parsed[j + 1]);
        }
        lemma_entries_prefix(t, rest, prest);
        assert(rest.skip(prest.len() as int) =~= keys.skip(parsed.len() as int));
        assert(event_entry_outcome(t, keys[0]) == Outcome::Parsed(parsed[0]));
        match entries_outcome(t, keys.skip(parsed.len() as int)) {
            Outcome::Parsed(es) => {
                assert(seq![parsed[0]] + (prest + es) =~= parsed + es);
            },
            _ => {},
        }
    }
}

fn event_key(i: usize) -> (r: &'static str)
    requires
        i < 14,
    ensures
        r@ == event_keys()[i as int],
{
    if i == 0 { "workspace_focus_changed" }
    else if i == 1 { "workspace_changed" }
    else if i == 2 { "window_opened_or_changed" }
    else if i == 3 { "window_closed" }
    else if i == 4 { "window_focus_changed" }
    else if i == 5 { "window_layout_changed" }
    else if i == 6 { "window_urgency_changed" }
    else if i == 7 { "keyboard_layout_changed" }
    else if i == 8 { "overview_opened" }
    else if i == 9 { "overview_closed" }
    else if i == 10 { "screenshot_captured" }
    else if i == 11 { "cast_started_or_changed" }
    else if i == 12 { "cast_stopped" }
    else { "niri_config_reloaded" }
}

fn event_entry(table: &TomlTable, key: &str) -> (r: Outcome<SenseEventConfig>)
    ensures
        r == event_entry_outcome(*table, key@),
{
    match table.get(key) {
        Some(v) => match v.as_array() {
            Some(items) => event_config_from_array(items),
            None => Outcome::Invalid,
        },
        None => Outcome::Invalid,
    }
}

fn read_event_entries(table: &TomlTable) -> (r: Outcome<Vec<SenseEventConfig>>)
    ensures
        r matches Outcome::Parsed(v) ==> entries_outcome(*table, event_keys()) == Outcome::Parsed(
            v@,
        ),
        r is Invalid ==> entries_outcome(*table, event_keys()) is Invalid,
        r is ShortArray ==> entries_outcome(*table, event_keys()) is ShortArray,
        !(r is Malformed),
{
    let ghost keys = event_keys();
    let mut parsed: Vec<SenseEventConfig> = Vec::new();
    let mut i: usize = 0;
    while i < 14
        invariant
            keys == event_keys(),
            keys.len() == 14,
            i <= 14,
            parsed@.len() == i,
            forall|j: int|
                0 <= j < i ==> event_entry_outcome(*table, #[trigger] keys[j]) == Outcome::Parsed(
                    parsed@[j],
                ),
        decreases 14 - i,
    {
        let key = event_key(i);
        let outcome = event_entry(table, key);
        proof {
            lemma_entries_prefix(*table, keys, parsed@);
            let tail = keys.skip(i as int);
            assert(tail[0] == keys[i as int]);
        }
        match outcome {
            Outcome::Parsed(e) => {
                parsed.push(e);
            },
            Outcome::Invalid => {
                return Outcome::Invalid;
            },
            Outcome::ShortArray => {
                return Outcome::ShortArray;
            },
            Outcome::Malformed => {
                return Outcome::Malformed;
            },
        }
        i = i + 1;
    }
    proof {
        lemma_entries_prefix(*table, keys, parsed@);
        assert(keys.skip(14) =~= Seq::<Seq<char>>::empty());
        assert(parsed@ + Seq::<SenseEventConfig>::empty() =~= parsed@);
    }
    Outcome::Parsed(parsed)
}

/// Reads the `[events]` table.
pub fn deserialize_events(table: &TomlTable) -> (r: Outcome<SenseConfigEvents>)
    ensures
        r == events_outcome(*table),
{
    let rep = match table.get("repeated_event_prevention") {
        Some(v) => match v.as_bool() {
            Some(b) => b,
            None => return Outcome::Invalid,
        },
        None => return Outcome::Invalid,
    };
    let parsed = match read_event_entries(table) {
        Outcome::Parsed(v) => v,
        Outcome::Invalid => return Outcome::Invalid,
        Outcome::ShortArray => return Outcome::ShortArray,
        Outcome::Malformed => return Outcome::Malformed,
    };
    proof {
        lemma_entries_length(*table, event_keys());
    }
    Outcome::Parsed(
        SenseConfigEvents {
            repeated_event_prevention: rep,
            workspace_focus_changed: parsed[0],
            workspace_changed: parsed[1],
            window_opened_or_changed: parsed[2],
            window_closed: parsed[3],
            window_focus_changed: parsed[4],
            window_layout_changed: parsed[5],
            window_urgency_changed: parsed[6],
            keyboard_layout_changed: parsed[7],
            overview_opened: parsed[8],
            overview_closed: parsed[9],
            screenshot_captured: parsed[10],
            cast_started_or_changed: parsed[11],
            cast_stopped: parsed[12],
            niri_config_reloaded: parsed[13],
        },
    )
}

proof fn lemma_entries_length(t: TomlTable, keys: Seq<Seq<char>>)
    ensures
        entries_outcome(t, keys) matches Outcome::Parsed(es) ==> es.len() == keys.len(),
    decreases keys.len(),
{
    if keys.len() > 0 {
        lemma_entries_length(t, keys.drop_first());
    }
}

// ---------------------------------------------------------------- document

/// The whole document: the tables `server`, `lengths`, `strengths` and
/// `events`, read in that order; the first one that is missing, is not a
/// table or is refused decides the outcome.
pub open spec fn config_outcome(root: TomlTable) -> Outcome<SenseConfig> {
    match get_table(root, "server"@) {
        None => Outcome::Invalid,
        Some(server_table) => match server_from_table(server_table) {
            None => Outcome::Invalid,
            Some(server) => match get_table(root, "lengths"@) {
                None => Outcome::Invalid,
                Some(lengths_table) => match lengths_from_table(lengths_table) {
                    None => Outcome::Invalid,
                    Some(lengths) => match get_table(root, "strengths"@) {
                        None => Outcome::Invalid,
                        Some(strengths_table) => match strengths_from_table(strengths_table) {
                            None => Outcome::Invalid,
                            Some(strengths) => match get_table(root, "events"@) {
                                None => Outcome::Invalid,
                                Some(events_table) => match events_outcome(events_table) {
                                    Outcome::Parsed(events) => Outcome::Parsed(
                                        SenseConfig { server, lengths, strengths, events },
                                    ),
                                    Outcome::Invalid => Outcome::Invalid,
                                    Outcome::ShortArray => Outcome::ShortArray,
                                    Outcome::Malformed => Outcome::Malformed,
                                },
                            },
                        },
                    },
                },
            },
        },
    }
}

fn table_entry<'a>(root: &'a TomlTable, key: &str) -> (r: Option<&'a TomlTable>)
    ensures
        r matches Some(t) ==> get_table(*root, key@) == Some(*t),
        r is None ==> get_table(*root, key@) is None,
{
    match root.get(key) {
        Some(v) => v.as_table(),
        None => None,
    }
}

/// Reads a parsed configuration document, telling apart a refused document
/// from one whose event array is too short for the element read next.
pub fn deserialize_document(root: &TomlTable) -> (r: Outcome<SenseConfig>)
    ensures
        r == config_outcome(*root),
{
    let server = match table_entry(root, "server") {
        Some(t) => match deserialize_server(t) {
            Some(s) => s,
            None => return Outcome::Invalid,
        },
        None => return Outcome::Invalid,
    };
    let lengths = match table_entry(root, "lengths") {
        Some(t) => match deserialize_lengths(t) {
            Some(l) => l,
            None => return Outcome::Invalid,
        },
        None => return Outcome::Invalid,
    };
    let strengths = match table_entry(root, "strengths") {
        Some(t) => match deserialize_strengths(t) {
            Some(s) => s,
            None => return Outcome::Invalid,
        },
        None => return Outcome::Invalid,
    };
    let events = match table_entry(root, "events") {
        Some(t) => match deserialize_events(t) {
            Outcome::Parsed(e) => e,
            Outcome::Invalid => return Outcome::Invalid,
            Outcome::ShortArray => return Outcome::ShortArray,
            Outcome::Malformed => return Outcome::Malformed,
        },
        None => return Outcome::Invalid,
    };
    Outcome::Parsed(SenseConfig { server, lengths, strengths, events })
}

// ---------------------------------------------------------------- text

/// A value of the `toml` crate, carried through unopened.
#[verifier::external_type_specification]
#[verifier::external_body]
pub struct ExTomlValue(toml::Value);

/// The document that the `toml` crate's parser (`toml::Table::from_str`)
/// reads out of `text`, in the library's model of TOML values; `None` where
/// the text is not valid TOML.
pub uninterp spec fn parsed_document(text: Seq<char>) -> Option<TomlTable>;

/// Parses TOML text with `toml::Table::from_str` and hands the table over
/// as the library's `TomlTable`, entry by entry in the table's own order.
/// Claimed: the result is `parsed_document` of the text, so that equal texts
/// give equal documents. What the parser accepts and produces is not stated.
#[verifier::external_body]
fn parse_document(text: &str) -> (r: Option<TomlTable>)
    ensures
        r == parsed_document(text@),
{
    match text.parse::<toml::Table>() {
        Ok(t) => Some(TomlTable { entries: t.iter().map(|(k, v)| (k.clone(), toml_value_model(v))).collect() }),
        Err(_) => None,
    }
}

/// Converts a `toml::Value` into the library's model, variant by variant
/// (floats and date-times keep only their kind). It is the conversion step
/// of `parse_document`, which alone calls it; nothing is claimed of it.
#[verifier::external_body]
fn toml_value_model(v: &toml::Value) -> TomlValue {
    match v {
        toml::Value::String(s) => TomlValue::String(s.clone()),
        toml::Value::Integer(i) => TomlValue::Integer(*i),
        toml::Value::Float(_) => TomlValue::Float,
        toml::Value::Boolean(b) => TomlValue::Boolean(*b),
        toml::Value::Datetime(_) => TomlValue::Datetime,
        toml::Value::Array(items) => TomlValue::Array(items.iter().map(toml_value_model).collect()),
        toml::Value::Table(t) => TomlValue::Table(TomlTable { entries: t.iter().map(|(k, x)| (k.clone(), toml_value_model(x))).collect() }),
    }
}

/// Reading the configuration text: text that is not TOML is malformed;
/// otherwise the parsed document is read.
pub open spec fn text_outcome(text: Seq<char>) -> Outcome<SenseConfig> {
    match parsed_document(text) {
        None => Outcome::Malformed,
        Some(root) => config_outcome(root),
    }
}

/// Reads configuration text, telling apart every way in which it can fail.
pub fn deserialize_checked(content: &str) -> (r: Outcome<SenseConfig>)
    ensures
        r == text_outcome(content@),
{
    match parse_document(content) {
        Some(root) => deserialize_document(&root),
        None => Outcome::Malformed,
    }
}

/// Reads configuration text: `None` where it is not TOML, where a table or a
/// key is missing, of the wrong kind or holds an unknown word, or where an
/// event array is too short.
pub fn deserialize(content: &str) -> (r: Option<SenseConfig>)
    ensures
        r == outcome_to_option(text_outcome(content@)),
{
    match deserialize_checked(content) {
        Outcome::Parsed(c) => Some(c),
        _ => None,
    }
}

/// The built-in configuration, with the values written in `DEFAULT_CONFIG_STR`:
/// server `127.0.0.1:12345`, its length and strength presets, the cooldown
/// on, and its answer to each event (the niri config reload one off).
pub open spec fn is_default_config(c: SenseConfig) -> bool {
    &&& c.server.address@ == "127.0.0.1"@
    &&& c.server.port == 12345
    &&& c.lengths == SenseConfigLengths {
        short: 80,
        medium: 160,
        long: 240,
        custom_a: 320,
        custom_b: 480,
    }
    &&& c.strengths == SenseConfigStrengths {
        low: 20,
        medium: 50,
        high: 80,
        custom_a: 10,
        custom_b: 100,
    }
    &&& c.events == default_events()
}

pub open spec fn event_answer(
    state: bool,
    strength: SenseVibrationStrength,
    length: SenseVibrationLength,
) -> SenseEventConfig {
    SenseEventConfig { state, strength, length }
}

/// The `[events]` table of the default file.
pub open spec fn default_events() -> SenseConfigEvents {
    SenseConfigEvents {
        repeated_event_prevention: true,
        workspace_focus_changed: event_answer(true, SenseVibrationStrength::Low, SenseVibrationLength::Short),
        workspace_changed: event_answer(true, SenseVibrationStrength::Low, SenseVibrationLength::Short),
        window_opened_or_changed: event_answer(true, SenseVibrationStrength::Low, SenseVibrationLength::Short),
        window_closed: event_answer(true, SenseVibrationStrength::High, SenseVibrationLength::Medium),
        window_focus_changed: event_answer(true, SenseVibrationStrength::Low, SenseVibrationLength::Short),
        window_layout_changed: event_answer(true, SenseVibrationStrength::Medium, SenseVibrationLength::Short),
        window_urgency_changed: event_answer(true, SenseVibrationStrength::High, SenseVibrationLength::Long),
        keyboard_layout_changed: event_answer(true, SenseVibrationStrength::Low, SenseVibrationLength::Short),
        overview_opened: event_answer(true, SenseVibrationStrength::High, SenseVibrationLength::Medium),
        overview_closed: event_answer(true, SenseVibrationStrength::Medium, SenseVibrationLength::Medium),
        screenshot_captured: event_answer(true, SenseVibrationStrength::Medium, SenseVibrationLength::Short),
        cast_started_or_changed: event_answer(true, SenseVibrationStrength::Medium, SenseVibrationLength::Short),
        cast_stopped: event_answer(true, SenseVibrationStrength::Low, SenseVibrationLength::Short),
        niri_config_reloaded: event_answer(false, SenseVibrationStrength::Low, SenseVibrationLength::Short),
    }
}

fn answer(state: bool, strength: SenseVibrationStrength, length: SenseVibrationLength) -> (r: SenseEventConfig)
    ensures
        r == event_answer(state, strength, length),
{
    SenseEventConfig { state, strength, length }
}

impl Default for SenseConfig {
    fn default() -> (r: Self)
        ensures
            is_default_config(r),
    {
        SenseConfig {
            server: SenseConfigServer { address: String::from_str("127.0.0.1"), port: 12345 },
            lengths: SenseConfigLengths {
                short: 80,
                medium: 160,
                long: 240,
                custom_a: 320,
                custom_b: 480,
            },
            strengths: SenseConfigStrengths {
                low: 20,
                medium: 50,
                high: 80,
                custom_a: 10,
                custom_b: 100,
            },
            events: SenseConfigEvents {
                repeated_event_prevention: true,
                workspace_focus_changed: answer(true, SenseVibrationStrength::Low, SenseVibrationLength::Short),
                workspace_changed: answer(true, SenseVibrationStrength::Low, SenseVibrationLength::Short),
                window_opened_or_changed: answer(true, SenseVibrationStrength::Low, SenseVibrationLength::Short),
                window_closed: answer(true, SenseVibrationStrength::High, SenseVibrationLength::Medium),
                window_focus_changed: answer(true, SenseVibrationStrength::Low, SenseVibrationLength::Short),
                window_layout_changed: answer(true, SenseVibrationStrength::Medium, SenseVibrationLength::Short),
                window_urgency_changed: answer(true, SenseVibrationStrength::High, SenseVibrationLength::Long),
                keyboard_layout_changed: answer(true, SenseVibrationStrength::Low, SenseVibrationLength::Short),
                overview_opened: answer(true, SenseVibrationStrength::High, SenseVibrationLength::Medium),
                overview_closed: answer(true, SenseVibrationStrength::Medium, SenseVibrationLength::Medium),
                screenshot_captured: answer(true, SenseVibrationStrength::Medium, SenseVibrationLength::Short),
                cast_started_or_changed: answer(true, SenseVibrationStrength::Medium, SenseVibrationLength::Short),
                cast_stopped: answer(true, SenseVibrationStrength::Low, SenseVibrationLength::Short),
                niri_config_reloaded: answer(false, SenseVibrationStrength::Low, SenseVibrationLength::Short),
            },
        }
    }
}

impl SenseConfig {
    /// The configuration in force after loading: with no text (the file could
    /// not be read) the built-in one; else the text's, or the built-in one
    /// wherever reading the text fails ("the defaults will be set").
    pub fn from_loaded(content: Option<&str>) -> (r: SenseConfig)
        ensures
            match content {
                Some(text) => match text_outcome(text@) {
                    Outcome::Parsed(c) => r == c,
                    _ => is_default_config(r),
                },
                None => is_default_config(r),
            },
    {
        match content {
            Some(text) => match deserialize(text) {
                Some(c) => c,
                None => SenseConfig::default(),
            },
            None => SenseConfig::default(),
        }
    }
}

proof fn lemma_entries_parsed(t: TomlTable, keys: Seq<Seq<char>>)
    ensures
        entries_outcome(t, keys) matches Outcome::Parsed(es) ==> {
            &&& es.len() == keys.len()
            &&& forall|j: int|
                0 <= j < keys.len() ==> event_entry_outcome(t, #[trigger] keys[j])
                    == Outcome::Parsed(es[j])
        },
    decreases keys.len(),
{
    if keys.len() > 0 {
        lemma_entries_parsed(t, keys.drop_first());
        if let Outcome::Parsed(es) = entries_outcome(t, keys) {
            assert forall|j: int| 0 <= j < keys.len() implies event_entry_outcome(
                t,
                #[trigger] keys[j],
            ) == Outcome::Parsed(es[j]) by {
                if j > 0 {
                    assert(keys[j] == keys.drop_first()[j - 1]);
                }
            }
        }
    }
}

/// The event array stored under `key` reads as `answer`.
pub open spec fn entry_reads_as(t: TomlTable, key: Seq<char>, answer: SenseEventConfig) -> bool {
    get_array(t, key) matches Some(items) && event_config_outcome(items) == Outcome::Parsed(answer)
}

/// Each field of a read `[events]` table is the array stored under the key
/// named after that field.
pub proof fn law_event_fields_come_from_their_keys(t: TomlTable)
    ensures
        events_outcome(t) matches Outcome::Parsed(ev) ==> {
            &&& get_bool(t, "repeated_event_prevention"@) == Some(ev.repeated_event_prevention)
            &&& entry_reads_as(t, "workspace_focus_changed"@, ev.workspace_focus_changed)
            &&& entry_reads_as(t, "workspace_changed"@, ev.workspace_changed)
            &&& entry_reads_as(t, "window_opened_or_changed"@, ev.window_opened_or_changed)
            &&& entry_reads_as(t, "window_closed"@, ev.window_closed)
            &&& entry_reads_as(t, "window_focus_changed"@, ev.window_focus_changed)
            &&& entry_reads_as(t, "window_layout_changed"@, ev.window_layout_changed)
            &&& entry_reads_as(t, "window_urgency_changed"@, ev.window_urgency_changed)
            &&& entry_reads_as(t, "keyboard_layout_changed"@, ev.keyboard_layout_changed)
            &&& entry_reads_as(t, "overview_opened"@, ev.overview_opened)
            &&& entry_reads_as(t, "overview_closed"@, ev.overview_closed)
            &&& entry_reads_as(t, "screenshot_captured"@, ev.screenshot_captured)
            &&& entry_reads_as(t, "cast_started_or_changed"@, ev.cast_started_or_changed)
            &&& entry_reads_as(t, "cast_stopped"@, ev.cast_stopped)
            &&& entry_reads_as(t, "niri_config_reloaded"@, ev.niri_config_reloaded)
        },
{
    let keys = event_keys();
    lemma_entries_parsed(t, keys);
    if let Outcome::Parsed(ev) = events_outcome(t) {
        let es = entries_outcome(t, keys)->Parsed_0;
        assert forall|j: int| 0 <= j < 14 implies entry_reads_as(t, #[trigger] keys[j], es[j]) by {
            assert(event_entry_outcome(t, keys[j]) == Outcome::Parsed(es[j]));
        }
        assert(entry_reads_as(t, keys[0], es[0]));
        assert(entry_reads_as(t, keys[1], es[1]));
        assert(entry_reads_as(t, keys[2], es[2]));
        assert(entry_reads_as(t, keys[3], es[3]));
        assert(entry_reads_as(t, keys[4], es[4]));
        assert(entry_reads_as(t, keys[5], es[5]));
        assert(entry_reads_as(t, keys[6], es[6]));
        assert(entry_reads_as(t, keys[7], es[7]));
        assert(entry_reads_as(t, keys[8], es[8]));
        assert(entry_reads_as(t, keys[9], es[9]));
        assert(entry_reads_as(t, keys[10], es[10]));
        assert(entry_reads_as(t, keys[11], es[11]));
        assert(entry_reads_as(t, keys[12], es[12]));
        assert(entry_reads_as(t, keys[13], es[13]));
    }
}

} // verus!
