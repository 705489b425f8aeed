use vstd::prelude::*;
use crate::text::str_equals;

verus! {

/// A TOML value as the configuration reader sees it. Floats and date-times
/// are kept only as their kind: nothing in the library reads what they hold.
#[derive(Debug, PartialEq)]
pub enum TomlValue {
    String(String),
    Integer(i64),
    Float,
    Boolean(bool),
    Datetime,
    Array(Vec<TomlValue>),
    Table(TomlTable),
}

/// A TOML table: its key/value pairs in document order.
#[derive(Debug, PartialEq)]
pub struct TomlTable {
    pub entries: Vec<(String, TomlValue)>,
}

/// The value stored under `key`: that of the first entry with this key.
pub open spec fn lookup(entries: Seq<(String, TomlValue)>, key: Seq<char>) -> Option<TomlValue>
    decreases entries.len(),
{
    if entries.len() == 0 {
        None
    } else if entries[0].0@ == key {
        Some(entries[0].1)
    } else {
        lookup(entries.drop_first(), key)
    }
}

pub open spec fn table_get(t: TomlTable, key: Seq<char>) -> Option<TomlValue> {
    lookup(t.entries@, key)
}

pub open spec fn value_str(v: TomlValue) -> Option<String> {
    match v {
        TomlValue::String(s) => Some(s),
        _ => None,
    }
}

pub open spec fn value_integer(v: TomlValue) -> Option<i64> {
    match v {
        TomlValue::Integer(i) => Some(i),
        _ => None,
    }
}

pub open spec fn value_bool(v: TomlValue) -> Option<bool> {
    match v {
        TomlValue::Boolean(b) => Some(b),
        _ => None,
    }
}

pub open spec fn value_array(v: TomlValue) -> Option<Seq<TomlValue>> {
    match v {
        TomlValue::Array(items) => Some(items@),
        _ => None,
    }
}

pub open spec fn value_table(v: TomlValue) -> Option<TomlTable> {
    match v {
        TomlValue::Table(t) => Some(t),
        _ => None,
    }
}

/// The string stored under `key`, if the key is there and holds a string.
pub open spec fn get_str(t: TomlTable, key: Seq<char>) -> Option<String> {
    match table_get(t, key) {
        Some(v) => value_str(v),
        None => None,
    }
}

pub open spec fn get_integer(t: TomlTable, key: Seq<char>) -> Option<i64> {
    match table_get(t, key) {
        Some(v) => value_integer(v),
        None => None,
    }
}

pub open spec fn get_bool(t: TomlTable, key: Seq<char>) -> Option<bool> {
    match table_get(t, key) {
        Some(v) => value_bool(v),
        None => None,
    }
}

pub open spec fn get_array(t: TomlTable, key: Seq<char>) -> Option<Seq<TomlValue>> {
    match table_get(t, key) {
        Some(v) => value_array(v),
        None => None,
    }
}

pub open spec fn get_table(t: TomlTable, key: Seq<char>) -> Option<TomlTable> {
    match table_get(t, key) {
        Some(v) => value_table(v),
        None => None,
    }
}

proof fn lemma_lookup_skip(entries: Seq<(String, TomlValue)>, key: Seq<char>, i: int)
    requires
        0 <= i <= entries.len(),
        forall|j: int| 0 <= j < i ==> (#[trigger] entries[j]).0@ != key,
    ensures
        lookup(entries, key) == lookup(entries.subrange(i, entries.len() as int), key),
    decreases i,
{
    if i > 0 {
        let rest = entries.drop_first();
        assert forall|j: int| 0 <= j < i - 1 implies (#[trigger] rest[j]).0@ != key by {
            assert(rest[j] == entries[j + 1]);
        }
        assert(entries[0].0@ != key);
        lemma_lookup_skip(rest, key, i - 1);
        assert(rest.subrange(i - 1, rest.len() as int) =~= entries.subrange(i, entries.len() as int));
    } else {
        assert(entries.subrange(0, entries.len() as int) =~= entries);
    }
}

impl TomlTable {
    /// The value stored under `key`, as `toml::Table::get` finds it.
    pub fn get(&self, key: &str) -> (r: Option<&TomlValue>)
        ensures
            r matches Some(v) ==> table_get(*self, key@) == Some(*v),
            r is None ==> table_get(*self, key@) is None,
    {
        let n = self.entries.len();
        let mut i: usize = 0;
        while i < n
            invariant
                n == self.entries@.len(),
                i <= n,
                forall|j: int| 0 <= j < i ==> (#[trigger] self.entries@[j]).0@ != key@,
            decreases n - i,
        {
            if str_equals(self.entries[i].0.as_str(), key) {
                proof {
                    lemma_lookup_skip(self.entries@, key@, i as int);
                }
                return Some(&self.entries[i].1);
            }
            i = i + 1;
        }
        proof {
            lemma_lookup_skip(self.entries@, key@, n as int);
        }
        None
    }
}

impl TomlValue {
    pub fn as_str(&self) -> (r: Option<&String>)
        ensures
            r matches Some(s) ==> value_str(*self) == Some(*s),
            r is None ==> value_str(*self) is None,
    {
        match self {
            TomlValue::String(s) => Some(s),
            _ => None,
        }
    }

    pub fn as_integer(&self) -> (r: Option<i64>)
        ensures
            r == value_integer(*self),
    {
        match self {
            TomlValue::Integer(i) => Some(*i),
            _ => None,
        }
    }

    pub fn as_bool(&self) -> (r: Option<bool>)
        ensures
            r == value_bool(*self),
    {
        match self {
            TomlValue::Boolean(b) => Some(*b),
            _ => None,
        }
    }

    pub fn as_array(&self) -> (r: Option<&Vec<TomlValue>>)
        ensures
            r matches Some(items) ==> value_array(*self) == Some(items@),
            r is None ==> value_array(*self) is None,
    {
        match self {
            TomlValue::Array(items) => Some(items),
            _ => None,
        }
    }

    pub fn as_table(&self) -> (r: Option<&TomlTable>)
        ensures
            r matches Some(t) ==> value_table(*self) == Some(*t),
            r is None ==> value_table(*self) is None,
    {
        match self {
            TomlValue::Table(t) => Some(t),
            _ => None,
        }
    }
}

} // verus!
