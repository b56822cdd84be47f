//! The configuration table in memory.

use crate::table::{
    parse_table, parsed_entries, render_table, rendered_text, table_clone, table_entries,
    table_get, table_insert, value_clone,
};
use toml::{Table, Value};
use vstd::prelude::*;

verus! {

/// Why the store could not do what was asked.
#[derive(Debug)]
pub enum ConfigError {
    /// The text of the configuration file is no TOML document.
    Parse(toml::de::Error),
    /// The table holds a value that cannot be written as TOML.
    Render(toml::ser::Error),
}

/// The configuration: a table from keys to values of any shape.
pub struct Config {
    pub config_toml: Table,
}

impl View for Config {
    type V = Map<Seq<char>, Value>;

    open spec fn view(&self) -> Map<Seq<char>, Value> {
        table_entries(self.config_toml)
    }
}

/// What a lookup gives: the value stored under the key, or else the default.
pub open spec fn spec_get(entries: Map<Seq<char>, Value>, key: Seq<char>, default: Value) -> Value {
    if entries.contains_key(key) {
        entries[key]
    } else {
        default
    }
}

/// What storing a value under a key makes of the entries: the key now leads to
/// the value, and every other key to what it led to before.
pub open spec fn spec_set(entries: Map<Seq<char>, Value>, key: Seq<char>, value: Value) -> Map<
    Seq<char>,
    Value,
> {
    entries.insert(key, value)
}

impl Config {
    /// Makes the store of what the parser gave: the table as it is, or the
    /// parser's error as the store's.
    pub fn from_parsed(parsed: Result<Table, toml::de::Error>) -> (loaded: Result<
        Config,
        ConfigError,
    >)
        ensures
            match parsed {
                Ok(table) => loaded matches Ok(config) && config.config_toml == table,
                Err(cause) => loaded matches Err(ConfigError::Parse(e)) && e == cause,
            },
    {
        match parsed {
            Ok(table) => Ok(Config { config_toml: table }),
            Err(cause) => Err(ConfigError::Parse(cause)),
        }
    }

    /// Loads the store from the text of the configuration file.
    ///
    /// Succeeds exactly on the texts that are TOML documents, and then holds
    /// the entries of the document, all of them and no others.
    pub fn init_config(contents: &str) -> (loaded: Result<Config, ConfigError>)
        ensures
            match parsed_entries(contents@) {
                Some(entries) => loaded matches Ok(config) && config@ == entries,
                None => loaded matches Err(ConfigError::Parse(_)),
            },
    {
        Config::from_parsed(parse_table(contents))
    }

    /// The value stored under `key`, or `default` where nothing is stored
    /// under it. The default is handed back as it came, whatever its shape.
    pub fn get(&self, key: &str, default: Value) -> (value: Value)
        ensures
            value == spec_get(self@, key@, default),
            !self@.contains_key(key@) ==> value == default,
    {
        match table_get(&self.config_toml, key) {
            Some(v) => value_clone(v),
            None => default,
        }
    }

    /// Stores `value` under `key`, in place of whatever was stored there.
    /// Only the table in memory changes.
    pub fn set(&mut self, key: &str, value: Value)
        ensures
            final(self)@ == spec_set(old(self)@, key@, value),
    {
        table_insert(&mut self.config_toml, key.to_string(), value);
    }

    /// Makes the store's answer of what the writer gave: the text as it is,
    /// or the writer's error as the store's.
    pub fn from_rendered(rendered: Result<String, toml::ser::Error>) -> (text: Result<
        String,
        ConfigError,
    >)
        ensures
            match rendered {
                Ok(written) => text matches Ok(t) && t == written,
                Err(cause) => text matches Err(ConfigError::Render(e)) && e == cause,
            },
    {
        match rendered {
            Ok(written) => Ok(written),
            Err(cause) => Err(ConfigError::Render(cause)),
        }
    }

    /// The whole table as the text of a TOML document, ready to be saved in
    /// place of the configuration file's contents. The store is not changed.
    ///
    /// Succeeds exactly on the tables that TOML can express.
    pub fn write(&self) -> (text: Result<String, ConfigError>)
        ensures
            match rendered_text(self@) {
                Some(document) => text matches Ok(t) && t@ == document,
                None => text matches Err(ConfigError::Render(_)),
            },
    {
        Config::from_rendered(render_table(&self.config_toml))
    }
}

/// A full copy of the table as it is in memory, for inspection. The store is
/// not changed, and later changes to it do not reach the copy.
pub fn get_config_str(state: &Config) -> (table: Table)
    ensures
        table_entries(table) == state@,
{
    table_clone(&state.config_toml)
}

/// What a run of stores makes of the entries: each pair of key and value is
/// stored in turn, the first of the run first.
pub open spec fn spec_set_all(
    entries: Map<Seq<char>, Value>,
    writes: Seq<(Seq<char>, Value)>,
) -> Map<Seq<char>, Value>
    decreases writes.len(),
{
    if writes.len() == 0 {
        entries
    } else {
        spec_set(spec_set_all(entries, writes.drop_last()), writes.last().0, writes.last().1)
    }
}

/// The keys of a run of stores differ from one another.
pub open spec fn distinct_keys(writes: Seq<(Seq<char>, Value)>) -> bool {
    forall|i: int, j: int| 0 <= i < j < writes.len() ==> writes[i].0 != writes[j].0
}

/// A lookup of a key under which nothing is stored gives the default, as it
/// was handed in.
pub proof fn lemma_get_absent(entries: Map<Seq<char>, Value>, key: Seq<char>, default: Value)
    requires
        !entries.contains_key(key),
    ensures
        spec_get(entries, key, default) == default,
{
}

/// After a value is stored under a key, a lookup of that key gives that
/// value, whatever default the lookup names.
pub proof fn lemma_get_after_set(
    entries: Map<Seq<char>, Value>,
    key: Seq<char>,
    value: Value,
    default: Value,
)
    ensures
        spec_get(spec_set(entries, key, value), key, default) == value,
{
}

/// Storing a value under one key changes no lookup of another key.
pub proof fn lemma_set_keeps_others(
    entries: Map<Seq<char>, Value>,
    key: Seq<char>,
    value: Value,
    other: Seq<char>,
    default: Value,
)
    requires
        other != key,
    ensures
        spec_get(spec_set(entries, key, value), other, default) == spec_get(
            entries,
            other,
            default,
        ),
{
}

/// After a run of stores under keys that differ from one another, in whatever
/// order the stores were made, every one of the keys leads to the value that
/// was stored under it, and every other key to what it led to before.
pub proof fn lemma_set_all_distinct(
    entries: Map<Seq<char>, Value>,
    writes: Seq<(Seq<char>, Value)>,
    default: Value,
)
    requires
        distinct_keys(writes),
    ensures
        forall|i: int|
            0 <= i < writes.len() ==> spec_get(
                spec_set_all(entries, writes),
                #[trigger] writes[i].0,
                default,
            ) == writes[i].1,
        forall|key: Seq<char>|
            (forall|i: int| 0 <= i < writes.len() ==> writes[i].0 != key) ==> spec_get(
                spec_set_all(entries, writes),
                key,
                default,
            ) == spec_get(entries, key, default),
    decreases writes.len(),
{
    if writes.len() > 0 {
        let earlier = writes.drop_last();
        let last = writes.len() - 1;
        lemma_set_all_distinct(entries, earlier, default);
        assert forall|i: int| 0 <= i < writes.len() implies spec_get(
            spec_set_all(entries, writes),
            #[trigger] writes[i].0,
            default,
        ) == writes[i].1 by {
            if i < last {
                assert(earlier[i].0 != writes[last].0);
            }
        }
    }
}

} // verus!
