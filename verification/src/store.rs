//! The record store: three tables keyed by id, and lookup by id.

use crate::pokemon::{Pokemon, PokemonView};
use crate::table::{parse_table, parsed_table, table_view};
use std::collections::HashMap;
use vstd::prelude::*;

verus! {

/// Why a store could not be loaded: the first payload that is malformed.
#[derive(Clone, Copy, Debug, PartialEq, Eq, Structural)]
pub enum LoadError {
    MalformedNames,
    MalformedPrefixes,
    MalformedSuffixes,
}

/// What a [`PokemonDb`] holds: the three tables. Their key sets need not
/// agree.
pub struct DbView {
    pub names: Map<usize, Seq<char>>,
    pub prefixes: Map<usize, Seq<char>>,
    pub suffixes: Map<usize, Seq<char>>,
}

/// The entry of `table` under `id`, if it has one.
pub open spec fn entry(table: Map<usize, Seq<char>>, id: usize) -> Option<Seq<char>> {
    if table.contains_key(id) {
        Some(table[id])
    } else {
        None
    }
}

impl DbView {
    /// The name filed under `id`.
    pub open spec fn name(self, id: usize) -> Option<Seq<char>> {
        entry(self.names, id)
    }

    /// The prefix filed under `id`.
    pub open spec fn prefix(self, id: usize) -> Option<Seq<char>> {
        entry(self.prefixes, id)
    }

    /// The suffix filed under `id`.
    pub open spec fn suffix(self, id: usize) -> Option<Seq<char>> {
        entry(self.suffixes, id)
    }

    /// Whether all three tables have an entry under `id`.
    pub open spec fn complete(self, id: usize) -> bool {
        &&& self.names.contains_key(id)
        &&& self.prefixes.contains_key(id)
        &&& self.suffixes.contains_key(id)
    }

    /// The Pokémon filed under `id`: assembled from the three tables where
    /// all of them have an entry, absent otherwise.
    pub open spec fn pokemon(self, id: usize) -> Option<PokemonView> {
        if self.complete(id) {
            Some(
                PokemonView {
                    name: self.names[id],
                    prefix: self.prefixes[id],
                    suffix: self.suffixes[id],
                },
            )
        } else {
            None
        }
    }
}

/// Lookup is a strict conjunction: an id that any of the three tables
/// lacks has no Pokémon, and an id that all three hold has one.
pub proof fn lemma_lookup_needs_all_three(store: DbView, id: usize)
    ensures
        store.pokemon(id).is_some() <==> store.name(id).is_some() && store.prefix(id).is_some()
            && store.suffix(id).is_some(),
        !store.complete(id) ==> store.pokemon(id).is_none(),
{
}

/// The outcome of loading a store from three payloads, given what each
/// payload parses to: the store of the three tables, or the first payload
/// that is malformed.
pub open spec fn load_outcome(
    names: Option<Map<usize, Seq<char>>>,
    prefixes: Option<Map<usize, Seq<char>>>,
    suffixes: Option<Map<usize, Seq<char>>>,
) -> Result<DbView, LoadError> {
    match (names, prefixes, suffixes) {
        (None, _, _) => Err(LoadError::MalformedNames),
        (Some(_), None, _) => Err(LoadError::MalformedPrefixes),
        (Some(_), Some(_), None) => Err(LoadError::MalformedSuffixes),
        (Some(names), Some(prefixes), Some(suffixes)) => Ok(
            DbView { names, prefixes, suffixes },
        ),
    }
}

/// The store. It is filled once and never changes afterwards.
pub struct PokemonDb {
    names: HashMap<usize, String>,
    prefixes: HashMap<usize, String>,
    suffixes: HashMap<usize, String>,
}

impl View for PokemonDb {
    type V = DbView;

    closed spec fn view(&self) -> DbView {
        DbView {
            names: table_view(&self.names),
            prefixes: table_view(&self.prefixes),
            suffixes: table_view(&self.suffixes),
        }
    }
}

/// The view of a loading result.
pub open spec fn loaded_view(loaded: Result<PokemonDb, LoadError>) -> Result<DbView, LoadError> {
    match loaded {
        Ok(db) => Ok(db@),
        Err(error) => Err(error),
    }
}

/// Lookup is deterministic: two results of looking `id` up in the same
/// store are equal.
pub proof fn lemma_lookup_is_deterministic(
    db: PokemonDb,
    id: usize,
    first: Option<Pokemon>,
    second: Option<Pokemon>,
)
    requires
        first.deep_view() == db@.pokemon(id),
        second.deep_view() == db@.pokemon(id),
    ensures
        first.deep_view() == second.deep_view(),
{
}

/// A copy of the entry of `table` under `id`, if it has one.
fn lookup(table: &HashMap<usize, String>, id: usize) -> (found: Option<String>)
    ensures
        found.deep_view() == entry(table_view(table), id),
{
    match table.get(&id) {
        Some(text) => Some(text.clone()),
        None => None,
    }
}

impl PokemonDb {
    /// The store of the three given tables.
    pub fn from_tables(
        names: HashMap<usize, String>,
        prefixes: HashMap<usize, String>,
        suffixes: HashMap<usize, String>,
    ) -> (db: PokemonDb)
        ensures
            db@ == (DbView {
                names: table_view(&names),
                prefixes: table_view(&prefixes),
                suffixes: table_view(&suffixes),
            }),
    {
        PokemonDb { names, prefixes, suffixes }
    }

    /// Loads the store from the JSON payloads of its three tables. Fails
    /// with the first payload that is malformed.
    pub fn try_load(names: &str, prefixes: &str, suffixes: &str) -> (loaded: Result<
        PokemonDb,
        LoadError,
    >)
        ensures
            loaded_view(loaded) == load_outcome(
                parsed_table(names@),
                parsed_table(prefixes@),
                parsed_table(suffixes@),
            ),
    {
        let names = match parse_table(names) {
            Ok(table) => table,
            Err(_) => {
                return Err(LoadError::MalformedNames);
            },
        };
        let prefixes = match parse_table(prefixes) {
            Ok(table) => table,
            Err(_) => {
                return Err(LoadError::MalformedPrefixes);
            },
        };
        let suffixes = match parse_table(suffixes) {
            Ok(table) => table,
            Err(_) => {
                return Err(LoadError::MalformedSuffixes);
            },
        };
        Ok(PokemonDb::from_tables(names, prefixes, suffixes))
    }

    /// The name filed under `id`, if there is one.
    pub fn name(&self, id: usize) -> (found: Option<String>)
        ensures
            found.deep_view() == self@.name(id),
    {
        lookup(&self.names, id)
    }

    /// The prefix filed under `id`, if there is one.
    pub fn prefix(&self, id: usize) -> (found: Option<String>)
        ensures
            found.deep_view() == self@.prefix(id),
    {
        lookup(&self.prefixes, id)
    }

    /// The suffix filed under `id`, if there is one.
    pub fn suffix(&self, id: usize) -> (found: Option<String>)
        ensures
            found.deep_view() == self@.suffix(id),
    {
        lookup(&self.suffixes, id)
    }

    /// The Pokémon filed under `id`: present only where all three tables
    /// have an entry under `id`.
    pub fn pokemon(&self, id: usize) -> (found: Option<Pokemon>)
        ensures
            found.deep_view() == self@.pokemon(id),
    {
        let name = match self.name(id) {
            Some(name) => name,
            None => {
                return None;
            },
        };
        let prefix = match self.prefix(id) {
            Some(prefix) => prefix,
            None => {
                return None;
            },
        };
        let suffix = match self.suffix(id) {
            Some(suffix) => suffix,
            None => {
                return None;
            },
        };
        Some(Pokemon::new(name, prefix, suffix))
    }
}

} // verus!
