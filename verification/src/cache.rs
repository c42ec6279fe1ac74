//! The prefix cache: every guild's custom prefix in memory, read for each
//! incoming message and written when an administrator sets a prefix.

use crate::store::{
    get_all_prefixes, prefix_views, prefixes_of_rows, PrefixTable, StoreError,
};
use std::collections::HashMap;
use vstd::prelude::*;
use vstd::string::StringExecFns;

verus! {

/// The prefix of a guild that has none of its own.
pub open spec fn default_prefix() -> Seq<char> {
    seq!['.']
}

/// The prefix that commands take in `guild_id`, given what the cache holds:
/// the guild's own where it has one, the default otherwise and outside of
/// any guild.
pub open spec fn prefix_for(cache: Map<u64, Seq<char>>, guild_id: Option<u64>) -> Seq<char> {
    match guild_id {
        Some(g) if cache.contains_key(g) => cache[g],
        _ => default_prefix(),
    }
}

/// The default prefix as a string.
pub fn default_prefix_string() -> (s: String)
    ensures
        s@ == default_prefix(),
{
    proof {
        reveal_strlit(".");
    }
    let s = String::from_str(".");
    assert(s@ =~= default_prefix());
    s
}

/// What a read of the store comes to: the prefix that was found, the
/// default where none was found or the store failed.
pub open spec fn found_or_default(found: Result<String, StoreError>) -> Seq<char> {
    match found {
        Ok(prefix) => prefix@,
        Err(_) => default_prefix(),
    }
}

/// The prefix to go on with after a read of the store: a guild without a
/// row has the default prefix, and so has every guild while the store
/// cannot be read.
pub fn prefix_or_default(found: Result<String, StoreError>) -> (prefix: String)
    ensures
        prefix@ == found_or_default(found),
{
    match found {
        Ok(prefix) => prefix,
        Err(_) => default_prefix_string(),
    }
}

/// The custom prefixes, by guild.
pub struct Prefixes {
    cache: HashMap<u64, String>,
}

impl View for Prefixes {
    type V = Map<u64, Seq<char>>;

    closed spec fn view(&self) -> Map<u64, Seq<char>> {
        prefix_views(self.cache@)
    }
}

impl Prefixes {
    /// A cache that holds no prefix.
    pub fn new() -> (p: Prefixes)
        ensures
            p@ == Map::<u64, Seq<char>>::empty(),
    {
        let p = Prefixes { cache: HashMap::new() };
        assert(p@ =~= Map::<u64, Seq<char>>::empty());
        p
    }

    /// A cache that holds what `map` holds.
    pub fn from_map(map: HashMap<u64, String>) -> (p: Prefixes)
        ensures
            p@ == prefix_views(map@),
    {
        Prefixes { cache: map }
    }

    /// Warms the cache up from the store: every row of the table, or the
    /// store's error where a row cannot be read.
    pub fn load(table: &PrefixTable) -> (r: Result<Prefixes, StoreError>)
        ensures
            match r {
                Ok(p) => prefixes_of_rows(table.rows()) == Ok::<Map<u64, Seq<char>>, StoreError>(
                    p@,
                ),
                Err(e) => prefixes_of_rows(table.rows()) == Err::<Map<u64, Seq<char>>, StoreError>(
                    e,
                ),
            },
    {
        match get_all_prefixes(table) {
            Ok(map) => Ok(Prefixes::from_map(map)),
            Err(e) => Err(e),
        }
    }

    /// The cache to start with after a load of the store: what was loaded,
    /// or nothing where the load failed, so that every guild has the
    /// default prefix.
    pub fn warm(loaded: Result<HashMap<u64, String>, StoreError>) -> (p: Prefixes)
        ensures
            match loaded {
                Ok(map) => p@ == prefix_views(map@),
                Err(_) => p@ == Map::<u64, Seq<char>>::empty(),
            },
    {
        match loaded {
            Ok(map) => Prefixes::from_map(map),
            Err(_) => Prefixes::new(),
        }
    }

    /// The number of guilds that have a prefix of their own.
    pub fn len(&self) -> (n: usize)
        ensures
            n == self@.len(),
            self@.dom().finite(),
    {
        broadcast use vstd::std_specs::hash::group_hash_axioms;

        assert(self@.dom() =~= self.cache@.dom());
        self.cache.len()
    }

    /// The guild's custom prefix, if it has one.
    pub fn lookup(&self, guild_id: u64) -> (r: Option<String>)
        ensures
            match r {
                Some(prefix) => self@.contains_key(guild_id) && prefix@ == self@[guild_id],
                None => !self@.contains_key(guild_id),
            },
    {
        broadcast use vstd::std_specs::hash::group_hash_axioms;

        match self.cache.get(&guild_id) {
            Some(prefix) => Some(prefix.clone()),
            None => None,
        }
    }

    /// Sets the guild's prefix, in place of the one it had.
    pub fn update(&mut self, guild_id: u64, prefix: String)
        ensures
            final(self)@ == old(self)@.insert(guild_id, prefix@),
    {
        broadcast use vstd::std_specs::hash::group_hash_axioms;

        self.cache.insert(guild_id, prefix);
        assert(self@ =~= old(self)@.insert(guild_id, prefix@));
    }

    /// The prefix that a message from `guild_id` is read with; `None` stands
    /// for a message outside of any guild.
    pub fn resolve(&self, guild_id: Option<u64>) -> (prefix: String)
        ensures
            prefix@ == prefix_for(self@, guild_id),
    {
        match guild_id {
            Some(g) => match self.lookup(g) {
                Some(prefix) => prefix,
                None => default_prefix_string(),
            },
            None => default_prefix_string(),
        }
    }
}

} // verus!
