//! The administrator's command that sets a guild's prefix. It writes through:
//! to the store, which the next start reads, and, once the store has the
//! row, to the cache, which the next message reads.

use crate::cache::Prefixes;
use crate::numeral::decimal;
use crate::store::{guild_key, upserted, PrefixRow, PrefixTable, StoreFailure};
use vstd::prelude::*;
use vstd::string::StringExecFns;

verus! {

/// Why `setprefix` set nothing.
#[derive(Clone, Debug, PartialEq, Eq)]
pub enum SetPrefixError {
    /// The command came without a prefix.
    MissingArgument,
    /// The command came from outside of any guild.
    NotInGuild,
    /// The store did not write the row; the cache is as it was.
    Store(StoreFailure),
}

/// What the error reads as; a failure of the store reads as the database
/// said.
pub open spec fn set_prefix_error_text(e: SetPrefixError) -> Seq<char> {
    match e {
        SetPrefixError::MissingArgument => "Arg.single was None"@,
        SetPrefixError::NotInGuild => "guild_id was None"@,
        SetPrefixError::Store(failure) => failure.text@,
    }
}

impl SetPrefixError {
    /// What the error reads as.
    pub fn message(&self) -> (m: String)
        ensures
            m@ == set_prefix_error_text(*self),
    {
        match self {
            SetPrefixError::MissingArgument => String::from_str("Arg.single was None"),
            SetPrefixError::NotInGuild => String::from_str("guild_id was None"),
            SetPrefixError::Store(failure) => failure.text.clone(),
        }
    }
}

/// What the command answers once the prefix is set.
pub open spec fn set_prefix_reply() -> Seq<char> {
    "Set prefix!"@
}

/// First half of the command: checks the argument, then the guild; where
/// both are there, hands back the guild and the row that the store is to be
/// given. Nothing is written yet.
pub fn setprefix_begin(arg: Option<String>, guild_id: Option<u64>) -> (r: Result<
    (u64, PrefixRow),
    SetPrefixError,
>)
    ensures
        match (arg, guild_id) {
            (None, _) => r == Err::<(u64, PrefixRow), SetPrefixError>(
                SetPrefixError::MissingArgument,
            ),
            (Some(_), None) => r == Err::<(u64, PrefixRow), SetPrefixError>(
                SetPrefixError::NotInGuild,
            ),
            (Some(prefix), Some(g)) => {
                &&& r matches Ok((h, row))
                &&& h == g
                &&& row@ == (decimal(g as nat), prefix@)
            },
        },
{
    let prefix = match arg {
        Some(prefix) => prefix,
        None => {
            return Err(SetPrefixError::MissingArgument);
        },
    };
    let g = match guild_id {
        Some(g) => g,
        None => {
            return Err(SetPrefixError::NotInGuild);
        },
    };
    Ok((g, PrefixRow { guild_id: guild_key(g), prefix }))
}

/// Second half of the command, once the store has answered. Where the row
/// was written, the cache is written too and the reply is given; where it
/// was not, the cache stays as it was, so that it never holds what the store
/// does not, and the store's failure is handed on.
pub fn setprefix_finish(
    prefixes: &mut Prefixes,
    guild_id: u64,
    prefix: String,
    written: Result<u64, StoreFailure>,
) -> (r: Result<String, SetPrefixError>)
    ensures
        match written {
            Ok(_) => {
                &&& r matches Ok(reply)
                &&& reply@ == set_prefix_reply()
                &&& final(prefixes)@ == old(prefixes)@.insert(guild_id, prefix@)
            },
            Err(e) => {
                &&& r == Err::<String, SetPrefixError>(SetPrefixError::Store(e))
                &&& final(prefixes)@ == old(prefixes)@
            },
        },
{
    match written {
        Ok(_) => {
            prefixes.update(guild_id, prefix);
            Ok(String::from_str("Set prefix!"))
        },
        Err(e) => Err(SetPrefixError::Store(e)),
    }
}

/// The whole command against a table in memory: argument and guild are
/// checked in that order; where both are there, the guild's prefix is set in
/// the table and then in the cache, and the reply is given.
pub fn setprefix(
    prefixes: &mut Prefixes,
    table: &mut PrefixTable,
    arg: Option<String>,
    guild_id: Option<u64>,
) -> (r: Result<String, SetPrefixError>)
    ensures
        match (arg, guild_id) {
            (None, _) => {
                &&& r == Err::<String, SetPrefixError>(SetPrefixError::MissingArgument)
                &&& final(prefixes)@ == old(prefixes)@
                &&& final(table).rows() == old(table).rows()
            },
            (Some(_), None) => {
                &&& r == Err::<String, SetPrefixError>(SetPrefixError::NotInGuild)
                &&& final(prefixes)@ == old(prefixes)@
                &&& final(table).rows() == old(table).rows()
            },
            (Some(prefix), Some(g)) => {
                &&& r matches Ok(reply)
                &&& reply@ == set_prefix_reply()
                &&& final(prefixes)@ == old(prefixes)@.insert(g, prefix@)
                &&& final(table).rows() == upserted(
                    old(table).rows(),
                    decimal(g as nat),
                    prefix@,
                )
                &&& final(table)@ == old(table)@.insert(decimal(g as nat), prefix@)
            },
        },
{
    match setprefix_begin(arg, guild_id) {
        Ok((g, row)) => {
            let prefix = row.prefix.clone();
            table.upsert(row);
            setprefix_finish(prefixes, g, prefix, Ok(1))
        },
        Err(e) => Err(e),
    }
}

} // verus!
