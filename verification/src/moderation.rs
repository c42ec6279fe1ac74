//! The moderators' commands: who is banned, who is let back in, and how
//! slow a channel is made.

use crate::numeral::{parse_u64, parse_u64_spec};
use vstd::prelude::*;

verus! {

/// Why a moderator's command did nothing.
#[derive(Clone, Copy, Debug, PartialEq, Eq, Structural)]
pub enum ModerationError {
    /// The message mentions nobody.
    NoTarget,
    /// The command came from outside of any guild.
    NotInGuild,
    /// The guild is not among those that the bot has in memory.
    GuildNotCached,
    /// The command came without the number it needs.
    NoArgument,
    /// What came in place of the number is none.
    NotANumber,
}

/// What the error reads as. The last two have no text of the bot's own.
pub open spec fn moderation_error_text(e: ModerationError) -> Option<Seq<char>> {
    match e {
        ModerationError::NoTarget => Some("No mentioned target."@),
        ModerationError::NotInGuild => Some("Failed to get GuildId from Message"@),
        ModerationError::GuildNotCached => Some("Failed to get Guild from GuildId"@),
        ModerationError::NoArgument => None,
        ModerationError::NotANumber => None,
    }
}

impl ModerationError {
    /// What the error reads as.
    pub fn message(&self) -> (m: Option<&'static str>)
        ensures
            match m {
                Some(text) => moderation_error_text(*self) == Some(text@),
                None => moderation_error_text(*self) is None,
            },
    {
        match self {
            ModerationError::NoTarget => Some("No mentioned target."),
            ModerationError::NotInGuild => Some("Failed to get GuildId from Message"),
            ModerationError::GuildNotCached => Some("Failed to get Guild from GuildId"),
            ModerationError::NoArgument => None,
            ModerationError::NotANumber => None,
        }
    }
}

/// A ban that is to be carried out: who, where, and of how many days the
/// messages are deleted.
#[derive(Clone, Copy, Debug, PartialEq, Eq, Structural)]
pub struct Ban {
    pub guild_id: u64,
    pub user_id: u64,
    pub delete_message_days: u8,
}

/// The guild of a command, where the bot has it in memory.
pub open spec fn guild_for(guild_id: Option<u64>, cached: bool) -> Result<u64, ModerationError> {
    match guild_id {
        None => Err(ModerationError::NotInGuild),
        Some(g) => if cached {
            Ok(g)
        } else {
            Err(ModerationError::GuildNotCached)
        },
    }
}

/// Who `ban` bans: the first user that the message mentions, in the
/// guild of the message; none of the user's messages are deleted.
pub open spec fn ban_for(mentions: Seq<u64>, guild_id: Option<u64>, cached: bool) -> Result<
    Ban,
    ModerationError,
> {
    if mentions.len() == 0 {
        Err(ModerationError::NoTarget)
    } else {
        match guild_for(guild_id, cached) {
            Ok(g) => Ok(Ban { guild_id: g, user_id: mentions[0], delete_message_days: 0 }),
            Err(e) => Err(e),
        }
    }
}

/// The guild of a command, where the bot has it in memory.
pub fn guild_of(guild_id: Option<u64>, cached: bool) -> (r: Result<u64, ModerationError>)
    ensures
        r == guild_for(guild_id, cached),
{
    match guild_id {
        None => Err(ModerationError::NotInGuild),
        Some(g) => {
            if cached {
                Ok(g)
            } else {
                Err(ModerationError::GuildNotCached)
            }
        },
    }
}

/// The ban that the command asks for. `mentions` holds the users that the
/// message mentions, in order.
pub fn ban(mentions: &Vec<u64>, guild_id: Option<u64>, cached: bool) -> (r: Result<
    Ban,
    ModerationError,
>)
    ensures
        r == ban_for(mentions@, guild_id, cached),
{
    if mentions.len() == 0 {
        return Err(ModerationError::NoTarget);
    }
    match guild_of(guild_id, cached) {
        Ok(g) => Ok(Ban { guild_id: g, user_id: mentions[0], delete_message_days: 0 }),
        Err(e) => Err(e),
    }
}

/// One entry of a guild's list of bans: the user's tag and identifier.
#[derive(Clone, Debug, PartialEq, Eq)]
pub struct Banned {
    pub tag: String,
    pub user_id: u64,
}

/// The users of the list whose tag is `target`, in the list's order.
pub open spec fn unbanned(bans: Seq<Banned>, target: Seq<char>) -> Seq<u64>
    decreases bans.len(),
{
    if bans.len() == 0 {
        Seq::empty()
    } else if bans.last().tag@ == target {
        unbanned(bans.drop_last(), target).push(bans.last().user_id)
    } else {
        unbanned(bans.drop_last(), target)
    }
}

/// Who `unban` lets back in: every banned user whose tag is `target`.
pub fn unban(bans: &Vec<Banned>, target: &str) -> (users: Vec<u64>)
    ensures
        users@ == unbanned(bans@, target@),
{
    let wanted = target.to_owned();
    let mut users: Vec<u64> = Vec::new();
    let mut i: usize = 0;
    assert(bans@.take(0) =~= Seq::<Banned>::empty());
    while i < bans.len()
        invariant
            i <= bans.len(),
            wanted@ == target@,
            users@ == unbanned(bans@.take(i as int), target@),
        decreases bans.len() - i,
    {
        let ghost seen = bans@.take(i as int);
        let ghost next = bans@.take(i + 1);
        assert(next.drop_last() =~= seen);
        assert(next.last() == bans@[i as int]);
        if bans[i].tag == wanted {
            users.push(bans[i].user_id);
        }
        i += 1;
    }
    assert(bans@.take(i as int) =~= bans@);
    users
}

/// The seconds between two messages that `setslowmode` asks for: the
/// argument read as a number.
pub open spec fn slowmode_for(arg: Option<Seq<char>>) -> Result<u64, ModerationError> {
    match arg {
        None => Err(ModerationError::NoArgument),
        Some(a) => match parse_u64_spec(a) {
            Some(seconds) => Ok(seconds),
            None => Err(ModerationError::NotANumber),
        },
    }
}

/// The slow mode rate that the command asks for.
pub fn setslowmode(arg: Option<&str>) -> (r: Result<u64, ModerationError>)
    ensures
        r == slowmode_for(
            match arg {
                Some(a) => Some(a@),
                None => None,
            },
        ),
{
    match arg {
        None => Err(ModerationError::NoArgument),
        Some(a) => match parse_u64(a) {
            Some(seconds) => Ok(seconds),
            None => Err(ModerationError::NotANumber),
        },
    }
}

} // verus!
