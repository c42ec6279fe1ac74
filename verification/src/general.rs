//! The commands for everybody: about the bot, about a user, about the
//! guild, and the latency.

use crate::embed::{
    empty_embed, AuthorView, Colour, Embed, EmbedAuthor, EmbedFooter, EmbedView,
    FieldView, FooterView,
};
use crate::numeral::{
    decimal, push_decimal, push_decimal_u128, push_signed, push_zero_padded, signed_decimal,
    zero_padded,
};
use crate::text::{opt_chars, texts};
use vstd::prelude::*;
use vstd::string::StringExecFns;

verus! {

/// Why a command for everybody did nothing.
#[derive(Clone, Copy, Debug, PartialEq, Eq, Structural)]
pub enum GeneralError {
    /// The command came from outside of any guild.
    NotInGuild,
    /// The guild is not among those that the bot has in memory.
    GuildNotCached,
    /// The shard that serves the command is not among the running ones.
    NoShard,
    /// The shard has not measured its latency yet.
    NoLatency,
}

/// What the error reads as.
pub open spec fn general_error_text(e: GeneralError) -> Seq<char> {
    match e {
        GeneralError::NotInGuild => "Failed to get GuildID from Message."@,
        GeneralError::GuildNotCached => "Failed to get Guild from GuildID"@,
        GeneralError::NoShard => "Failed to get Shard."@,
        GeneralError::NoLatency => "Failed to get latency from shard."@,
    }
}

impl GeneralError {
    /// What the error reads as.
    pub fn message(&self) -> (m: &'static str)
        ensures
            m@ == general_error_text(*self),
    {
        match self {
            GeneralError::NotInGuild => "Failed to get GuildID from Message.",
            GeneralError::GuildNotCached => "Failed to get Guild from GuildID",
            GeneralError::NoShard => "Failed to get Shard.",
            GeneralError::NoLatency => "Failed to get latency from shard.",
        }
    }
}

/// The guild that a command came from, or `NotInGuild`.
pub fn require_guild(guild_id: Option<u64>) -> (r: Result<u64, GeneralError>)
    ensures
        match guild_id {
            Some(g) => r == Ok::<u64, GeneralError>(g),
            None => r == Err::<u64, GeneralError>(GeneralError::NotInGuild),
        },
{
    match guild_id {
        Some(g) => Ok(g),
        None => Err(GeneralError::NotInGuild),
    }
}

/// A field that stands alone in its row.
pub open spec fn block_field(name: Seq<char>, value: Seq<char>) -> FieldView {
    FieldView { name, value, inline: false }
}

/// A field that shares its row.
pub open spec fn inline_field(name: Seq<char>, value: Seq<char>) -> FieldView {
    FieldView { name, value, inline: true }
}

/// The embed of `about`: it leads to the bot's invitation and names its
/// authors and its source.
pub open spec fn about_view(
    face: Seq<char>,
    invite_url: Seq<char>,
    bot_name: Seq<char>,
    authors: Seq<char>,
) -> EmbedView {
    EmbedView {
        url: Some(invite_url),
        colour: Some(Colour::Rgb(0x00D2_5148)),
        description: Some("A battle maid for the Great Tomb of Nazarick"@),
        title: Some(bot_name),
        author: Some(AuthorView { name: bot_name, icon_url: Some(face) }),
        fields: seq![
            block_field("Authors"@, authors),
            block_field("Source Code"@, "https://github.com/flat/lupusregina-"@),
        ],
        ephemeral: true,
        ..empty_embed()
    }
}

/// Shows information about the bot.
pub fn about(face: String, invite_url: String, bot_name: &str, authors: &str) -> (e: Embed)
    ensures
        e@ == about_view(face@, invite_url@, bot_name@, authors@),
{
    let mut e = Embed::new();
    e.url = Some(invite_url);
    e.colour = Some(Colour::Rgb(0x00D2_5148));
    e.description = Some(String::from_str("A battle maid for the Great Tomb of Nazarick"));
    e.title = Some(String::from_str(bot_name));
    e.author = Some(EmbedAuthor { name: String::from_str(bot_name), icon_url: Some(face) });
    e.field(String::from_str("Authors"), String::from_str(authors), false);
    e.field(
        String::from_str("Source Code"),
        String::from_str("https://github.com/flat/lupusregina-"),
        false,
    );
    e.ephemeral = true;
    assert(e@.fields =~= about_view(face@, invite_url@, bot_name@, authors@).fields);
    e
}

/// What `userinfo` shows of a user. `created_at` and `joined_at` are the
/// times as they are to be shown.
#[derive(Clone, Debug, PartialEq, Eq)]
pub struct UserInfo {
    pub name: String,
    pub face: String,
    pub discriminator: u16,
    pub id: u64,
    pub nick: Option<String>,
    pub created_at: String,
    pub joined_at: Option<String>,
}

/// The embed of `userinfo`: the discriminator is filled up to four
/// digits; a user without nickname has `None`, one whose time of joining
/// is not known has `Unavailable`.
pub open spec fn userinfo_view(u: UserInfo) -> EmbedView {
    EmbedView {
        author: Some(AuthorView { name: u.name@, icon_url: Some(u.face@) }),
        fields: seq![
            inline_field("Discriminator"@, "#"@ + zero_padded(u.discriminator as int, 4)),
            inline_field("User ID"@, decimal(u.id as nat)),
            inline_field(
                "Nickname"@,
                match u.nick {
                    Some(n) => n@,
                    None => "None"@,
                },
            ),
            inline_field("User Created"@, u.created_at@),
            inline_field(
                "Joined Server"@,
                match u.joined_at {
                    Some(j) => j@,
                    None => "Unavailable"@,
                },
            ),
        ],
        ephemeral: true,
        ..empty_embed()
    }
}

/// Shows information about a user of the guild.
pub fn userinfo(u: UserInfo) -> (e: Embed)
    ensures
        e@ == userinfo_view(u),
{
    let mut e = Embed::new();
    let mut discriminator = String::from_str("#");
    push_zero_padded(&mut discriminator, u.discriminator as i128, 4);
    let mut id = String::new();
    push_decimal(&mut id, u.id);
    let nickname = match u.nick {
        Some(n) => n,
        None => String::from_str("None"),
    };
    let joined = match u.joined_at {
        Some(j) => j,
        None => String::from_str("Unavailable"),
    };
    e.author = Some(EmbedAuthor { name: u.name, icon_url: Some(u.face) });
    e.field(String::from_str("Discriminator"), discriminator, true);
    e.field(String::from_str("User ID"), id, true);
    e.field(String::from_str("Nickname"), nickname, true);
    e.field(String::from_str("User Created"), u.created_at, true);
    e.field(String::from_str("Joined Server"), joined, true);
    e.ephemeral = true;
    assert(e@.fields =~= userinfo_view(u).fields);
    e
}

/// What a list of strings reads as when it is written out for debugging,
/// as std's `Debug` does it: in brackets, each string quoted and escaped.
pub uninterp spec fn debug_list_text(items: Seq<Seq<char>>) -> Seq<char>;

/// std's `format!` with `{:?}` on a vector of strings. What it returns
/// depends on the strings alone.
#[verifier::external_body]
fn debug_list(items: &Vec<String>) -> (s: String)
    ensures
        s@ == debug_list_text(texts(items@)),
{
    format!("{:?}", items)
}

/// What `guildinfo` shows of a guild. `premium_tier` is the tier's name,
/// `created_at` the time as it is to be shown.
#[derive(Clone, Debug, PartialEq, Eq)]
pub struct GuildInfo {
    pub id: u64,
    pub name: String,
    pub icon_url: Option<String>,
    pub member_count: u64,
    pub features: Vec<String>,
    pub premium_tier: String,
    pub premium_subscription_count: u64,
    pub splash_url: Option<String>,
    pub created_at: String,
}

/// The embed of a guild, where `features` is the list of its features
/// as it is to be shown.
pub open spec fn guild_view(g: GuildInfo, features: Seq<char>) -> EmbedView {
    EmbedView {
        author: Some(AuthorView { name: g.name@, icon_url: opt_chars(g.icon_url) }),
        fields: seq![
            inline_field("Guild ID"@, decimal(g.id as nat)),
            inline_field("Members"@, decimal(g.member_count as nat)),
            inline_field("Features"@, features),
            inline_field("Nitro Boost Level"@, g.premium_tier@),
            inline_field("Nitro Boosts"@, decimal(g.premium_subscription_count as nat)),
        ],
        image: opt_chars(g.splash_url),
        footer: Some(FooterView { text: "Guild created at "@ + g.created_at@, icon_url: None }),
        ephemeral: true,
        ..empty_embed()
    }
}

/// What `guildinfo` answers: the guild's embed, with the features written
/// out as for debugging, or why there is none.
pub open spec fn guildinfo_reply(guild_id: Option<u64>, guild: Option<GuildInfo>) -> Result<
    EmbedView,
    GeneralError,
> {
    match (guild_id, guild) {
        (None, _) => Err(GeneralError::NotInGuild),
        (Some(_), None) => Err(GeneralError::GuildNotCached),
        (Some(_), Some(g)) => Ok(guild_view(g, debug_list_text(texts(g.features@)))),
    }
}

/// The decimal numeral of `n`.
fn number(n: u64) -> (s: String)
    ensures
        s@ == decimal(n as nat),
{
    let mut s = String::new();
    push_decimal(&mut s, n);
    s
}

/// The embed of a guild, where `features` is the list of its features as
/// it is to be shown.
pub fn guild_embed(g: GuildInfo, features: String) -> (e: Embed)
    ensures
        e@ == guild_view(g, features@),
{
    let mut e = Embed::new();
    e.author = Some(EmbedAuthor { name: g.name, icon_url: g.icon_url });
    e.field(String::from_str("Guild ID"), number(g.id), true);
    e.field(String::from_str("Members"), number(g.member_count), true);
    e.field(String::from_str("Features"), features, true);
    e.field(String::from_str("Nitro Boost Level"), g.premium_tier, true);
    e.field(String::from_str("Nitro Boosts"), number(g.premium_subscription_count), true);
    e.image = g.splash_url;
    let mut footer = String::from_str("Guild created at ");
    footer.append(g.created_at.as_str());
    e.footer = Some(EmbedFooter { text: footer, icon_url: None });
    e.ephemeral = true;
    assert(e@.fields =~= guild_view(g, features@).fields);
    e
}

/// Shows various information about the guild.
pub fn guildinfo(guild_id: Option<u64>, guild: Option<GuildInfo>) -> (r: Result<
    Embed,
    GeneralError,
>)
    ensures
        match r {
            Ok(e) => guildinfo_reply(guild_id, guild) == Ok::<EmbedView, GeneralError>(e@),
            Err(err) => guildinfo_reply(guild_id, guild) == Err::<EmbedView, GeneralError>(err),
        },
{
    if guild_id.is_none() {
        return Err(GeneralError::NotInGuild);
    }
    match guild {
        Some(g) => {
            let features = debug_list(&g.features);
            Ok(guild_embed(g, features))
        },
        None => Err(GeneralError::GuildNotCached),
    }
}

/// A moment of the clock: the seconds since 1970, and the milliseconds
/// into the second.
#[derive(Clone, Copy, Debug, PartialEq, Eq, Structural)]
pub struct Moment {
    pub timestamp: i64,
    pub subsec_millis: u32,
}

/// The milliseconds from one moment to another.
pub open spec fn millis_between(start: Moment, finish: Moment) -> int {
    (finish.timestamp - start.timestamp) * 1000 + (finish.subsec_millis - start.subsec_millis)
}

/// The two latencies as `ping` shows them.
pub open spec fn ping_text(rest: int, shard: nat) -> Seq<char> {
    "Rest API: "@ + signed_decimal(rest) + "ms\nShard Latency: "@ + decimal(shard) + "ms"@
}

/// What `ping` answers: the time that the first answer took, and the
/// latency of the shard in milliseconds; or why there is no answer.
pub open spec fn ping_reply(start: Moment, finish: Moment, shard_latency: Option<Option<u128>>)
    -> Result<Seq<char>, GeneralError> {
    match shard_latency {
        None => Err(GeneralError::NoShard),
        Some(None) => Err(GeneralError::NoLatency),
        Some(Some(latency)) => Ok(ping_text(millis_between(start, finish), latency as nat)),
    }
}

/// Responds with the current latency to Discord. `start` and `finish` are
/// the moments before and after the first answer was sent;
/// `shard_latency` is `None` where the shard is not found, and holds
/// `None` where it has no latency yet.
pub fn ping(start: Moment, finish: Moment, shard_latency: Option<Option<u128>>) -> (r: Result<
    String,
    GeneralError,
>)
    ensures
        match r {
            Ok(text) => ping_reply(start, finish, shard_latency) == Ok::<Seq<char>, GeneralError>(
                text@,
            ),
            Err(e) => ping_reply(start, finish, shard_latency) == Err::<Seq<char>, GeneralError>(
                e,
            ),
        },
{
    let rest: i128 = (finish.timestamp as i128 - start.timestamp as i128) * 1000 + (
    finish.subsec_millis as i128 - start.subsec_millis as i128);
    let latency = match shard_latency {
        None => {
            return Err(GeneralError::NoShard);
        },
        Some(None) => {
            return Err(GeneralError::NoLatency);
        },
        Some(Some(latency)) => latency,
    };
    let mut text = String::from_str("Rest API: ");
    push_signed(&mut text, rest);
    text.append("ms\nShard Latency: ");
    push_decimal_u128(&mut text, latency);
    text.append("ms");
    Ok(text)
}

} // verus!
