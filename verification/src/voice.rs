//! The music commands: what is decided between the calls to the voice
//! gateway and to the audio relay. The caller makes those calls and hands
//! back what came of them.

use crate::embed::{empty_embed, Embed, EmbedView, FieldView};
use crate::numeral::{decimal, push_decimal, push_zero_padded, zero_padded};
use vstd::prelude::*;
use vstd::string::StringExecFns;

verus! {

/// Why a music command did not finish.
#[derive(Clone, Debug, PartialEq, Eq)]
pub enum VoiceError {
    /// The command came from outside of any guild.
    NoGuild,
    /// The guild of the message that asks to play is not to be had.
    GuildNotFound,
    /// Who gave the command is in no voice channel.
    UserNotInVoice,
    /// The bot plays in another voice channel of the guild.
    AlreadyInUse,
    /// The voice channel could not be joined.
    JoinFailed,
    /// The guild has no voice connection.
    NoHandler,
    /// The search for the query found nothing.
    NoResults(String),
    /// The bot is in no voice channel of the guild.
    NotInVoice,
    /// The track that plays tells nothing of itself.
    NoTrackInfo,
}

/// What is sent to the channel besides the command's result: an answer to
/// the message, or a message of its own.
#[derive(Clone, Copy, Debug, PartialEq, Eq, Structural)]
pub enum Notice {
    Reply,
    Say,
}

/// What the error reads as.
pub open spec fn voice_error_text(e: VoiceError) -> Seq<char> {
    match e {
        VoiceError::NoGuild => "GuildId not found from message."@,
        VoiceError::GuildNotFound => "Failed to get guild from Message."@,
        VoiceError::UserNotInVoice => "User not in voice channel."@,
        VoiceError::AlreadyInUse => "Bot already in voice channel."@,
        VoiceError::JoinFailed => "Unable to join channel."@,
        VoiceError::NoHandler => "Unable to get voice handler."@,
        VoiceError::NoResults(query) => "No results found from query: "@ + query@,
        VoiceError::NotInVoice => "Bot not currently in voice channel."@,
        VoiceError::NoTrackInfo => "Could not obtain reference to track.info."@,
    }
}

/// What is told to the channel when the command fails with the error, and
/// how; most errors are told to nobody.
pub open spec fn notice_of(e: VoiceError) -> Option<(Notice, Seq<char>)> {
    match e {
        VoiceError::UserNotInVoice => Some((Notice::Reply, "You need to be in a voice channel!"@)),
        VoiceError::AlreadyInUse => Some(
            (Notice::Say, "The bot is already in use in a voice channel."@),
        ),
        VoiceError::NoResults(_) => Some(
            (Notice::Say, "Could not find any results matching the search query."@),
        ),
        _ => None,
    }
}

impl VoiceError {
    /// What the error reads as.
    pub fn message(&self) -> (m: String)
        ensures
            m@ == voice_error_text(*self),
    {
        match self {
            VoiceError::NoGuild => String::from_str("GuildId not found from message."),
            VoiceError::GuildNotFound => String::from_str("Failed to get guild from Message."),
            VoiceError::UserNotInVoice => String::from_str("User not in voice channel."),
            VoiceError::AlreadyInUse => String::from_str("Bot already in voice channel."),
            VoiceError::JoinFailed => String::from_str("Unable to join channel."),
            VoiceError::NoHandler => String::from_str("Unable to get voice handler."),
            VoiceError::NoResults(query) => {
                let mut m = String::from_str("No results found from query: ");
                m.append(query.as_str());
                m
            },
            VoiceError::NotInVoice => String::from_str("Bot not currently in voice channel."),
            VoiceError::NoTrackInfo => String::from_str(
                "Could not obtain reference to track.info.",
            ),
        }
    }

    /// What is told to the channel when the command fails with the error.
    pub fn notice(&self) -> (n: Option<(Notice, &'static str)>)
        ensures
            match n {
                Some((how, text)) => notice_of(*self) == Some((how, text@)),
                None => notice_of(*self) is None,
            },
    {
        match self {
            VoiceError::UserNotInVoice => Some(
                (Notice::Reply, "You need to be in a voice channel!"),
            ),
            VoiceError::AlreadyInUse => Some(
                (Notice::Say, "The bot is already in use in a voice channel."),
            ),
            VoiceError::NoResults(_) => Some(
                (Notice::Say, "Could not find any results matching the search query."),
            ),
            _ => None,
        }
    }
}

/// The guild and the voice channel that `play` is to join.
#[derive(Clone, Copy, Debug, PartialEq, Eq, Structural)]
pub struct Join {
    pub guild_id: u64,
    pub channel_id: u64,
}

/// Where `play` is to join. The guild is `None` where the guild of the
/// message is not to be had; `user_channel` is the voice channel of who
/// gave the command; `bot_channel` is the one that the bot is in. The bot
/// joins the user's channel unless it is in another one of the guild.
pub open spec fn join_for(
    guild_id: Option<u64>,
    user_channel: Option<u64>,
    bot_channel: Option<u64>,
) -> Result<Join, VoiceError> {
    match (guild_id, user_channel) {
        (None, _) => Err(VoiceError::GuildNotFound),
        (Some(_), None) => Err(VoiceError::UserNotInVoice),
        (Some(guild_id), Some(channel_id)) => if bot_channel is Some && bot_channel != Some(
            channel_id,
        ) {
            Err(VoiceError::AlreadyInUse)
        } else {
            Ok(Join { guild_id, channel_id })
        },
    }
}

/// First step of `play`: where to join, or why not.
pub fn play_begin(guild_id: Option<u64>, user_channel: Option<u64>, bot_channel: Option<u64>) -> (r:
    Result<Join, VoiceError>)
    ensures
        r == join_for(guild_id, user_channel, bot_channel),
{
    let guild_id = match guild_id {
        Some(g) => g,
        None => {
            return Err(VoiceError::GuildNotFound);
        },
    };
    let channel_id = match user_channel {
        Some(c) => c,
        None => {
            return Err(VoiceError::UserNotInVoice);
        },
    };
    match bot_channel {
        Some(c) => {
            if c != channel_id {
                return Err(VoiceError::AlreadyInUse);
            }
        },
        None => {},
    }
    Ok(Join { guild_id, channel_id })
}

/// Second step of `play`, once the gateway was asked to join.
pub fn play_joined(joined: bool) -> (r: Result<(), VoiceError>)
    ensures
        joined ==> r is Ok,
        !joined ==> r == Err::<(), VoiceError>(VoiceError::JoinFailed),
{
    if joined {
        Ok(())
    } else {
        Err(VoiceError::JoinFailed)
    }
}

/// What the voice connection of a guild knows so far of its session.
#[derive(Clone, Copy, Debug, PartialEq, Eq, Structural)]
pub struct Connection {
    pub has_token: bool,
    pub has_session_id: bool,
    pub has_endpoint: bool,
}

/// What `play` does while the session gets ready.
#[derive(Clone, Copy, Debug, PartialEq, Eq, Structural)]
pub enum Poll {
    /// The session is ready: go on with the search.
    Ready,
    /// Look again after so many milliseconds.
    Wait(u64),
}

/// The time between two looks at the connection, in milliseconds.
pub open spec fn poll_interval() -> u64 {
    500
}

/// Whether the session is ready: token, session and endpoint are known.
pub open spec fn poll_for(handler: Option<Connection>) -> Result<Poll, VoiceError> {
    match handler {
        None => Err(VoiceError::NoHandler),
        Some(c) => if c.has_token && c.has_session_id && c.has_endpoint {
            Ok(Poll::Ready)
        } else {
            Ok(Poll::Wait(poll_interval()))
        },
    }
}

/// Third step of `play`, made again and again until the session is ready.
pub fn play_poll(handler: Option<Connection>) -> (r: Result<Poll, VoiceError>)
    ensures
        r == poll_for(handler),
{
    match handler {
        None => Err(VoiceError::NoHandler),
        Some(c) => {
            if c.has_token && c.has_session_id && c.has_endpoint {
                Ok(Poll::Ready)
            } else {
                Ok(Poll::Wait(500))
            }
        },
    }
}

/// What `play` answers once the first track is queued.
pub open spec fn queued_text(title: Option<String>) -> Seq<char> {
    "Added "@ + (match title {
        Some(t) => t@,
        None => "Unknown"@,
    }) + " to the queue!"@
}

/// What `play` queues and answers: the index of the track among those
/// found, and the answer.
#[derive(Clone, Debug, PartialEq, Eq)]
pub struct Queued {
    pub track: usize,
    pub reply: String,
}

/// Last step of `play`, once the search is back. `titles` holds the
/// title of each track found. Where none was found, or the guild has lost
/// its voice connection, nothing is queued; otherwise the first track is
/// queued and the answer names its title, `Unknown` where it tells none.
pub fn play_found(query: &str, titles: &Vec<Option<String>>, has_handler: bool) -> (r: Result<
    Queued,
    VoiceError,
>)
    ensures
        match r {
            Ok(queued) => {
                &&& titles@.len() > 0
                &&& has_handler
                &&& queued.track == 0
                &&& queued.reply@ == queued_text(titles@[0])
            },
            Err(VoiceError::NoResults(q)) => titles@.len() == 0 && q@ == query@,
            Err(e) => titles@.len() > 0 && !has_handler && e == VoiceError::NoHandler,
        },
{
    if titles.len() == 0 {
        return Err(VoiceError::NoResults(String::from_str(query)));
    }
    if !has_handler {
        return Err(VoiceError::NoHandler);
    }
    let mut reply = String::from_str("Added ");
    match &titles[0] {
        Some(t) => reply.append(t.as_str()),
        None => reply.append("Unknown"),
    }
    reply.append(" to the queue!");
    Ok(Queued { track: 0, reply })
}

/// The guild whose voice connection `stop` ends: the one the command came
/// from, where the bot is connected in it.
pub open spec fn stop_for(guild_id: Option<u64>, connected: bool) -> Result<u64, VoiceError> {
    match guild_id {
        None => Err(VoiceError::NoGuild),
        Some(g) => if connected {
            Ok(g)
        } else {
            Err(VoiceError::NotInVoice)
        },
    }
}

/// The guild whose voice connection is removed and whose player is
/// destroyed, or why nothing is stopped.
pub fn stop(guild_id: Option<u64>, connected: bool) -> (r: Result<u64, VoiceError>)
    ensures
        r == stop_for(guild_id, connected),
{
    match guild_id {
        None => Err(VoiceError::NoGuild),
        Some(g) => {
            if connected {
                Ok(g)
            } else {
                Err(VoiceError::NotInVoice)
            }
        },
    }
}

/// A span of seconds as minutes and seconds, the seconds in two digits.
pub open spec fn duration_text(seconds: nat) -> Seq<char> {
    decimal(seconds / 60) + ":"@ + zero_padded((seconds % 60) as int, 2)
}

/// A span of seconds as minutes and seconds.
pub fn _parse_duration(seconds: u64) -> (s: String)
    ensures
        s@ == duration_text(seconds as nat),
{
    let mut s = String::new();
    push_decimal(&mut s, seconds / 60);
    s.append(":");
    push_zero_padded(&mut s, (seconds % 60) as i128, 2);
    s
}

/// What a track tells of itself; `length` and `position` are in
/// milliseconds.
#[derive(Clone, Debug, PartialEq, Eq)]
pub struct TrackInfo {
    pub title: String,
    pub author: String,
    pub uri: String,
    pub length: u64,
    pub position: u64,
}

/// What the audio relay plays in a guild.
#[derive(Clone, Debug, PartialEq, Eq)]
pub enum Playing {
    /// The relay has no player for the guild.
    NoNode,
    /// The player plays nothing.
    Nothing,
    /// The player plays a track, which may tell nothing of itself.
    Track(Option<TrackInfo>),
}

/// What `nowplaying` answers with.
#[derive(Clone, Debug, PartialEq, Eq)]
pub enum Answer {
    Embed(Embed),
    Text(String),
}

/// An [`Answer`] by its characters.
pub enum AnswerView {
    Embed(EmbedView),
    Text(Seq<char>),
}

impl View for Answer {
    type V = AnswerView;

    open spec fn view(&self) -> AnswerView {
        match self {
            Answer::Embed(e) => AnswerView::Embed(e@),
            Answer::Text(t) => AnswerView::Text(t@),
        }
    }
}

/// The embed that shows a track: who it is by, where it is, and how far
/// into it the player is, in whole seconds.
pub open spec fn track_view(t: TrackInfo) -> EmbedView {
    EmbedView {
        title: Some(t.title@ + " by "@ + t.author@),
        url: Some(t.uri@),
        fields: seq![
            FieldView {
                name: "Position"@,
                value: duration_text((t.position / 1000) as nat) + " / "@ + duration_text(
                    (t.length / 1000) as nat,
                ),
                inline: false,
            },
        ],
        ..empty_embed()
    }
}

/// What `nowplaying` answers: the track's embed, a line where nothing is
/// playing, or why there is no answer.
pub open spec fn nowplaying_reply(guild_id: Option<u64>, playing: Playing) -> Result<
    AnswerView,
    VoiceError,
> {
    match guild_id {
        None => Err(VoiceError::NoGuild),
        Some(_) => match playing {
            Playing::NoNode => Ok(AnswerView::Text("Nothing is playing at the moment."@)),
            Playing::Nothing => Ok(AnswerView::Text("Nothing is playing at the moment."@)),
            Playing::Track(None) => Err(VoiceError::NoTrackInfo),
            Playing::Track(Some(t)) => Ok(AnswerView::Embed(track_view(t))),
        },
    }
}

/// Shows what is playing in the guild.
pub fn nowplaying(guild_id: Option<u64>, playing: Playing) -> (r: Result<Answer, VoiceError>)
    ensures
        match r {
            Ok(a) => nowplaying_reply(guild_id, playing) == Ok::<AnswerView, VoiceError>(a@),
            Err(e) => nowplaying_reply(guild_id, playing) == Err::<AnswerView, VoiceError>(e),
        },
{
    if guild_id.is_none() {
        return Err(VoiceError::NoGuild);
    }
    match playing {
        Playing::NoNode => Ok(Answer::Text(String::from_str("Nothing is playing at the moment."))),
        Playing::Nothing => Ok(
            Answer::Text(String::from_str("Nothing is playing at the moment.")),
        ),
        Playing::Track(None) => Err(VoiceError::NoTrackInfo),
        Playing::Track(Some(t)) => {
            let ghost whole = t;
            let mut e = Embed::new();
            let mut position = _parse_duration(t.position / 1000);
            position.append(" / ");
            position.append(_parse_duration(t.length / 1000).as_str());
            let mut title = t.title;
            title.append(" by ");
            title.append(t.author.as_str());
            e.title = Some(title);
            e.url = Some(t.uri);
            e.field(String::from_str("Position"), position, false);
            assert(e@.fields =~= track_view(whole).fields);
            Ok(Answer::Embed(e))
        },
    }
}

} // verus!
