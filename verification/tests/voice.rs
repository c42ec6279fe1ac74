use lupusregina::embed::{Embed, EmbedField};
use lupusregina::voice::{
    _parse_duration, nowplaying, play_begin, play_found, play_joined, play_poll, stop, Answer,
    Connection, Join, Notice, Playing, Poll, Queued, TrackInfo, VoiceError,
};

fn track() -> TrackInfo {
    TrackInfo {
        title: "Song".to_string(),
        author: "Band".to_string(),
        uri: "https://track".to_string(),
        length: 185_999,
        position: 61_000,
    }
}

#[test]
fn duration_is_minutes_and_two_digits_of_seconds() {
    assert_eq!(_parse_duration(0), "0:00");
    assert_eq!(_parse_duration(5), "0:05");
    assert_eq!(_parse_duration(59), "0:59");
    assert_eq!(_parse_duration(60), "1:00");
    assert_eq!(_parse_duration(185), "3:05");
    assert_eq!(_parse_duration(3600), "60:00");
    assert_eq!(_parse_duration(u64::MAX), "307445734561825860:15");
}

#[test]
fn play_joins_the_channel_of_the_user() {
    assert_eq!(play_begin(Some(1), Some(2), None), Ok(Join { guild_id: 1, channel_id: 2 }));
    assert_eq!(play_begin(Some(1), Some(2), Some(2)), Ok(Join { guild_id: 1, channel_id: 2 }));
}

#[test]
fn play_refuses_without_guild_or_voice_channel_or_when_in_use() {
    assert_eq!(play_begin(None, Some(2), None), Err(VoiceError::GuildNotFound));
    assert_eq!(play_begin(None, None, Some(3)), Err(VoiceError::GuildNotFound));
    assert_eq!(play_begin(Some(1), None, None), Err(VoiceError::UserNotInVoice));
    assert_eq!(play_begin(Some(1), None, Some(3)), Err(VoiceError::UserNotInVoice));
    assert_eq!(play_begin(Some(1), Some(2), Some(3)), Err(VoiceError::AlreadyInUse));
}

#[test]
fn play_failures_tell_the_channel_what_is_wrong() {
    assert_eq!(
        VoiceError::UserNotInVoice.notice(),
        Some((Notice::Reply, "You need to be in a voice channel!"))
    );
    assert_eq!(
        VoiceError::AlreadyInUse.notice(),
        Some((Notice::Say, "The bot is already in use in a voice channel."))
    );
    assert_eq!(
        VoiceError::NoResults("q".to_string()).notice(),
        Some((Notice::Say, "Could not find any results matching the search query."))
    );
    assert_eq!(VoiceError::NoGuild.notice(), None);
    assert_eq!(VoiceError::GuildNotFound.notice(), None);
    assert_eq!(VoiceError::JoinFailed.notice(), None);
    assert_eq!(VoiceError::NoHandler.notice(), None);
    assert_eq!(VoiceError::NotInVoice.notice(), None);
    assert_eq!(VoiceError::NoTrackInfo.notice(), None);
}

#[test]
fn voice_errors_have_their_texts() {
    assert_eq!(VoiceError::NoGuild.message(), "GuildId not found from message.");
    assert_eq!(VoiceError::GuildNotFound.message(), "Failed to get guild from Message.");
    assert_eq!(VoiceError::UserNotInVoice.message(), "User not in voice channel.");
    assert_eq!(VoiceError::AlreadyInUse.message(), "Bot already in voice channel.");
    assert_eq!(VoiceError::JoinFailed.message(), "Unable to join channel.");
    assert_eq!(VoiceError::NoHandler.message(), "Unable to get voice handler.");
    assert_eq!(
        VoiceError::NoResults("never gonna".to_string()).message(),
        "No results found from query: never gonna"
    );
    assert_eq!(VoiceError::NotInVoice.message(), "Bot not currently in voice channel.");
    assert_eq!(VoiceError::NoTrackInfo.message(), "Could not obtain reference to track.info.");
}

#[test]
fn play_joined_goes_on_or_fails() {
    assert_eq!(play_joined(true), Ok(()));
    assert_eq!(play_joined(false), Err(VoiceError::JoinFailed));
}

#[test]
fn play_waits_until_the_session_is_ready() {
    let c = |t, s, e| Some(Connection { has_token: t, has_session_id: s, has_endpoint: e });
    assert_eq!(play_poll(c(true, true, true)), Ok(Poll::Ready));
    assert_eq!(play_poll(c(false, true, true)), Ok(Poll::Wait(500)));
    assert_eq!(play_poll(c(true, false, true)), Ok(Poll::Wait(500)));
    assert_eq!(play_poll(c(true, true, false)), Ok(Poll::Wait(500)));
    assert_eq!(play_poll(c(false, false, false)), Ok(Poll::Wait(500)));
    assert_eq!(play_poll(None), Err(VoiceError::NoHandler));
}

#[test]
fn play_queues_the_first_track_found() {
    let titles = vec![Some("First".to_string()), Some("Second".to_string())];
    assert_eq!(
        play_found("q", &titles, true),
        Ok(Queued { track: 0, reply: "Added First to the queue!".to_string() })
    );
    let titles = vec![None, Some("Second".to_string())];
    assert_eq!(
        play_found("q", &titles, true),
        Ok(Queued { track: 0, reply: "Added Unknown to the queue!".to_string() })
    );
}

#[test]
fn play_queues_nothing_without_results_or_connection() {
    assert_eq!(
        play_found("never gonna", &vec![], true),
        Err(VoiceError::NoResults("never gonna".to_string()))
    );
    assert_eq!(
        play_found("never gonna", &vec![], false),
        Err(VoiceError::NoResults("never gonna".to_string()))
    );
    assert_eq!(play_found("q", &vec![Some("First".to_string())], false), Err(VoiceError::NoHandler));
}

#[test]
fn stop_ends_the_connection_of_the_guild() {
    assert_eq!(stop(Some(7), true), Ok(7));
    assert_eq!(stop(Some(7), false), Err(VoiceError::NotInVoice));
    assert_eq!(stop(None, true), Err(VoiceError::NoGuild));
    assert_eq!(stop(None, false), Err(VoiceError::NoGuild));
}

#[test]
fn nowplaying_shows_the_track() {
    let mut expected = Embed::new();
    expected.title = Some("Song by Band".to_string());
    expected.url = Some("https://track".to_string());
    expected.fields = vec![EmbedField {
        name: "Position".to_string(),
        value: "1:01 / 3:05".to_string(),
        inline: false,
    }];
    assert_eq!(nowplaying(Some(1), Playing::Track(Some(track()))), Ok(Answer::Embed(expected)));
}

#[test]
fn nowplaying_says_when_nothing_is_playing() {
    let nothing = Answer::Text("Nothing is playing at the moment.".to_string());
    assert_eq!(nowplaying(Some(1), Playing::NoNode), Ok(nothing.clone()));
    assert_eq!(nowplaying(Some(1), Playing::Nothing), Ok(nothing));
}

#[test]
fn nowplaying_needs_a_guild_and_a_track_that_tells_of_itself() {
    assert_eq!(nowplaying(None, Playing::Track(Some(track()))), Err(VoiceError::NoGuild));
    assert_eq!(nowplaying(None, Playing::Nothing), Err(VoiceError::NoGuild));
    assert_eq!(nowplaying(Some(1), Playing::Track(None)), Err(VoiceError::NoTrackInfo));
}
