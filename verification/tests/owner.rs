use lupusregina::embed::{Colour, Embed, EmbedAuthor};
use lupusregina::owner::{
    avatar_uri, cpu_usage, info, memory_bytes, presence, presence_modal, setavatar, uptime,
    Activity, ActivityTypeChoice, BotInfo, Modal, ModalAnswer, OnlineStatusChoice, OwnerError,
    Presence, ProcessTimes,
};

fn times(utime: u64, stime: u64, cutime: i64, cstime: i64, starttime: u64) -> ProcessTimes {
    ProcessTimes { utime, stime, cutime, cstime, starttime }
}

fn bot(memory: Option<&str>, cpu: Option<u64>) -> BotInfo {
    BotInfo {
        bot_name: "lupusregina".to_string(),
        version: "0.4.0".to_string(),
        uptime_seconds: 90061,
        memory: memory.map(|m| m.to_string()),
        cpu_usage: cpu,
        guilds: 3,
        users: 1200,
        channels: 0,
        name: "Lupus".to_string(),
        face: "https://face".to_string(),
    }
}

#[test]
fn uptime_is_split_into_days_hours_minutes_seconds() {
    assert_eq!(uptime(0), "0d0h0m0s");
    assert_eq!(uptime(59), "0d0h0m59s");
    assert_eq!(uptime(60), "0d0h1m0s");
    assert_eq!(uptime(3599), "0d0h59m59s");
    assert_eq!(uptime(3600), "0d1h0m0s");
    assert_eq!(uptime(86399), "0d23h59m59s");
    assert_eq!(uptime(86400), "1d0h0m0s");
    assert_eq!(uptime(90061), "1d1h1m1s");
    assert_eq!(uptime(i64::MAX), "106751991167300d15h30m7s");
}

#[test]
fn uptime_below_zero_has_parts_below_zero() {
    assert_eq!(uptime(-1), "0d0h0m-1s");
    assert_eq!(uptime(-61), "0d0h-1m-1s");
    assert_eq!(uptime(-90061), "-1d-1h-1m-1s");
    assert_eq!(uptime(i64::MIN), "-106751991167300d-15h-30m-8s");
}

#[test]
fn cpu_usage_follows_the_formula() {
    assert_eq!(cpu_usage(times(5000, 3000, 1000, 1000, 200), 100, 12), Some(1000));
    assert_eq!(cpu_usage(times(5000, 3000, 1000, 1000, 200), 100, 3), Some(10000));
    assert_eq!(cpu_usage(times(50, 30, 10, 10, 200), 100, 12), Some(0));
    assert_eq!(cpu_usage(times(0, 0, 0, 0, 0), 1, 1), Some(0));
    assert_eq!(cpu_usage(times(999, 0, 0, 0, 0), 100, 2), Some(400));
}

#[test]
fn cpu_usage_has_no_value_where_the_formula_has_none() {
    assert_eq!(cpu_usage(times(1, 1, 1, 1, 1), 0, 10), None);
    assert_eq!(cpu_usage(times(100, 0, 0, 0, 1000), 100, 10), None);
    assert_eq!(cpu_usage(times(100, 0, 0, 0, 1000), 100, 9), None);
    assert_eq!(cpu_usage(times(u64::MAX, 1, 0, 0, 0), 100, 10), None);
    assert_eq!(cpu_usage(times(1, 0, -1, 0, 0), 100, 10), None);
    assert_eq!(cpu_usage(times(0, 0, 0, -1, 0), 100, 10), Some(1844674407370955100));
    assert_eq!(cpu_usage(times(u64::MAX, 0, 0, 0, 0), 1, 1), None);
    assert_eq!(cpu_usage(times(100, 0, 0, 0, 0), -1, 1), Some(0));
}

#[test]
fn memory_is_resident_less_shared_times_the_page() {
    assert_eq!(memory_bytes(3000, 1000, 4096), Some(8192000));
    assert_eq!(memory_bytes(0, 0, 4096), Some(0));
    assert_eq!(memory_bytes(5, 5, 0), Some(0));
    assert_eq!(memory_bytes(1000, 3000, 4096), None);
    assert_eq!(memory_bytes(u64::MAX, 0, 2), None);
    assert_eq!(memory_bytes(2, u64::MAX, 2), None);
    assert_eq!(memory_bytes(2, 1, -1), None);
}

#[test]
fn info_shows_what_is_known() {
    let e = info(bot(Some("12.34"), Some(7)));
    let mut expected = Embed::new();
    expected.colour = Some(Colour::FabledPink);
    expected.author = Some(EmbedAuthor {
        name: "Lupus".to_string(),
        icon_url: Some("https://face".to_string()),
    });
    expected.title = Some("Running Information".to_string());
    expected.description = Some(
        "**Software version**: `lupusregina - v0.4.0`\n**Uptime**: `1d1h1m1s`\n**Memory Usage**: `12.34MB`\n**CPU Usage**: `7%`\n**Guilds**: `3`\n**Users**: `1200`\n**DM Channels**: `0`"
            .to_string(),
    );
    expected.ephemeral = true;
    assert_eq!(e, expected);
}

#[test]
fn info_leaves_out_what_the_system_did_not_tell() {
    assert_eq!(
        info(bot(None, None)).description.unwrap(),
        "**Software version**: `lupusregina - v0.4.0`\n**Uptime**: `1d1h1m1s`\n**Guilds**: `3`\n**Users**: `1200`\n**DM Channels**: `0`"
    );
    assert_eq!(
        info(bot(None, Some(0))).description.unwrap(),
        "**Software version**: `lupusregina - v0.4.0`\n**Uptime**: `1d1h1m1s`\n**CPU Usage**: `0%`\n**Guilds**: `3`\n**Users**: `1200`\n**DM Channels**: `0`"
    );
    assert_eq!(
        info(bot(Some("0.50"), None)).description.unwrap(),
        "**Software version**: `lupusregina - v0.4.0`\n**Uptime**: `1d1h1m1s`\n**Memory Usage**: `0.50MB`\n**Guilds**: `3`\n**Users**: `1200`\n**DM Channels**: `0`"
    );
}

#[test]
fn presence_modal_goes_with_the_activity() {
    assert_eq!(presence_modal(None), None);
    assert_eq!(presence_modal(Some(ActivityTypeChoice::Playing)), Some(Modal::StatusText));
    assert_eq!(presence_modal(Some(ActivityTypeChoice::Listening)), Some(Modal::StatusText));
    assert_eq!(presence_modal(Some(ActivityTypeChoice::Watching)), Some(Modal::StatusText));
    assert_eq!(presence_modal(Some(ActivityTypeChoice::Competing)), Some(Modal::StatusText));
    assert_eq!(presence_modal(Some(ActivityTypeChoice::Streaming)), Some(Modal::Twitch));
}

#[test]
fn presence_is_made_of_kind_text_and_status() {
    let text = || ModalAnswer::StatusText { text: "chess".to_string() };
    for kind in [
        ActivityTypeChoice::Playing,
        ActivityTypeChoice::Listening,
        ActivityTypeChoice::Watching,
        ActivityTypeChoice::Competing,
    ] {
        assert_eq!(
            presence(OnlineStatusChoice::Idle, Some(kind), text()),
            Some(Presence {
                activity: Activity { kind, text: "chess".to_string(), url: None },
                status: OnlineStatusChoice::Idle,
            })
        );
    }
}

#[test]
fn presence_of_a_stream_has_its_address() {
    let answer =
        ModalAnswer::Twitch { url: "https://twitch.tv/x".to_string(), text: "live".to_string() };
    assert_eq!(
        presence(OnlineStatusChoice::DoNotDisturb, Some(ActivityTypeChoice::Streaming), answer),
        Some(Presence {
            activity: Activity {
                kind: ActivityTypeChoice::Streaming,
                text: "live".to_string(),
                url: Some("https://twitch.tv/x".to_string()),
            },
            status: OnlineStatusChoice::DoNotDisturb,
        })
    );
}

#[test]
fn presence_is_not_set_without_activity_or_with_the_other_form() {
    let text = || ModalAnswer::StatusText { text: "chess".to_string() };
    let twitch = || ModalAnswer::Twitch { url: "u".to_string(), text: "t".to_string() };
    assert_eq!(presence(OnlineStatusChoice::Online, None, text()), None);
    assert_eq!(presence(OnlineStatusChoice::Online, None, twitch()), None);
    assert_eq!(
        presence(OnlineStatusChoice::Invisible, Some(ActivityTypeChoice::Streaming), text()),
        None
    );
    assert_eq!(
        presence(OnlineStatusChoice::Offline, Some(ActivityTypeChoice::Playing), twitch()),
        None
    );
}

#[test]
fn setavatar_makes_a_data_address_in_base64() {
    assert_eq!(
        setavatar(Some("image/png"), b"hello"),
        Ok("data:image/png;base64,aGVsbG8=".to_string())
    );
    assert_eq!(setavatar(Some("image/gif"), b""), Ok("data:image/gif;base64,".to_string()));
    assert_eq!(
        setavatar(Some("image/jpeg"), &[0xff, 0xd8, 0xff, 0xe0, 0x00, 0x10]),
        Ok("data:image/jpeg;base64,/9j/4AAQ".to_string())
    );
    assert_eq!(setavatar(Some(""), b"a"), Ok("data:;base64,YQ==".to_string()));
}

#[test]
fn setavatar_needs_the_kind_of_file() {
    assert_eq!(setavatar(None, b"hello"), Err(OwnerError::NoContentType));
    assert_eq!(OwnerError::NoContentType.message(), "Unable to determine content type");
}

#[test]
fn avatar_uri_joins_kind_and_encoded_bytes() {
    assert_eq!(avatar_uri("image/png", "QUJD"), "data:image/png;base64,QUJD");
}
