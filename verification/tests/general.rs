use lupusregina::embed::{Colour, Embed, EmbedAuthor, EmbedField, EmbedFooter};
use lupusregina::general::{
    about, guildinfo, ping, require_guild, userinfo, GeneralError, GuildInfo, Moment, UserInfo,
};

fn general_field(name: &str, value: &str, inline: bool) -> EmbedField {
    EmbedField { name: name.to_string(), value: value.to_string(), inline }
}

fn user() -> UserInfo {
    UserInfo {
        name: "flat".to_string(),
        face: "https://face".to_string(),
        discriminator: 7,
        id: 123456789012345678,
        nick: Some("Flat".to_string()),
        created_at: "2016-04-30T11:18:25.796Z".to_string(),
        joined_at: Some("2020-01-02T03:04:05Z".to_string()),
    }
}

fn guild() -> GuildInfo {
    GuildInfo {
        id: 42,
        name: "Nazarick".to_string(),
        icon_url: Some("https://icon".to_string()),
        member_count: 41,
        features: vec!["COMMUNITY".to_string(), "NEWS".to_string()],
        premium_tier: "Tier2".to_string(),
        premium_subscription_count: 9,
        splash_url: Some("https://splash".to_string()),
        created_at: "2015-01-01T00:00:00Z".to_string(),
    }
}

#[test]
fn about_names_the_bot_its_authors_and_its_source() {
    let e = about("https://face".to_string(), "https://invite".to_string(), "lupus", "Ken");
    let mut expected = Embed::new();
    expected.url = Some("https://invite".to_string());
    expected.colour = Some(Colour::Rgb(0xD25148));
    expected.description = Some("A battle maid for the Great Tomb of Nazarick".to_string());
    expected.title = Some("lupus".to_string());
    expected.author =
        Some(EmbedAuthor { name: "lupus".to_string(), icon_url: Some("https://face".to_string()) });
    expected.fields = vec![
        general_field("Authors", "Ken", false),
        general_field("Source Code", "https://github.com/flat/lupusregina-", false),
    ];
    expected.ephemeral = true;
    assert_eq!(e, expected);
}

#[test]
fn userinfo_shows_the_user() {
    let e = userinfo(user());
    let mut expected = Embed::new();
    expected.author =
        Some(EmbedAuthor { name: "flat".to_string(), icon_url: Some("https://face".to_string()) });
    expected.fields = vec![
        general_field("Discriminator", "#0007", true),
        general_field("User ID", "123456789012345678", true),
        general_field("Nickname", "Flat", true),
        general_field("User Created", "2016-04-30T11:18:25.796Z", true),
        general_field("Joined Server", "2020-01-02T03:04:05Z", true),
    ];
    expected.ephemeral = true;
    assert_eq!(e, expected);
}

#[test]
fn userinfo_fills_in_what_is_not_known() {
    let mut u = user();
    u.nick = None;
    u.joined_at = None;
    u.discriminator = 0;
    let e = userinfo(u);
    assert_eq!(e.fields[0], general_field("Discriminator", "#0000", true));
    assert_eq!(e.fields[2], general_field("Nickname", "None", true));
    assert_eq!(e.fields[4], general_field("Joined Server", "Unavailable", true));
}

#[test]
fn discriminator_has_four_digits_or_more() {
    let shown = |d: u16| {
        let mut u = user();
        u.discriminator = d;
        userinfo(u).fields[0].value.clone()
    };
    assert_eq!(shown(1), "#0001");
    assert_eq!(shown(42), "#0042");
    assert_eq!(shown(999), "#0999");
    assert_eq!(shown(1000), "#1000");
    assert_eq!(shown(9999), "#9999");
    assert_eq!(shown(12345), "#12345");
    assert_eq!(shown(u16::MAX), "#65535");
}

#[test]
fn guildinfo_shows_the_guild() {
    let e = guildinfo(Some(42), Some(guild())).unwrap();
    let mut expected = Embed::new();
    expected.author = Some(EmbedAuthor {
        name: "Nazarick".to_string(),
        icon_url: Some("https://icon".to_string()),
    });
    expected.fields = vec![
        general_field("Guild ID", "42", true),
        general_field("Members", "41", true),
        general_field("Features", "[\"COMMUNITY\", \"NEWS\"]", true),
        general_field("Nitro Boost Level", "Tier2", true),
        general_field("Nitro Boosts", "9", true),
    ];
    expected.image = Some("https://splash".to_string());
    expected.footer = Some(EmbedFooter {
        text: "Guild created at 2015-01-01T00:00:00Z".to_string(),
        icon_url: None,
    });
    expected.ephemeral = true;
    assert_eq!(e, expected);
}

#[test]
fn guildinfo_without_icon_splash_or_features() {
    let mut g = guild();
    g.icon_url = None;
    g.splash_url = None;
    g.features = vec![];
    let e = guildinfo(Some(42), Some(g)).unwrap();
    assert_eq!(e.author.unwrap().icon_url, None);
    assert_eq!(e.image, None);
    assert_eq!(e.fields[2], general_field("Features", "[]", true));
}

#[test]
fn guildinfo_features_are_written_as_for_debugging() {
    let mut g = guild();
    g.features = vec!["A\"B".to_string(), "C\\D".to_string(), "E\nF".to_string()];
    let e = guildinfo(Some(42), Some(g)).unwrap();
    assert_eq!(e.fields[2].value, "[\"A\\\"B\", \"C\\\\D\", \"E\\nF\"]");
    assert_ne!(e.fields[2].value, "A\"B");
}

#[test]
fn guildinfo_needs_a_guild_that_is_in_memory() {
    assert_eq!(guildinfo(None, Some(guild())), Err(GeneralError::NotInGuild));
    assert_eq!(guildinfo(None, None), Err(GeneralError::NotInGuild));
    assert_eq!(guildinfo(Some(42), None), Err(GeneralError::GuildNotCached));
}

#[test]
fn require_guild_gives_the_guild_or_the_error() {
    assert_eq!(require_guild(Some(5)), Ok(5));
    assert_eq!(require_guild(None), Err(GeneralError::NotInGuild));
}

#[test]
fn general_errors_have_their_texts() {
    assert_eq!(GeneralError::NotInGuild.message(), "Failed to get GuildID from Message.");
    assert_eq!(GeneralError::GuildNotCached.message(), "Failed to get Guild from GuildID");
    assert_eq!(GeneralError::NoShard.message(), "Failed to get Shard.");
    assert_eq!(GeneralError::NoLatency.message(), "Failed to get latency from shard.");
}

#[test]
fn ping_shows_both_latencies() {
    let start = Moment { timestamp: 10, subsec_millis: 900 };
    let finish = Moment { timestamp: 11, subsec_millis: 100 };
    assert_eq!(
        ping(start, finish, Some(Some(42))),
        Ok("Rest API: 200ms\nShard Latency: 42ms".to_string())
    );
    assert_eq!(
        ping(start, start, Some(Some(0))),
        Ok("Rest API: 0ms\nShard Latency: 0ms".to_string())
    );
    let later = Moment { timestamp: 13, subsec_millis: 901 };
    assert_eq!(
        ping(start, later, Some(Some(u128::MAX))),
        Ok("Rest API: 3001ms\nShard Latency: 340282366920938463463374607431768211455ms"
            .to_string())
    );
}

#[test]
fn ping_backwards_is_below_zero() {
    let start = Moment { timestamp: 11, subsec_millis: 100 };
    let finish = Moment { timestamp: 10, subsec_millis: 900 };
    assert_eq!(
        ping(start, finish, Some(Some(1))),
        Ok("Rest API: -200ms\nShard Latency: 1ms".to_string())
    );
}

#[test]
fn ping_over_the_widest_span_does_not_overflow() {
    let start = Moment { timestamp: i64::MIN, subsec_millis: u32::MAX };
    let finish = Moment { timestamp: i64::MAX, subsec_millis: 0 };
    assert_eq!(
        ping(start, finish, Some(Some(1))),
        Ok("Rest API: 18446744073705256647705ms\nShard Latency: 1ms".to_string())
    );
}

#[test]
fn ping_needs_the_shard_and_its_latency() {
    let m = Moment { timestamp: 0, subsec_millis: 0 };
    assert_eq!(ping(m, m, None), Err(GeneralError::NoShard));
    assert_eq!(ping(m, m, Some(None)), Err(GeneralError::NoLatency));
}
