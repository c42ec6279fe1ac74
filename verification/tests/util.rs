use lupusregina::admin::SetPrefixError;
use lupusregina::embed::{Embed, EmbedField};
use lupusregina::numeral::{digit_count, magnitude_of, push_signed, push_zero_padded};
use lupusregina::store::{
    create_db_and_pool, create_table_statement, select_all_statement, select_one_statement,
    table_created, upsert_statement, DbPath, SetupError, StoreError, StoreFailure,
};
use lupusregina::util::DiscordMarkdownDecorator;

fn padded(i: i128, width: usize) -> String {
    let mut s = String::new();
    push_zero_padded(&mut s, i, width);
    s
}

#[test]
fn decorator_marks_emphasis_strong_strikeout_and_code() {
    let mut d = DiscordMarkdownDecorator::new();
    assert_eq!(d.decorate_em_start(), "*");
    assert_eq!(d.decorate_em_end(), "*");
    assert_eq!(d.decorate_strong_start(), "**");
    assert_eq!(d.decorate_strong_end(), "**");
    assert_eq!(d.decorate_strikeout_start(), "--");
    assert_eq!(d.decorate_strikeout_end(), "--");
    assert_eq!(d.decorate_code_start(), "```");
    assert_eq!(d.decorate_code_end(), "```");
}

#[test]
fn decorator_drops_links_and_shows_images_by_title() {
    let mut d = DiscordMarkdownDecorator::default();
    assert_eq!(d.decorate_link_start("https://example.org"), "");
    assert_eq!(d.decorate_link_end(), "");
    assert_eq!(d.decorate_image("A picture"), "A picture");
    assert_eq!(d.decorate_image(""), "");
    d.decorate_preformat_first();
    d.decorate_preformat_cont();
    let mut inner = d.make_subblock_decorator();
    assert_eq!(inner.decorate_em_start(), "*");
    let mut copy = d.clone();
    assert_eq!(copy.decorate_strong_start(), "**");
}

#[test]
fn embed_keeps_its_fields_in_order() {
    let mut e = Embed::new();
    assert_eq!(e, Embed {
        title: None,
        url: None,
        description: None,
        colour: None,
        author: None,
        fields: vec![],
        thumbnail: None,
        image: None,
        footer: None,
        timestamp: false,
        ephemeral: false,
    });
    e.field("a".to_string(), "1".to_string(), true);
    e.field("b".to_string(), "2".to_string(), false);
    assert_eq!(
        e.fields,
        vec![
            EmbedField { name: "a".to_string(), value: "1".to_string(), inline: true },
            EmbedField { name: "b".to_string(), value: "2".to_string(), inline: false },
        ]
    );
}

#[test]
fn zero_padding_agrees_with_the_standard_library() {
    for i in [0i128, 1, 9, 10, 99, 100, 999, 1000, 9999, 10000, -1, -9, -10, -99, -100, -999, -1000]
    {
        assert_eq!(padded(i, 4), format!("{:04}", i), "{}", i);
        assert_eq!(padded(i, 2), format!("{:02}", i), "{}", i);
        assert_eq!(padded(i, 0), format!("{}", i), "{}", i);
        assert_eq!(padded(i, 1), format!("{:01}", i), "{}", i);
        assert_eq!(padded(i, 12), format!("{:012}", i), "{}", i);
    }
    assert_eq!(padded(i128::MAX, 4), format!("{:04}", i128::MAX));
    assert_eq!(padded(i128::MIN, 50), format!("{:050}", i128::MIN));
}

#[test]
fn zero_padding_puts_the_zeros_after_the_sign() {
    assert_eq!(padded(5, 4), "0005");
    assert_eq!(padded(-5, 4), "-005");
    assert_eq!(padded(12345, 4), "12345");
    assert_eq!(padded(-123, 4), "-123");
    assert_eq!(padded(-1234, 4), "-1234");
}

#[test]
fn signed_numerals_agree_with_the_standard_library() {
    for i in [0i128, 1, -1, 42, -42, i64::MAX as i128, i64::MIN as i128, i128::MAX, i128::MIN] {
        let mut s = String::from("x");
        push_signed(&mut s, i);
        assert_eq!(s, format!("x{}", i));
        assert_eq!(magnitude_of(i), i.unsigned_abs());
    }
}

#[test]
fn digit_count_is_the_length_of_the_numeral() {
    for n in [0u128, 9, 10, 99, 100, 12345, u64::MAX as u128, u128::MAX] {
        assert_eq!(digit_count(n), n.to_string().len());
    }
}

#[test]
fn database_address_is_made_of_the_path() {
    assert_eq!(
        create_db_and_pool(DbPath::Path("/home/bot/.local/share/lupus.db".to_string())),
        Ok("sqlite:///home/bot/.local/share/lupus.db".to_string())
    );
    assert_eq!(create_db_and_pool(DbPath::Path("".to_string())), Ok("sqlite://".to_string()));
}

#[test]
fn database_set_up_fails_without_a_path() {
    assert_eq!(create_db_and_pool(DbPath::NoProjectDir), Err(SetupError::NoProjectDir));
    assert_eq!(create_db_and_pool(DbPath::NotUtf8), Err(SetupError::NotUtf8));
    assert_eq!(
        SetupError::NoProjectDir.message(),
        "Could not open project directory when creating database"
    );
    assert_eq!(SetupError::NotUtf8.message(), "Unable to convert database path to UTF-8 string.");
}

#[test]
fn database_set_up_reports_the_database() {
    assert_eq!(table_created(Ok(())), Ok(()));
    assert_eq!(
        table_created(Err("disk full".to_string())),
        Err(SetupError::CreateFailed("disk full".to_string()))
    );
    assert_eq!(
        SetupError::CreateFailed("disk full".to_string()).message(),
        "Unable to create database: disk full"
    );
}

#[test]
fn statements_are_those_of_the_table() {
    assert_eq!(
        create_table_statement(),
        "CREATE TABLE IF NOT EXISTS Prefix (guild_id TEXT PRIMARY KEY, prefix TEXT);"
    );
    assert_eq!(select_one_statement(), "SELECT * FROM Prefix WHERE guild_id == ?;");
    assert_eq!(select_all_statement(), "SELECT * FROM Prefix");
    assert_eq!(
        upsert_statement(),
        "INSERT OR REPLACE INTO Prefix (guild_id, prefix) values (?, ?)"
    );
}

#[test]
fn setprefix_errors_have_their_texts() {
    assert_eq!(SetPrefixError::MissingArgument.message(), "Arg.single was None");
    assert_eq!(SetPrefixError::NotInGuild.message(), "guild_id was None");
    let failure = StoreFailure { kind: StoreError::Unreachable, text: "disk I/O error".to_string() };
    assert_eq!(SetPrefixError::Store(failure).message(), "disk I/O error");
}
