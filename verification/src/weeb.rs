//! The lookups on AniList and on the virtual-youtuber wiki: what is made of
//! an answer once it is there.

use crate::embed::{
    empty_embed, opt_text, Colour, Embed, EmbedFooter, EmbedView, FieldView, FooterView,
};
use crate::numeral::{push_signed, push_zero_padded, signed_decimal, zero_padded};
use crate::text::{
    chars_of, from_first, head_before, join, joined, push_replaced, replaced, string_of,
    tail_from, texts, up_to_first,
};
use vstd::prelude::*;
use vstd::string::StringExecFns;

verus! {

/// A description as Discord shows it: line breaks of HTML become new
/// lines, `<i>` and `<b>` become markdown, and two entities become their
/// characters. The replacements are made one after the other, in this
/// order, each on the whole text.
pub open spec fn formatted_desc(desc: Seq<char>) -> Seq<char> {
    let s = replaced(desc, "<br>"@, "\n"@);
    let s = replaced(s, "<br/>"@, "\n"@);
    let s = replaced(s, "<br />"@, "\n"@);
    let s = replaced(s, "</br>"@, "\n"@);
    let s = replaced(s, "</ br>"@, "\n"@);
    let s = replaced(s, "<i>"@, "*"@);
    let s = replaced(s, "</i>"@, "*"@);
    let s = replaced(s, "<b>"@, "**"@);
    let s = replaced(s, "</b>"@, "**"@);
    let s = replaced(s, "&rsquo;"@, "'"@);
    replaced(s, "&hellip;"@, "…"@)
}

/// `s` with every occurrence of `from` replaced by `to`.
fn replace_in(s: Vec<char>, from: &str, to: &str) -> (r: Vec<char>)
    ensures
        r@ == replaced(s@, from@, to@),
{
    let mut out: Vec<char> = Vec::new();
    let pat = chars_of(from);
    let sub = chars_of(to);
    push_replaced(&mut out, s.as_slice(), pat.as_slice(), sub.as_slice());
    assert(out@ =~= replaced(s@, from@, to@));
    out
}

/// Turns the HTML of a description into Discord's markdown.
pub fn format_desc(desc: String) -> (r: String)
    ensures
        r@ == formatted_desc(desc@),
{
    let s = chars_of(desc.as_str());
    let s = replace_in(s, "<br>", "\n");
    let s = replace_in(s, "<br/>", "\n");
    let s = replace_in(s, "<br />", "\n");
    let s = replace_in(s, "</br>", "\n");
    let s = replace_in(s, "</ br>", "\n");
    let s = replace_in(s, "<i>", "*");
    let s = replace_in(s, "</i>", "*");
    let s = replace_in(s, "<b>", "**");
    let s = replace_in(s, "</b>", "**");
    let s = replace_in(s, "&rsquo;", "'");
    let s = replace_in(s, "&hellip;", "…");
    string_of(s.as_slice())
}

/// Which of AniList's two kinds of media a lookup is for.
#[derive(Clone, Copy, Debug, PartialEq, Eq, Structural)]
pub enum MediaKind {
    Anime,
    Manga,
}

/// A date of which any part may be unknown.
#[derive(Clone, Copy, Debug, PartialEq, Eq, Structural)]
pub struct FuzzyDate {
    pub year: Option<i64>,
    pub month: Option<i64>,
    pub day: Option<i64>,
}

/// The title of a medium in Latin letters and in its own script.
#[derive(Clone, Debug, PartialEq, Eq)]
pub struct MediaTitle {
    pub romaji: Option<String>,
    pub native: Option<String>,
}

/// The cover of a medium.
#[derive(Clone, Debug, PartialEq, Eq)]
pub struct CoverImage {
    pub large: Option<String>,
}

/// What AniList tells of one anime or manga. `count` is the number of
/// episodes of an anime and the number of chapters of a manga; `status` and
/// `season` are AniList's names for them.
#[derive(Clone, Debug, PartialEq, Eq)]
pub struct Media {
    pub id: i64,
    pub title: Option<MediaTitle>,
    pub cover_image: Option<CoverImage>,
    pub description: Option<String>,
    pub status: Option<String>,
    pub count: Option<i64>,
    pub genres: Option<Vec<Option<String>>>,
    pub average_score: Option<i64>,
    pub season: Option<String>,
    pub start_date: Option<FuzzyDate>,
    pub end_date: Option<FuzzyDate>,
}

/// One page of media.
#[derive(Clone, Debug, PartialEq, Eq)]
pub struct Page {
    pub media: Option<Vec<Option<Media>>>,
}

/// The data of an answer.
#[derive(Clone, Debug, PartialEq, Eq)]
pub struct ResponseData {
    pub page: Option<Page>,
}

/// An answer of AniList; every level of it may be missing.
#[derive(Clone, Debug, PartialEq, Eq)]
pub struct Response {
    pub data: Option<ResponseData>,
}

/// Why a lookup gave no embed.
#[derive(Clone, Copy, Debug, PartialEq, Eq, Structural)]
pub enum WeebError {
    /// The answer holds no medium.
    NoMedia(MediaKind),
    /// The medium has no title.
    NoTitle(MediaKind),
    /// The wiki's answer holds no text.
    NoText,
    /// The article has no `</aside>`, after which the description starts.
    NoStart,
    /// The rendered article has no `##`, before which the description ends.
    NoEnd,
}

/// What the error reads as.
pub open spec fn weeb_error_text(e: WeebError) -> Seq<char> {
    match e {
        WeebError::NoMedia(MediaKind::Anime) => "Unable to get anime from response."@,
        WeebError::NoMedia(MediaKind::Manga) => "Unable to get manga from response."@,
        WeebError::NoTitle(MediaKind::Anime) => "Unable to get title field from anime."@,
        WeebError::NoTitle(MediaKind::Manga) => "Unable to get title field from manga."@,
        WeebError::NoText => "Failed to get text"@,
        WeebError::NoStart => "Unable to find start of description"@,
        WeebError::NoEnd => "Unable to find end of description"@,
    }
}

impl WeebError {
    /// What the error reads as.
    pub fn message(&self) -> (m: &'static str)
        ensures
            m@ == weeb_error_text(*self),
    {
        match self {
            WeebError::NoMedia(MediaKind::Anime) => "Unable to get anime from response.",
            WeebError::NoMedia(MediaKind::Manga) => "Unable to get manga from response.",
            WeebError::NoTitle(MediaKind::Anime) => "Unable to get title field from anime.",
            WeebError::NoTitle(MediaKind::Manga) => "Unable to get title field from manga.",
            WeebError::NoText => "Failed to get text",
            WeebError::NoStart => "Unable to find start of description",
            WeebError::NoEnd => "Unable to find end of description",
        }
    }
}

/// The first medium of the first page, if the answer has one.
pub open spec fn first_media(r: Response) -> Option<Media> {
    match r.data {
        Some(ResponseData { page: Some(Page { media: Some(media) }) }) => if media@.len() > 0 {
            media@[0]
        } else {
            None
        },
        _ => None,
    }
}

/// A part of a date as a number; an unknown part counts as 0.
pub open spec fn date_part(p: Option<i64>) -> int {
    match p {
        Some(v) => v as int,
        None => 0,
    }
}

/// A date as `year/month/day`, the year filled up to four digits, month
/// and day to two; no date at all reads as all zeros.
pub open spec fn date_text(d: Option<FuzzyDate>) -> Seq<char> {
    match d {
        None => "0000/00/00"@,
        Some(d) => zero_padded(date_part(d.year), 4) + "/"@ + zero_padded(date_part(d.month), 2)
            + "/"@ + zero_padded(date_part(d.day), 2),
    }
}

/// The title line: both titles where both are known, the one that is
/// known otherwise.
pub open spec fn title_text(t: MediaTitle) -> Seq<char> {
    match (t.romaji, t.native) {
        (Some(romaji), Some(native)) => romaji@ + " | "@ + native@,
        (Some(title), None) => title@,
        (None, Some(title)) => title@,
        (None, None) => "Title unavailable."@,
    }
}

/// The texts of the items that are there, in order.
pub open spec fn present(items: Seq<Option<String>>) -> Seq<Seq<char>>
    decreases items.len(),
{
    if items.len() == 0 {
        Seq::empty()
    } else {
        match items.last() {
            Some(s) => present(items.drop_last()).push(s@),
            None => present(items.drop_last()),
        }
    }
}

/// One inline field where there is a value, none where there is not.
pub open spec fn text_field(name: Seq<char>, value: Option<Seq<char>>) -> Seq<FieldView> {
    match value {
        Some(v) => seq![FieldView { name, value: v, inline: true }],
        None => Seq::empty(),
    }
}

/// A date's field, unless the date reads as all zeros.
pub open spec fn date_field(name: Seq<char>, d: Option<FuzzyDate>) -> Seq<FieldView> {
    text_field(
        name,
        if date_text(d) != "0000/00/00"@ {
            Some(date_text(d))
        } else {
            None
        },
    )
}

/// The name of the field that holds `count`.
pub open spec fn count_name(kind: MediaKind) -> Seq<char> {
    match kind {
        MediaKind::Anime => "Episodes"@,
        MediaKind::Manga => "Chapters"@,
    }
}

/// The address of AniList's page of the medium, without its number.
pub open spec fn media_path(kind: MediaKind) -> Seq<char> {
    match kind {
        MediaKind::Anime => "https://anilist.co/anime/"@,
        MediaKind::Manga => "https://anilist.co/manga/"@,
    }
}

/// The fields of a medium's embed, in their order: status, count, genres,
/// score, for an anime its season, start and end.
pub open spec fn media_fields(m: Media, kind: MediaKind) -> Seq<FieldView> {
    text_field("Status"@, opt_text(m.status)) + text_field(
        count_name(kind),
        match m.count {
            Some(c) => Some(signed_decimal(c as int)),
            None => None,
        },
    ) + text_field(
        "Genres"@,
        match m.genres {
            Some(g) => Some(joined(present(g@), ", "@)),
            None => None,
        },
    ) + text_field(
        "Average Score"@,
        match m.average_score {
            Some(score) => Some(signed_decimal(score as int) + "%"@),
            None => None,
        },
    ) + (match kind {
        MediaKind::Anime => text_field("Season"@, opt_text(m.season)),
        MediaKind::Manga => Seq::empty(),
    }) + date_field("Start Date"@, m.start_date) + date_field("End Date"@, m.end_date)
}

/// The embed that shows the medium `m` under the title `title`.
pub open spec fn media_embed(m: Media, title: MediaTitle, kind: MediaKind) -> EmbedView {
    EmbedView {
        title: Some(title_text(title)),
        url: Some(media_path(kind) + signed_decimal(m.id as int)),
        description: Some(
            match m.description {
                Some(d) => formatted_desc(d@),
                None => "No description available."@,
            },
        ),
        colour: Some(Colour::Blue),
        author: None,
        fields: media_fields(m, kind),
        thumbnail: match m.cover_image {
            Some(c) => opt_text(c.large),
            None => None,
        },
        image: None,
        footer: Some(
            FooterView {
                text: "Data provided by Anilist.co"@,
                icon_url: Some("https://anilist.co/img/icons/apple-touch-icon-152x152.png"@),
            },
        ),
        timestamp: true,
        ephemeral: false,
    }
}

/// What a lookup answers: the embed of the first medium, or why there is
/// none.
pub open spec fn media_reply(r: Response, kind: MediaKind) -> Result<EmbedView, WeebError> {
    match first_media(r) {
        None => Err(WeebError::NoMedia(kind)),
        Some(m) => match m.title {
            None => Err(WeebError::NoTitle(kind)),
            Some(title) => Ok(media_embed(m, title, kind)),
        },
    }
}

/// The text of an article from its `</aside>` on, where the description
/// starts.
pub open spec fn article_body_of(text: Option<Seq<char>>) -> Result<Seq<char>, WeebError> {
    match text {
        None => Err(WeebError::NoText),
        Some(t) => match from_first(t, "</aside>"@) {
            Some(body) => Ok(body),
            None => Err(WeebError::NoStart),
        },
    }
}

/// The rendered article up to its first `##`, where the description ends.
pub open spec fn description_of(parsed: Seq<char>) -> Result<Seq<char>, WeebError> {
    match up_to_first(parsed, "##"@) {
        Some(desc) => Ok(desc),
        None => Err(WeebError::NoEnd),
    }
}

/// The embed that shows an article of the wiki.
pub open spec fn vtuber_embed(
    title: Seq<char>,
    url: Seq<char>,
    desc: Seq<char>,
    thumbnail: Option<Seq<char>>,
) -> EmbedView {
    EmbedView {
        title: Some(title),
        url: Some(url),
        description: Some(desc),
        thumbnail,
        ..empty_embed()
    }
}

/// The first hit of a search: its title and its address.
pub fn first_result(titles: &Vec<String>, urls: &Vec<String>) -> (hit: (String, String))
    requires
        titles@.len() > 0,
        urls@.len() > 0,
    ensures
        hit.0 == titles@[0],
        hit.1 == urls@[0],
{
    (titles[0].clone(), urls[0].clone())
}

/// The part of an article's text that is rendered: from `</aside>` on.
pub fn article_body(text: Option<String>) -> (r: Result<String, WeebError>)
    ensures
        match r {
            Ok(body) => article_body_of(opt_text(text)) == Ok::<Seq<char>, WeebError>(body@),
            Err(e) => article_body_of(opt_text(text)) == Err::<Seq<char>, WeebError>(e),
        },
{
    match text {
        None => Err(WeebError::NoText),
        Some(t) => match tail_from(t.as_str(), "</aside>") {
            Some(body) => Ok(body),
            None => Err(WeebError::NoStart),
        },
    }
}

/// The embed of an article: its title, its address, the rendered text up
/// to the first `##` as description, and its image if it has one.
pub fn vtuber(title: String, url: String, parsed_text: &str, thumbnail: Option<String>) -> (r:
    Result<Embed, WeebError>)
    ensures
        match r {
            Ok(e) => description_of(parsed_text@) matches Ok(desc) && e@ == vtuber_embed(
                title@,
                url@,
                desc,
                opt_text(thumbnail),
            ),
            Err(err) => description_of(parsed_text@) == Err::<Seq<char>, WeebError>(err),
        },
{
    let desc = match head_before(parsed_text, "##") {
        Some(desc) => desc,
        None => {
            return Err(WeebError::NoEnd);
        },
    };
    let mut e = Embed::new();
    e.title = Some(title);
    e.url = Some(url);
    e.description = Some(desc);
    e.thumbnail = thumbnail;
    Ok(e)
}

/// The first medium of the first page.
fn take_first_media(r: Response) -> (m: Option<Media>)
    ensures
        m == first_media(r),
{
    match r.data {
        Some(data) => match data.page {
            Some(page) => match page.media {
                Some(media) => {
                    let mut media = media;
                    if media.len() > 0 {
                        media.swap_remove(0)
                    } else {
                        None
                    }
                },
                None => None,
            },
            None => None,
        },
        None => None,
    }
}

/// A date as `year/month/day`.
fn date_string(d: Option<FuzzyDate>) -> (s: String)
    ensures
        s@ == date_text(d),
{
    match d {
        None => String::from_str("0000/00/00"),
        Some(d) => {
            let mut s = String::new();
            push_zero_padded(&mut s, part_of(d.year), 4);
            s.append("/");
            push_zero_padded(&mut s, part_of(d.month), 2);
            s.append("/");
            push_zero_padded(&mut s, part_of(d.day), 2);
            assert(s@ =~= date_text(Some(d)));
            s
        },
    }
}

/// A part of a date as a number.
fn part_of(p: Option<i64>) -> (v: i128)
    ensures
        v == date_part(p),
{
    match p {
        Some(v) => v as i128,
        None => 0,
    }
}

/// The title line of a medium.
fn title_string(t: MediaTitle) -> (s: String)
    ensures
        s@ == title_text(t),
{
    match (t.romaji, t.native) {
        (Some(romaji), Some(native)) => {
            let mut s = romaji;
            s.append(" | ");
            s.append(native.as_str());
            s
        },
        (Some(title), None) => title,
        (None, Some(title)) => title,
        (None, None) => String::from_str("Title unavailable."),
    }
}

/// The genres that are there, with a comma and a blank between each two.
fn genres_string(genres: Vec<Option<String>>) -> (s: String)
    ensures
        s@ == joined(present(genres@), ", "@),
{
    let mut kept: Vec<String> = Vec::new();
    let mut i: usize = 0;
    assert(texts(kept@) =~= present(genres@.take(0)));
    while i < genres.len()
        invariant
            i <= genres.len(),
            texts(kept@) == present(genres@.take(i as int)),
        decreases genres.len() - i,
    {
        let ghost seen = genres@.take(i as int);
        let ghost next = genres@.take(i + 1);
        assert(next.drop_last() =~= seen);
        assert(next.last() == genres@[i as int]);
        match &genres[i] {
            Some(g) => {
                let ghost before = texts(kept@);
                kept.push(g.clone());
                assert(texts(kept@) =~= before.push(g@));
            },
            None => {},
        }
        i += 1;
    }
    assert(genres@.take(i as int) =~= genres@);
    join(&kept, ", ")
}

/// Adds an inline field to the embed where there is a value.
fn add_field(e: &mut Embed, name: &str, value: Option<String>)
    ensures
        final(e)@ == (EmbedView {
            fields: old(e)@.fields + text_field(name@, opt_text(value)),
            ..old(e)@
        }),
{
    match value {
        Some(v) => {
            e.field(String::from_str(name), v, true);
            assert(e@.fields =~= old(e)@.fields + text_field(name@, opt_text(value)));
        },
        None => {
            assert(e@.fields =~= old(e)@.fields + text_field(name@, opt_text(value)));
        },
    }
}

/// Adds a date's field to the embed, unless the date reads as all zeros.
fn add_date_field(e: &mut Embed, name: &str, d: Option<FuzzyDate>)
    ensures
        final(e)@ == (EmbedView { fields: old(e)@.fields + date_field(name@, d), ..old(e)@ }),
{
    let text = date_string(d);
    let none = String::from_str("0000/00/00");
    let value = if text != none {
        Some(text)
    } else {
        None
    };
    add_field(e, name, value);
}

/// The decimal numeral of `i`.
fn signed_string(i: i64) -> (s: String)
    ensures
        s@ == signed_decimal(i as int),
{
    let mut s = String::new();
    push_signed(&mut s, i as i128);
    s
}

/// The embed of the first medium of an answer, or why there is none.
pub fn media(response: Response, kind: MediaKind) -> (r: Result<Embed, WeebError>)
    ensures
        match r {
            Ok(e) => media_reply(response, kind) == Ok::<EmbedView, WeebError>(e@),
            Err(err) => media_reply(response, kind) == Err::<EmbedView, WeebError>(err),
        },
{
    let m = match take_first_media(response) {
        Some(m) => m,
        None => {
            return Err(WeebError::NoMedia(kind));
        },
    };
    let ghost whole = m;
    let Media {
        id,
        title,
        cover_image,
        description,
        status,
        count,
        genres,
        average_score,
        season,
        start_date,
        end_date,
    } = m;
    let title = match title {
        Some(title) => title,
        None => {
            return Err(WeebError::NoTitle(kind));
        },
    };
    let ghost shown = title;
    let mut e = Embed::new();
    e.colour = Some(Colour::Blue);
    let mut url = match kind {
        MediaKind::Anime => String::from_str("https://anilist.co/anime/"),
        MediaKind::Manga => String::from_str("https://anilist.co/manga/"),
    };
    push_signed(&mut url, id as i128);
    e.url = Some(url);
    e.title = Some(title_string(title));
    e.description = Some(
        match description {
            Some(d) => format_desc(d),
            None => String::from_str("No description available."),
        },
    );
    e.thumbnail = match cover_image {
        Some(c) => c.large,
        None => None,
    };
    add_field(&mut e, "Status", status);
    let counted = match count {
        Some(c) => Some(signed_string(c)),
        None => None,
    };
    match kind {
        MediaKind::Anime => add_field(&mut e, "Episodes", counted),
        MediaKind::Manga => add_field(&mut e, "Chapters", counted),
    }
    let listed = match genres {
        Some(g) => Some(genres_string(g)),
        None => None,
    };
    add_field(&mut e, "Genres", listed);
    let scored = match average_score {
        Some(score) => {
            let mut s = signed_string(score);
            s.append("%");
            Some(s)
        },
        None => None,
    };
    add_field(&mut e, "Average Score", scored);
    match kind {
        MediaKind::Anime => add_field(&mut e, "Season", season),
        MediaKind::Manga => {},
    }
    add_date_field(&mut e, "Start Date", start_date);
    add_date_field(&mut e, "End Date", end_date);
    e.timestamp = true;
    e.footer = Some(
        EmbedFooter {
            text: String::from_str("Data provided by Anilist.co"),
            icon_url: Some(
                String::from_str("https://anilist.co/img/icons/apple-touch-icon-152x152.png"),
            ),
        },
    );
    assert(e@.fields =~= media_fields(whole, kind));
    assert(e@ == media_embed(whole, shown, kind));
    Ok(e)
}

/// The embed that shows the first anime of an answer.
pub fn anime(response: Response) -> (r: Result<Embed, WeebError>)
    ensures
        match r {
            Ok(e) => media_reply(response, MediaKind::Anime) == Ok::<EmbedView, WeebError>(e@),
            Err(err) => media_reply(response, MediaKind::Anime) == Err::<EmbedView, WeebError>(
                err,
            ),
        },
{
    media(response, MediaKind::Anime)
}

/// The embed that shows the first manga of an answer.
pub fn manga(response: Response) -> (r: Result<Embed, WeebError>)
    ensures
        match r {
            Ok(e) => media_reply(response, MediaKind::Manga) == Ok::<EmbedView, WeebError>(e@),
            Err(err) => media_reply(response, MediaKind::Manga) == Err::<EmbedView, WeebError>(
                err,
            ),
        },
{
    media(response, MediaKind::Manga)
}

} // verus!
