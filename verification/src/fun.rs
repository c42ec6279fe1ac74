//! The commands that are for fun: the eight ball, the messages in the manner
//! of three games, and the date of the Discordian calendar.

use crate::embed::{
    empty_embed, opt_text, AuthorView, Colour, Embed, EmbedAuthor, EmbedView, FieldView,
};
use crate::numeral::{decimal, push_decimal, push_signed, signed_decimal};
use crate::text::{replace, replaced};
use rand::rngs::{OsRng, StdRng};
use rand::{Rng, SeedableRng};
use vstd::prelude::*;
use vstd::string::StringExecFns;

verus! {

/// rand's standard generator. Nothing is known of its state.
#[verifier::external_type_specification]
#[verifier::external_body]
pub struct ExStdRng(StdRng);

/// rand's error: the operating system gave no entropy.
#[verifier::external_type_specification]
#[verifier::external_body]
pub struct ExRandError(rand::Error);

/// `SeedableRng::from_rng` of rand on `OsRng`: a generator seeded from the
/// operating system, or the error of the operating system. Nothing is
/// claimed of the generator.
#[verifier::external_body]
fn seeded_rng() -> Result<StdRng, rand::Error> {
    StdRng::from_rng(OsRng)
}

/// `Rng::gen_range` of rand over `0..=upper`: the range is not empty, so the
/// call does not panic, and what it gives lies in the range. Which number
/// comes is left open.
#[verifier::external_body]
fn draw(rng: &mut StdRng, upper: usize) -> (r: usize)
    ensures
        r <= upper,
{
    rng.gen_range(0..=upper)
}

/// Why a command that draws numbers gave no message.
#[derive(Clone, Copy, Debug, PartialEq, Eq, Structural)]
pub enum FunError {
    /// The operating system gave no entropy to seed the generator with.
    NoEntropy,
    /// A number was drawn that is the length of its table: one past the
    /// table's last entry.
    DrawPastEnd,
}

/// A generator seeded from the operating system.
fn new_rng() -> (r: Result<StdRng, FunError>)
    ensures
        r matches Err(e) ==> e == FunError::NoEntropy,
{
    match seeded_rng() {
        Ok(rng) => Ok(rng),
        Err(_) => Err(FunError::NoEntropy),
    }
}

/// The answer of the eight ball under the number `num`.
pub open spec fn answer_text(num: int) -> Seq<char> {
    if num == 0 {
        "It is certain."@
    } else if num == 1 {
        "It is decidedly so."@
    } else if num == 2 {
        "Without a doubt."@
    } else if num == 3 {
        "Yes- definitely."@
    } else if num == 4 {
        "You may rely on it."@
    } else if num == 5 {
        "As I see it, yes"@
    } else if num == 6 {
        "Most likely"@
    } else if num == 7 {
        "Outlook good."@
    } else if num == 8 {
        "Yes."@
    } else if num == 9 {
        "Signs point to yes."@
    } else if num == 10 {
        "Reply hazy, try again."@
    } else if num == 11 {
        "Ask again later."@
    } else if num == 12 {
        "Better not tell you now"@
    } else if num == 13 {
        "Cannot predict now."@
    } else if num == 14 {
        "Concentrate and ask again."@
    } else if num == 15 {
        "Don't count on it."@
    } else if num == 16 {
        "My reply is no."@
    } else if num == 17 {
        "My sources say no."@
    } else if num == 18 {
        "Outlook not so good."@
    } else {
        "Very doubtful."@
    }
}

/// The colour that goes with an answer: green for the ten that say yes,
/// yellow for the five that say neither, red for the five that say no.
pub open spec fn answer_colour(num: int) -> Colour {
    if num <= 9 {
        Colour::Rgb(0x28A745)
    } else if num <= 14 {
        Colour::Rgb(0xFFC107)
    } else {
        Colour::Rgb(0xDC3545)
    }
}

/// The embed that answers `question` with the answer under `num`: the asker
/// is shown by nickname where there is one, by name otherwise.
pub open spec fn eightball_view(
    question: Seq<char>,
    num: int,
    nick: Option<Seq<char>>,
    author_name: Seq<char>,
    face: Seq<char>,
) -> EmbedView {
    EmbedView {
        colour: Some(answer_colour(num)),
        description: Some(question),
        author: Some(
            AuthorView {
                name: match nick {
                    Some(n) => n,
                    None => author_name,
                },
                icon_url: Some(face),
            },
        ),
        fields: seq![
            FieldView { name: "🎱Eightball🎱"@, value: answer_text(num), inline: false },
        ],
        ..empty_embed()
    }
}

/// The answer of the eight ball under the number `num`.
pub fn answer(num: usize) -> (a: &'static str)
    requires
        num < 20,
    ensures
        a@ == answer_text(num as int),
{
    if num == 0 {
        "It is certain."
    } else if num == 1 {
        "It is decidedly so."
    } else if num == 2 {
        "Without a doubt."
    } else if num == 3 {
        "Yes- definitely."
    } else if num == 4 {
        "You may rely on it."
    } else if num == 5 {
        "As I see it, yes"
    } else if num == 6 {
        "Most likely"
    } else if num == 7 {
        "Outlook good."
    } else if num == 8 {
        "Yes."
    } else if num == 9 {
        "Signs point to yes."
    } else if num == 10 {
        "Reply hazy, try again."
    } else if num == 11 {
        "Ask again later."
    } else if num == 12 {
        "Better not tell you now"
    } else if num == 13 {
        "Cannot predict now."
    } else if num == 14 {
        "Concentrate and ask again."
    } else if num == 15 {
        "Don't count on it."
    } else if num == 16 {
        "My reply is no."
    } else if num == 17 {
        "My sources say no."
    } else if num == 18 {
        "Outlook not so good."
    } else {
        "Very doubtful."
    }
}

/// The embed that answers `question` with the answer under `num`.
pub fn eightball_embed(
    question: String,
    num: usize,
    nick: Option<String>,
    author_name: String,
    face: String,
) -> (e: Embed)
    requires
        num < 20,
    ensures
        e@ == eightball_view(question@, num as int, opt_text(nick), author_name@, face@),
{
    let mut e = Embed::new();
    e.colour = Some(
        if num <= 9 {
            Colour::Rgb(0x28A745)
        } else if num <= 14 {
            Colour::Rgb(0xFFC107)
        } else {
            Colour::Rgb(0xDC3545)
        },
    );
    e.description = Some(question);
    let name = match nick {
        Some(n) => n,
        None => author_name,
    };
    e.author = Some(EmbedAuthor { name, icon_url: Some(face) });
    e.field(String::from_str("🎱Eightball🎱"), String::from_str(answer(num)), false);
    assert(e@.fields =~= eightball_view(
        question@,
        num as int,
        opt_text(nick),
        author_name@,
        face@,
    ).fields);
    e
}

/// Asks the eight ball: one of its twenty answers is drawn.
pub fn eightball(question: String, nick: Option<String>, author_name: String, face: String) -> (r:
    Result<Embed, FunError>)
    ensures
        match r {
            Ok(e) => exists|num: int|
                0 <= num < 20 && e@ == #[trigger] eightball_view(
                    question@,
                    num,
                    opt_text(nick),
                    author_name@,
                    face@,
                ),
            Err(e) => e == FunError::NoEntropy,
        },
{
    let mut rng = match new_rng() {
        Ok(rng) => rng,
        Err(e) => {
            return Err(e);
        },
    };
    let num = draw(&mut rng, 19);
    Ok(eightball_embed(question, num, nick, author_name, face))
}

/// A template with each `{}` in it replaced by the filler.
pub open spec fn filled(template: Seq<char>, filler: Seq<char>) -> Seq<char> {
    replaced(template, "{}"@, filler)
}

/// Two messages and the conjunction between them: a comma stands right
/// after the first message, any other conjunction stands apart from it.
pub open spec fn conjoined(first: Seq<char>, conjunction: Seq<char>, second: Seq<char>) -> Seq<
    char,
> {
    if conjunction != ","@ {
        first + " "@ + conjunction + " "@ + second
    } else {
        first + conjunction + " "@ + second
    }
}

/// Which entries of the tables a message is made of: one template and one
/// filler, or a conjunction and two of each.
#[derive(Clone, Copy, Debug, PartialEq, Eq, Structural)]
pub enum MessagePlan {
    Single { template: usize, filler: usize },
    Joined {
        conjunction: usize,
        first_template: usize,
        first_filler: usize,
        second_template: usize,
        second_filler: usize,
    },
}

/// Whether every entry that the plan names is in its table.
pub open spec fn plan_fits(plan: MessagePlan, templates: int, fillers: int, conjunctions: int)
    -> bool {
    match plan {
        MessagePlan::Single { template, filler } => template < templates && filler < fillers,
        MessagePlan::Joined {
            conjunction,
            first_template,
            first_filler,
            second_template,
            second_filler,
        } => conjunction < conjunctions && first_template < templates && first_filler < fillers
            && second_template < templates && second_filler < fillers,
    }
}

/// The message that a plan makes of the tables.
pub open spec fn planned_message(
    templates: Seq<String>,
    fillers: Seq<String>,
    conjunctions: Seq<String>,
    plan: MessagePlan,
) -> Seq<char> {
    match plan {
        MessagePlan::Single { template, filler } => filled(
            templates[template as int]@,
            fillers[filler as int]@,
        ),
        MessagePlan::Joined {
            conjunction,
            first_template,
            first_filler,
            second_template,
            second_filler,
        } => conjoined(
            filled(templates[first_template as int]@, fillers[first_filler as int]@),
            conjunctions[conjunction as int]@,
            filled(templates[second_template as int]@, fillers[second_filler as int]@),
        ),
    }
}

/// A template with each `{}` in it replaced by the filler.
pub fn fill(template: &str, filler: &str) -> (m: String)
    ensures
        m@ == filled(template@, filler@),
{
    replace(template, "{}", filler)
}

/// The message that a plan makes of the tables.
pub fn message(
    templates: &Vec<String>,
    fillers: &Vec<String>,
    conjunctions: &Vec<String>,
    plan: MessagePlan,
) -> (m: String)
    requires
        plan_fits(plan, templates@.len() as int, fillers@.len() as int, conjunctions@.len() as int),
    ensures
        m@ == planned_message(templates@, fillers@, conjunctions@, plan),
{
    match plan {
        MessagePlan::Single { template, filler } => fill(
            templates[template].as_str(),
            fillers[filler].as_str(),
        ),
        MessagePlan::Joined {
            conjunction,
            first_template,
            first_filler,
            second_template,
            second_filler,
        } => {
            let mut m = String::new();
            let first = fill(templates[first_template].as_str(), fillers[first_filler].as_str());
            m.append(first.as_str());
            let comma = String::from_str(",");
            if conjunctions[conjunction] != comma {
                m.append(" ");
                m.append(conjunctions[conjunction].as_str());
                m.append(" ");
            } else {
                m.append(conjunctions[conjunction].as_str());
                m.append(" ");
            }
            let second = fill(
                templates[second_template].as_str(),
                fillers[second_filler].as_str(),
            );
            m.append(second.as_str());
            assert(m@ =~= planned_message(templates@, fillers@, conjunctions@, plan));
            m
        },
    }
}

/// Draws the plan of a message of one template: each number is drawn from
/// 0 up to the length of its table, the length included.
fn draw_single(rng: &mut StdRng, templates: usize, fillers: usize) -> (plan: MessagePlan)
    ensures
        plan matches MessagePlan::Single { template, filler } && template <= templates && filler
            <= fillers,
{
    let template = draw(rng, templates);
    let filler = draw(rng, fillers);
    MessagePlan::Single { template, filler }
}

/// Whether the first draw, a number from 0 to 2, gives the message a
/// conjunction: 1 does, 0 and 2 do not.
pub open spec fn conjunction_wanted(first_draw: int) -> bool {
    first_draw == 1
}

/// Whether the first draw gives the message a conjunction.
pub fn wants_conjunction(first_draw: usize) -> (joined: bool)
    ensures
        joined == conjunction_wanted(first_draw as int),
        joined == (first_draw == 1),
{
    first_draw == 1
}

/// Draws the plan of two messages and the conjunction between them: each
/// number is drawn from 0 up to the length of its table, the length
/// included.
fn draw_joined(rng: &mut StdRng, templates: usize, fillers: usize, conjunctions: usize) -> (plan:
    MessagePlan)
    ensures
        plan is Joined,
        plan_drawn(plan, templates as int, fillers as int, conjunctions as int),
{
    let conjunction = draw(rng, conjunctions);
    let first_template = draw(rng, templates);
    let first_filler = draw(rng, fillers);
    let second_template = draw(rng, templates);
    let second_filler = draw(rng, fillers);
    MessagePlan::Joined {
        conjunction,
        first_template,
        first_filler,
        second_template,
        second_filler,
    }
}

/// Draws the plan of a message that may have a conjunction, and hands back
/// the first draw with it: a number from 0 to 2 is drawn first, and the
/// plan has a conjunction exactly where that number wants one.
fn draw_plan(rng: &mut StdRng, templates: usize, fillers: usize, conjunctions: usize) -> (drawn: (
    usize,
    MessagePlan,
))
    ensures
        drawn.0 <= 2,
        drawn.1 is Joined == conjunction_wanted(drawn.0 as int),
        match drawn.1 {
            MessagePlan::Single { template, filler } => template <= templates && filler
                <= fillers,
            MessagePlan::Joined {
                conjunction,
                first_template,
                first_filler,
                second_template,
                second_filler,
            } => conjunction <= conjunctions && first_template <= templates && first_filler
                <= fillers && second_template <= templates && second_filler <= fillers,
        },
{
    let first_draw = draw(rng, 2);
    if wants_conjunction(first_draw) {
        (first_draw, draw_joined(rng, templates, fillers, conjunctions))
    } else {
        (first_draw, draw_single(rng, templates, fillers))
    }
}

/// Whether every entry that the plan names is in its table.
pub fn fits(plan: MessagePlan, templates: usize, fillers: usize, conjunctions: usize) -> (r: bool)
    ensures
        r == plan_fits(plan, templates as int, fillers as int, conjunctions as int),
{
    match plan {
        MessagePlan::Single { template, filler } => template < templates && filler < fillers,
        MessagePlan::Joined {
            conjunction,
            first_template,
            first_filler,
            second_template,
            second_filler,
        } => conjunction < conjunctions && first_template < templates && first_filler < fillers
            && second_template < templates && second_filler < fillers,
    }
}

/// Whether the plan can come of the draws: each number is drawn from 0 up
/// to the length of its table, the length included.
pub open spec fn plan_drawn(plan: MessagePlan, templates: int, fillers: int, conjunctions: int)
    -> bool {
    match plan {
        MessagePlan::Single { template, filler } => template <= templates && filler <= fillers,
        MessagePlan::Joined {
            conjunction,
            first_template,
            first_filler,
            second_template,
            second_filler,
        } => conjunction <= conjunctions && first_template <= templates && first_filler
            <= fillers && second_template <= templates && second_filler <= fillers,
    }
}

/// What comes of a plan: its message where every entry that it names is in
/// its table, no message where a number is one past the end of its table.
pub open spec fn planned_outcome(
    templates: Seq<String>,
    fillers: Seq<String>,
    conjunctions: Seq<String>,
    plan: MessagePlan,
) -> Result<Seq<char>, FunError> {
    if plan_fits(plan, templates.len() as int, fillers.len() as int, conjunctions.len() as int) {
        Ok(planned_message(templates, fillers, conjunctions, plan))
    } else {
        Err(FunError::DrawPastEnd)
    }
}

/// Whether `r` is what comes of the plan.
pub open spec fn came_of(
    r: Result<String, FunError>,
    templates: Seq<String>,
    fillers: Seq<String>,
    conjunctions: Seq<String>,
    plan: MessagePlan,
) -> bool {
    match r {
        Ok(m) => planned_outcome(templates, fillers, conjunctions, plan) == Ok::<
            Seq<char>,
            FunError,
        >(m@),
        Err(e) => planned_outcome(templates, fillers, conjunctions, plan) == Err::<
            Seq<char>,
            FunError,
        >(e),
    }
}

/// What comes of a plan that was drawn: its message, or `DrawPastEnd`
/// where it names an entry that its table does not have.
pub fn planned(
    templates: &Vec<String>,
    fillers: &Vec<String>,
    conjunctions: &Vec<String>,
    plan: MessagePlan,
) -> (r: Result<String, FunError>)
    ensures
        came_of(r, templates@, fillers@, conjunctions@, plan),
{
    if !fits(plan, templates.len(), fillers.len(), conjunctions.len()) {
        return Err(FunError::DrawPastEnd);
    }
    Ok(message(templates, fillers, conjunctions, plan))
}

/// A message in the manner of Dark Souls: a generator is seeded, a template
/// and a filler are drawn, each from 0 up to the length of its table, and
/// the result is what comes of that plan. Without entropy nothing is drawn.
pub fn darksouls(templates: &Vec<String>, fillers: &Vec<String>) -> (r: Result<String, FunError>)
    ensures
        r == Err::<String, FunError>(FunError::NoEntropy) || exists|plan: MessagePlan|
            plan is Single && plan_drawn(plan, templates@.len() as int, fillers@.len() as int, 0)
                && #[trigger] came_of(r, templates@, fillers@, Seq::<String>::empty(), plan),
{
    let mut rng = match new_rng() {
        Ok(rng) => rng,
        Err(e) => {
            return Err(e);
        },
    };
    let plan = draw_single(&mut rng, templates.len(), fillers.len());
    let none: Vec<String> = Vec::new();
    let r = planned(templates, fillers, &none, plan);
    assert(none@ =~= Seq::<String>::empty());
    assert(came_of(r, templates@, fillers@, Seq::<String>::empty(), plan));
    r
}

/// A message that may be two, joined by a conjunction: a generator is
/// seeded, the plan is drawn, each of its numbers from 0 up to the length
/// of its table, and the result is what comes of that plan. Without
/// entropy nothing is drawn.
fn drawn_message(templates: &Vec<String>, fillers: &Vec<String>, conjunctions: &Vec<String>) -> (r:
    Result<String, FunError>)
    ensures
        r == Err::<String, FunError>(FunError::NoEntropy) || exists|plan: MessagePlan|
            plan_drawn(
                plan,
                templates@.len() as int,
                fillers@.len() as int,
                conjunctions@.len() as int,
            ) && #[trigger] came_of(r, templates@, fillers@, conjunctions@, plan),
{
    let mut rng = match new_rng() {
        Ok(rng) => rng,
        Err(e) => {
            return Err(e);
        },
    };
    let (_, plan) = draw_plan(&mut rng, templates.len(), fillers.len(), conjunctions.len());
    let r = planned(templates, fillers, conjunctions, plan);
    assert(came_of(r, templates@, fillers@, conjunctions@, plan));
    r
}

/// A message in the manner of Dark Souls 3: one message, or two with a
/// conjunction between them, as the draws have it.
pub fn darksouls3(templates: &Vec<String>, fillers: &Vec<String>, conjunctions: &Vec<String>) -> (r:
    Result<String, FunError>)
    ensures
        r == Err::<String, FunError>(FunError::NoEntropy) || exists|plan: MessagePlan|
            plan_drawn(
                plan,
                templates@.len() as int,
                fillers@.len() as int,
                conjunctions@.len() as int,
            ) && #[trigger] came_of(r, templates@, fillers@, conjunctions@, plan),
{
    drawn_message(templates, fillers, conjunctions)
}

/// A note in the manner of Bloodborne: one note, or two with a conjunction
/// between them, as the draws have it.
pub fn bloodborne(templates: &Vec<String>, fillers: &Vec<String>, conjunctions: &Vec<String>) -> (r:
    Result<String, FunError>)
    ensures
        r == Err::<String, FunError>(FunError::NoEntropy) || exists|plan: MessagePlan|
            plan_drawn(
                plan,
                templates@.len() as int,
                fillers@.len() as int,
                conjunctions@.len() as int,
            ) && #[trigger] came_of(r, templates@, fillers@, conjunctions@, plan),
{
    drawn_message(templates, fillers, conjunctions)
}

/// A day of the Discordian calendar. `year` is the year of Our Lady of
/// Discord; `day` counts the days of the year from 0 and passes over St.
/// Tib's Day, which stands outside of the seasons; `season_day` counts the
/// days of the season from 1.
#[derive(Clone, Copy, Debug, PartialEq, Eq, Structural)]
pub struct Dday {
    pub season_day: u32,
    pub day: u32,
    pub year: i32,
    pub tibs_day: bool,
}

/// Whether a year has a St. Tib's Day: every fourth year, but of the full
/// hundreds only every fourth.
pub open spec fn has_tibs_day(year: int) -> bool {
    year % 4 == 0 && year % 100 != 0 || year % 100 == 0 && year % 400 == 0
}

/// The Discordian day of the Gregorian day `ordinal0`, counted from 0, of
/// the Gregorian year `year`. The year is 1166 further on. In a year with
/// St. Tib's Day, day 60 is that day, and the days after it count one less.
pub open spec fn dday_of(year: int, ordinal0: int) -> Dday {
    let yold = year + 1166;
    let tibs_day = has_tibs_day(yold) && ordinal0 == 60;
    let day = if has_tibs_day(yold) && ordinal0 > 60 {
        ordinal0 - 1
    } else {
        ordinal0
    };
    Dday { season_day: (day % 73 + 1) as u32, day: day as u32, year: yold as i32, tibs_day }
}

/// The ending that makes a number an ordinal: `th` from 10 to 19, else by
/// the last digit.
pub open spec fn ordinal_suffix(num: int) -> Seq<char> {
    if num / 10 == 1 {
        "th"@
    } else if num % 10 == 1 {
        "st"@
    } else if num % 10 == 2 {
        "nd"@
    } else if num % 10 == 3 {
        "rd"@
    } else {
        "th"@
    }
}

/// The name of the day of the week, of which there are five.
pub open spec fn weekday_name(i: int) -> Seq<char> {
    if i == 0 {
        "Sweetmorn"@
    } else if i == 1 {
        "Boomtime"@
    } else if i == 2 {
        "Pungenday"@
    } else if i == 3 {
        "Prickle-Prickle"@
    } else {
        "Setting Orange"@
    }
}

/// The name of the season, of which there are five.
pub open spec fn season_name(i: int) -> Seq<char> {
    if i == 0 {
        "Chaos"@
    } else if i == 1 {
        "Discord"@
    } else if i == 2 {
        "Confusion"@
    } else if i == 3 {
        "Bureaucracy"@
    } else {
        "The Aftermath"@
    }
}

/// The name of the season's apostle day, its fifth.
pub open spec fn apostle_name(i: int) -> Seq<char> {
    if i == 0 {
        "Mungday"@
    } else if i == 1 {
        "Mojoday"@
    } else if i == 2 {
        "Syaday"@
    } else if i == 3 {
        "Zaraday"@
    } else {
        "Maladay"@
    }
}

/// The name of the season's holiday, its fiftieth day.
pub open spec fn holiday_name(i: int) -> Seq<char> {
    if i == 0 {
        "Chaosflux"@
    } else if i == 1 {
        "Discoflux"@
    } else if i == 2 {
        "Confuflux"@
    } else if i == 3 {
        "Bureflux"@
    } else {
        "Afflux"@
    }
}

/// What the day is called: by its apostle on the fifth of a season, by its
/// holiday on the fiftieth, by the day of the week otherwise.
pub open spec fn day_name(d: Dday) -> Seq<char> {
    if d.season_day == 5 {
        apostle_name(d.day as int / 73)
    } else if d.season_day == 50 {
        holiday_name(d.day as int / 73)
    } else {
        weekday_name(d.day as int % 5)
    }
}

/// The sentence that tells the day.
pub open spec fn dday_text(d: Dday) -> Seq<char> {
    if d.tibs_day {
        "Today is St. Tib's Day in the YOLD "@ + signed_decimal(d.year as int)
    } else {
        "Today is "@ + day_name(d) + ", the "@ + decimal(d.season_day as nat) + ordinal_suffix(
            d.season_day as int,
        ) + " day of "@ + season_name(d.day as int / 73) + " in the YOLD "@ + signed_decimal(
            d.year as int,
        )
    }
}

/// The ending that makes a number an ordinal.
pub fn parse_int_ordinal_suffix(num: u32) -> (suffix: &'static str)
    ensures
        suffix@ == ordinal_suffix(num as int),
{
    if num / 10 == 1 {
        "th"
    } else if num % 10 == 1 {
        "st"
    } else if num % 10 == 2 {
        "nd"
    } else if num % 10 == 3 {
        "rd"
    } else {
        "th"
    }
}

/// The name of the day of the week under `i`.
fn weekday(i: u32) -> (name: &'static str)
    requires
        i < 5,
    ensures
        name@ == weekday_name(i as int),
{
    if i == 0 {
        "Sweetmorn"
    } else if i == 1 {
        "Boomtime"
    } else if i == 2 {
        "Pungenday"
    } else if i == 3 {
        "Prickle-Prickle"
    } else {
        "Setting Orange"
    }
}

/// The name of the season under `i`.
fn season(i: u32) -> (name: &'static str)
    requires
        i < 5,
    ensures
        name@ == season_name(i as int),
{
    if i == 0 {
        "Chaos"
    } else if i == 1 {
        "Discord"
    } else if i == 2 {
        "Confusion"
    } else if i == 3 {
        "Bureaucracy"
    } else {
        "The Aftermath"
    }
}

/// The name of the apostle day of the season under `i`.
fn apostle(i: u32) -> (name: &'static str)
    requires
        i < 5,
    ensures
        name@ == apostle_name(i as int),
{
    if i == 0 {
        "Mungday"
    } else if i == 1 {
        "Mojoday"
    } else if i == 2 {
        "Syaday"
    } else if i == 3 {
        "Zaraday"
    } else {
        "Maladay"
    }
}

/// The name of the holiday of the season under `i`.
fn holiday(i: u32) -> (name: &'static str)
    requires
        i < 5,
    ensures
        name@ == holiday_name(i as int),
{
    if i == 0 {
        "Chaosflux"
    } else if i == 1 {
        "Discoflux"
    } else if i == 2 {
        "Confuflux"
    } else if i == 3 {
        "Bureflux"
    } else {
        "Afflux"
    }
}

/// Whether `n` is a multiple of 4.
fn multiple_of_4(n: i32) -> (r: bool)
    ensures
        r == (n as int % 4 == 0),
{
    n % 4 == 0
}

/// Whether `n` is a multiple of 100.
fn multiple_of_100(n: i32) -> (r: bool)
    ensures
        r == (n as int % 100 == 0),
{
    n % 100 == 0
}

/// Whether `n` is a multiple of 400.
fn multiple_of_400(n: i32) -> (r: bool)
    ensures
        r == (n as int % 400 == 0),
{
    n % 400 == 0
}

/// Whether a year has a St. Tib's Day.
fn year_has_tibs_day(year: i32) -> (r: bool)
    ensures
        r == has_tibs_day(year as int),
{
    let fourth = multiple_of_4(year);
    let hundredth = multiple_of_100(year);
    let four_hundredth = multiple_of_400(year);
    fourth && !hundredth || hundredth && four_hundredth
}

impl Dday {
    /// The Discordian day of the Gregorian day `ordinal0`, counted from 0,
    /// of the Gregorian year `year`.
    pub fn from(year: i32, ordinal0: u32) -> (d: Dday)
        requires
            year + 1166 <= i32::MAX,
        ensures
            d == dday_of(year as int, ordinal0 as int),
    {
        let year = year + 1166;
        let mut day_of_year = ordinal0;
        let mut tibs_day = false;
        if year_has_tibs_day(year) {
            if day_of_year == 60 {
                tibs_day = true;
            } else if day_of_year > 60 {
                day_of_year -= 1;
            }
        }
        let day_of_season = day_of_year % 73 + 1;
        Dday { year, season_day: day_of_season, day: day_of_year, tibs_day }
    }

    /// The sentence that tells the day. Outside of St. Tib's Day the day
    /// has to lie in one of the five seasons of 73 days.
    pub fn to_text(&self) -> (s: String)
        requires
            self.tibs_day || self.day < 365,
        ensures
            s@ == dday_text(*self),
    {
        if self.tibs_day {
            let mut s = String::from_str("Today is St. Tib's Day in the YOLD ");
            push_signed(&mut s, self.year as i128);
            s
        } else {
            let mut s = String::from_str("Today is ");
            let name = if self.season_day == 5 {
                apostle(self.day / 73)
            } else if self.season_day == 50 {
                holiday(self.day / 73)
            } else {
                weekday(self.day % 5)
            };
            s.append(name);
            s.append(", the ");
            push_decimal(&mut s, self.season_day as u64);
            s.append(parse_int_ordinal_suffix(self.season_day));
            s.append(" day of ");
            s.append(season(self.day / 73));
            s.append(" in the YOLD ");
            push_signed(&mut s, self.year as i128);
            assert(s@ =~= dday_text(*self));
            s
        }
    }
}

/// The sentence that tells the Discordian day of a Gregorian day.
pub fn ddate(year: i32, ordinal0: u32) -> (s: String)
    requires
        year + 1166 <= i32::MAX,
        dday_of(year as int, ordinal0 as int).tibs_day || dday_of(year as int, ordinal0 as int).day
            < 365,
    ensures
        s@ == dday_text(dday_of(year as int, ordinal0 as int)),
{
    Dday::from(year, ordinal0).to_text()
}

} // verus!
