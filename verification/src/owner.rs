//! The owner's commands: what they compute before anything is sent.

use crate::embed::{empty_embed, AuthorView, Colour, Embed, EmbedAuthor, EmbedView};
use crate::numeral::{decimal, push_decimal, push_signed, signed_decimal};
use crate::text::opt_chars;
use vstd::prelude::*;
use vstd::string::StringExecFns;

verus! {

/// The presence that the owner can choose for the bot.
#[derive(Clone, Copy, Debug, PartialEq, Eq, Structural)]
pub enum OnlineStatusChoice {
    Online,
    Idle,
    DoNotDisturb,
    Invisible,
    Offline,
}

/// The kind of activity that the owner can choose for the bot.
#[derive(Clone, Copy, Debug, PartialEq, Eq, Structural)]
pub enum ActivityTypeChoice {
    Playing,
    Listening,
    Streaming,
    Watching,
    Competing,
}

/// Why an owner's command did nothing.
#[derive(Clone, Copy, Debug, PartialEq, Eq, Structural)]
pub enum OwnerError {
    /// The attachment does not say what kind of file it is.
    NoContentType,
}

/// What the error reads as.
pub open spec fn owner_error_text(e: OwnerError) -> Seq<char> {
    match e {
        OwnerError::NoContentType => "Unable to determine content type"@,
    }
}

impl OwnerError {
    /// What the error reads as.
    pub fn message(&self) -> (m: &'static str)
        ensures
            m@ == owner_error_text(*self),
    {
        match self {
            OwnerError::NoContentType => "Unable to determine content type",
        }
    }
}

/// The quotient of `a` by `b`, rounded towards 0.
pub open spec fn quotient(a: int, b: int) -> int {
    if a >= 0 {
        a / b
    } else {
        -((-a) / b)
    }
}

/// What is left of `a` over the multiples of `b`, with the sign of `a`.
pub open spec fn remainder(a: int, b: int) -> int {
    a - b * quotient(a, b)
}

/// A span of seconds in days, hours, minutes and seconds. Each part of a
/// span below 0 is below 0 or 0.
pub open spec fn uptime_text(seconds: int) -> Seq<char> {
    let minutes = quotient(seconds, 60);
    let hours = quotient(minutes, 60);
    let days = quotient(hours, 24);
    signed_decimal(days) + "d"@ + signed_decimal(remainder(hours, 24)) + "h"@ + signed_decimal(
        remainder(minutes, 60),
    ) + "m"@ + signed_decimal(remainder(seconds, 60)) + "s"@
}

/// A span of seconds in days, hours, minutes and seconds.
pub fn uptime(seconds: i64) -> (s: String)
    ensures
        s@ == uptime_text(seconds as int),
{
    let minutes = seconds / 60;
    let hours = minutes / 60;
    let days = hours / 24;
    let mut s = String::new();
    push_signed(&mut s, days as i128);
    s.append("d");
    push_signed(&mut s, (hours % 24) as i128);
    s.append("h");
    push_signed(&mut s, (minutes % 60) as i128);
    s.append("m");
    push_signed(&mut s, (seconds % 60) as i128);
    s.append("s");
    s
}

/// A count of clock ticks that was read as signed, taken as unsigned: a
/// count below 0 stands for itself and 2 to the 64th.
pub open spec fn unsigned(ticks: i64) -> int {
    if ticks < 0 {
        ticks + 0x1_0000_0000_0000_0000
    } else {
        ticks as int
    }
}

/// The times of a process as the kernel counts them, in clock ticks: its
/// own time in user and in kernel mode, that of the children it waited
/// for, and the time after the system's start at which it started.
#[derive(Clone, Copy, Debug, PartialEq, Eq, Structural)]
pub struct ProcessTimes {
    pub utime: u64,
    pub stime: u64,
    pub cutime: i64,
    pub cstime: i64,
    pub starttime: u64,
}

/// The seconds of processor time that the process has used.
pub open spec fn busy_seconds(times: ProcessTimes, ticks: i64) -> int {
    (times.utime + times.stime + unsigned(times.cutime) + unsigned(times.cstime)) / unsigned(ticks)
}

/// The number that the seconds of processor time are divided by: the
/// system's time of start less the seconds after it at which the process
/// started.
pub open spec fn since_start(times: ProcessTimes, ticks: i64, btime: u64) -> int {
    btime - times.starttime as int / unsigned(ticks)
}

/// The processor usage in percent. The formula has a value where no number
/// in it leaves 64 bits and nothing is divided by 0: where there are ticks
/// in a second, the process started before the number `btime` of seconds,
/// and neither the sum of the times nor the percentage is too large.
pub open spec fn cpu_usage_of(times: ProcessTimes, ticks: i64, btime: u64) -> Option<u64> {
    if ticks != 0 && times.utime + times.stime + unsigned(times.cutime) + unsigned(times.cstime)
        <= u64::MAX && since_start(times, ticks, btime) > 0 && 100 * (busy_seconds(times, ticks)
        / since_start(times, ticks, btime)) <= u64::MAX {
        Some((100 * (busy_seconds(times, ticks) / since_start(times, ticks, btime))) as u64)
    } else {
        None
    }
}

/// A signed count taken as unsigned.
fn as_unsigned(ticks: i64) -> (r: u64)
    ensures
        r == unsigned(ticks),
{
    if ticks < 0 {
        (ticks as i128 + 0x1_0000_0000_0000_0000) as u64
    } else {
        ticks as u64
    }
}

/// The processor usage in percent, where the formula has a value.
pub fn cpu_usage(times: ProcessTimes, ticks: i64, btime: u64) -> (r: Option<u64>)
    ensures
        r == cpu_usage_of(times, ticks, btime),
{
    let per_second = as_unsigned(ticks);
    if per_second == 0 {
        return None;
    }
    let sum = match times.utime.checked_add(times.stime) {
        Some(sum) => sum,
        None => {
            return None;
        },
    };
    let sum = match sum.checked_add(as_unsigned(times.cutime)) {
        Some(sum) => sum,
        None => {
            return None;
        },
    };
    let sum = match sum.checked_add(as_unsigned(times.cstime)) {
        Some(sum) => sum,
        None => {
            return None;
        },
    };
    let started = times.starttime / per_second;
    if btime <= started {
        return None;
    }
    let ratio = (sum / per_second) / (btime - started);
    match ratio.checked_mul(100) {
        Some(usage) => Some(usage),
        None => None,
    }
}

/// The bytes of memory that are the process's own: its resident pages
/// less the shared ones, times the size of a page; nothing where a number
/// leaves 64 bits.
pub open spec fn memory_bytes_of(resident: u64, shared: u64, page_size: i64) -> Option<u64> {
    if resident * unsigned(page_size) <= u64::MAX && shared * unsigned(page_size) <= u64::MAX
        && shared * unsigned(page_size) <= resident * unsigned(page_size) {
        Some((resident * unsigned(page_size) - shared * unsigned(page_size)) as u64)
    } else {
        None
    }
}

/// The bytes of memory that are the process's own.
pub fn memory_bytes(resident: u64, shared: u64, page_size: i64) -> (r: Option<u64>)
    ensures
        r == memory_bytes_of(resident, shared, page_size),
{
    let size = as_unsigned(page_size);
    let all = match resident.checked_mul(size) {
        Some(all) => all,
        None => {
            return None;
        },
    };
    let common = match shared.checked_mul(size) {
        Some(common) => common,
        None => {
            return None;
        },
    };
    all.checked_sub(common)
}

/// What `info` shows of the bot. `memory` is the number of megabytes as
/// it is to be shown, `cpu_usage` the percentage; either is missing where
/// the system did not tell.
#[derive(Clone, Debug, PartialEq, Eq)]
pub struct BotInfo {
    pub bot_name: String,
    pub version: String,
    pub uptime_seconds: i64,
    pub memory: Option<String>,
    pub cpu_usage: Option<u64>,
    pub guilds: usize,
    pub users: usize,
    pub channels: usize,
    pub name: String,
    pub face: String,
}

/// The line of the memory usage, where it is known.
pub open spec fn memory_line(memory: Option<String>) -> Seq<char> {
    match memory {
        Some(m) => "\n**Memory Usage**: `"@ + m@ + "MB`"@,
        None => Seq::empty(),
    }
}

/// The line of the processor usage, where it is known.
pub open spec fn cpu_line(usage: Option<u64>) -> Seq<char> {
    match usage {
        Some(u) => "\n**CPU Usage**: `"@ + decimal(u as nat) + "%`"@,
        None => Seq::empty(),
    }
}

/// The description of the embed of `info`, line by line.
pub open spec fn info_desc(i: BotInfo) -> Seq<char> {
    "**Software version**: `"@ + i.bot_name@ + " - v"@ + i.version@ + "`"@ + "\n**Uptime**: `"@
        + uptime_text(i.uptime_seconds as int) + "`"@ + memory_line(i.memory) + cpu_line(
        i.cpu_usage,
    ) + "\n**Guilds**: `"@ + decimal(i.guilds as nat) + "`"@ + "\n**Users**: `"@ + decimal(
        i.users as nat,
    ) + "`"@ + "\n**DM Channels**: `"@ + decimal(i.channels as nat) + "`"@
}

/// The embed of `info`.
pub open spec fn info_view(i: BotInfo) -> EmbedView {
    EmbedView {
        colour: Some(Colour::FabledPink),
        author: Some(AuthorView { name: i.name@, icon_url: Some(i.face@) }),
        title: Some("Running Information"@),
        description: Some(info_desc(i)),
        ephemeral: true,
        ..empty_embed()
    }
}

/// The description of the embed of `info`.
fn describe(i: &BotInfo) -> (desc: String)
    ensures
        desc@ == info_desc(*i),
{
    let mut desc = String::from_str("**Software version**: `");
    desc.append(i.bot_name.as_str());
    desc.append(" - v");
    desc.append(i.version.as_str());
    desc.append("`");
    desc.append("\n**Uptime**: `");
    desc.append(uptime(i.uptime_seconds).as_str());
    desc.append("`");
    let ghost head = desc@;
    match &i.memory {
        Some(m) => {
            desc.append("\n**Memory Usage**: `");
            desc.append(m.as_str());
            desc.append("MB`");
        },
        None => {},
    }
    assert(desc@ =~= head + memory_line(i.memory));
    let ghost head = desc@;
    match i.cpu_usage {
        Some(u) => {
            desc.append("\n**CPU Usage**: `");
            push_decimal(&mut desc, u);
            desc.append("%`");
        },
        None => {},
    }
    assert(desc@ =~= head + cpu_line(i.cpu_usage));
    desc.append("\n**Guilds**: `");
    push_decimal(&mut desc, i.guilds as u64);
    desc.append("`");
    desc.append("\n**Users**: `");
    push_decimal(&mut desc, i.users as u64);
    desc.append("`");
    desc.append("\n**DM Channels**: `");
    push_decimal(&mut desc, i.channels as u64);
    desc.append("`");
    assert(desc@ =~= info_desc(*i));
    desc
}

/// Shows information about the bot: version, uptime, what the system
/// tells of memory and processor, and what the bot sees of Discord.
pub fn info(i: BotInfo) -> (e: Embed)
    ensures
        e@ == info_view(i),
{
    let mut e = Embed::new();
    e.colour = Some(Colour::FabledPink);
    e.title = Some(String::from_str("Running Information"));
    e.description = Some(describe(&i));
    e.author = Some(EmbedAuthor { name: i.name, icon_url: Some(i.face) });
    e.ephemeral = true;
    e
}

/// The form that is shown to the owner before the presence is set.
#[derive(Clone, Copy, Debug, PartialEq, Eq, Structural)]
pub enum Modal {
    /// Asks for the text of the activity.
    StatusText,
    /// Asks for the address of the stream and for the text.
    Twitch,
}

/// What the owner filled into the form.
#[derive(Clone, Debug, PartialEq, Eq)]
pub enum ModalAnswer {
    StatusText { text: String },
    Twitch { url: String, text: String },
}

/// What the bot is shown to be doing.
#[derive(Clone, Debug, PartialEq, Eq)]
pub struct Activity {
    pub kind: ActivityTypeChoice,
    pub text: String,
    pub url: Option<String>,
}

/// An [`Activity`] by its characters.
pub struct ActivityView {
    pub kind: ActivityTypeChoice,
    pub text: Seq<char>,
    pub url: Option<Seq<char>>,
}

impl View for Activity {
    type V = ActivityView;

    open spec fn view(&self) -> ActivityView {
        ActivityView { kind: self.kind, text: self.text@, url: opt_chars(self.url) }
    }
}

/// The presence that is set: an activity and a status.
#[derive(Clone, Debug, PartialEq, Eq)]
pub struct Presence {
    pub activity: Activity,
    pub status: OnlineStatusChoice,
}

/// The form that goes with an activity: the one for streams asks for an
/// address too; without an activity no form is shown.
pub open spec fn modal_for(activity: Option<ActivityTypeChoice>) -> Option<Modal> {
    match activity {
        None => None,
        Some(ActivityTypeChoice::Streaming) => Some(Modal::Twitch),
        Some(_) => Some(Modal::StatusText),
    }
}

/// The activity that is made of the chosen kind and the filled form. A
/// stream takes the answer of its own form, every other kind that of the
/// form for a text; without a kind, or with the other form's answer, no
/// presence is set.
pub open spec fn activity_for(activity: Option<ActivityTypeChoice>, answer: ModalAnswer) -> Option<
    ActivityView,
> {
    match (activity, answer) {
        (Some(ActivityTypeChoice::Streaming), ModalAnswer::Twitch { url, text }) => Some(
            ActivityView { kind: ActivityTypeChoice::Streaming, text: text@, url: Some(url@) },
        ),
        (Some(ActivityTypeChoice::Streaming), ModalAnswer::StatusText { .. }) => None,
        (Some(kind), ModalAnswer::StatusText { text }) => Some(
            ActivityView { kind, text: text@, url: None },
        ),
        _ => None,
    }
}

/// The form that is shown for the chosen activity, if any is.
pub fn presence_modal(activity: Option<ActivityTypeChoice>) -> (m: Option<Modal>)
    ensures
        m == modal_for(activity),
{
    match activity {
        None => None,
        Some(ActivityTypeChoice::Streaming) => Some(Modal::Twitch),
        Some(_) => Some(Modal::StatusText),
    }
}

/// The presence that is set once the form is filled, if any is.
pub fn presence(
    status: OnlineStatusChoice,
    activity: Option<ActivityTypeChoice>,
    answer: ModalAnswer,
) -> (p: Option<Presence>)
    ensures
        match p {
            Some(p) => activity_for(activity, answer) == Some(p.activity@) && p.status == status,
            None => activity_for(activity, answer) is None,
        },
{
    match (activity, answer) {
        (Some(ActivityTypeChoice::Streaming), ModalAnswer::Twitch { url, text }) => Some(
            Presence {
                activity: Activity { kind: ActivityTypeChoice::Streaming, text, url: Some(url) },
                status,
            },
        ),
        (Some(ActivityTypeChoice::Streaming), ModalAnswer::StatusText { .. }) => None,
        (Some(kind), ModalAnswer::StatusText { text }) => Some(
            Presence { activity: Activity { kind, text, url: None }, status },
        ),
        _ => None,
    }
}

/// What `base64::encode` makes of the bytes: their base64 over the
/// standard alphabet, with padding.
pub uninterp spec fn base64_standard(bytes: Seq<u8>) -> Seq<char>;

/// `base64::encode` of the base64 crate. The call panics where the length
/// of its result leaves `usize`, which the bound on the input's length
/// rules out. What it returns depends on the bytes alone.
#[verifier::external_body]
fn base64_encode(bytes: &[u8]) -> (s: String)
    requires
        bytes@.len() / 3 * 4 + 4 <= usize::MAX,
    ensures
        s@ == base64_standard(bytes@),
{
    base64::encode(bytes)
}

/// The image as an address that holds it: `data:`, the kind of file,
/// `;base64,`, and the bytes in base64.
pub open spec fn data_uri(content_type: Seq<char>, encoded: Seq<char>) -> Seq<char> {
    "data:"@ + content_type + ";base64,"@ + encoded
}

/// The address that is made of a kind of file and of bytes that are in
/// base64 already.
pub fn avatar_uri(content_type: &str, encoded: &str) -> (uri: String)
    ensures
        uri@ == data_uri(content_type@, encoded@),
{
    let mut uri = String::from_str("data:");
    uri.append(content_type);
    uri.append(";base64,");
    uri.append(encoded);
    uri
}

/// The avatar that is set from an attachment: its bytes as a `data:`
/// address, or an error where the attachment does not say what kind of
/// file it is.
pub fn setavatar(content_type: Option<&str>, image: &[u8]) -> (r: Result<String, OwnerError>)
    requires
        image@.len() / 3 * 4 + 4 <= usize::MAX,
    ensures
        match content_type {
            Some(kind) => r matches Ok(uri) && uri@ == data_uri(kind@, base64_standard(image@)),
            None => r == Err::<String, OwnerError>(OwnerError::NoContentType),
        },
{
    match content_type {
        Some(kind) => {
            let encoded = base64_encode(image);
            Ok(avatar_uri(kind, encoded.as_str()))
        },
        None => Err(OwnerError::NoContentType),
    }
}

} // verus!
