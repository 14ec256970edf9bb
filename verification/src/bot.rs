//! What the bot answers to a text message: the command handlers, the quota
//! messages around a conversion, and the message after it.
//!
//! The functions here decide; the caller sends the planned messages in order
//! (stopping at the first that fails), runs the conversion when the plan asks
//! for one, and hands its outcome to `finish_conversion`.

use vstd::prelude::*;

use crate::clock::current_iso_week;
use crate::text::{
    chars_of, contains_chars, contains_seq, dec_int, dec_nat, decimal_i64, decimal_u64, padded,
    law_bool_round_trip, law_decimal_is_one_word, law_padded, law_decimal_round_trip, law_words_cons,
    law_words_single, no_white_space, parse_bool, parse_i64, push_padded, spec_parse_bool,
    spec_parse_i64, split_words, views, words,
};
use crate::usage_manager::{
    after_download, after_quota_check, after_set_premium, can_count, is_listing,
    premium_changes, quota_answer, UsageManager, UserStats,
};

verus! {

/// The bot's commands (`/download`, `/setpremium`, `/myid`, `/usage`).
#[derive(Clone, Copy, Debug, PartialEq, Eq, Structural)]
pub enum Command {
    Download,
    SetPremium,
    MyId,
    Usage,
}

/// A message to send.
pub struct Outgoing {
    pub chat_id: i64,
    pub text: String,
    /// Whether the text is sent with Telegram's MarkdownV2 parse mode.
    pub markdown: bool,
}

/// The view of a message to send: `(chat, text, markdown)`.
pub open spec fn out_view(o: Outgoing) -> (i64, Seq<char>, bool) {
    (o.chat_id, o.text@, o.markdown)
}

/// The views of messages to send, in order.
pub open spec fn sent(v: Seq<Outgoing>) -> Seq<(i64, Seq<char>, bool)> {
    v.map_values(|o: Outgoing| out_view(o))
}

/// A plain-text message.
pub open spec fn plain(chat: i64, text: Seq<char>) -> (i64, Seq<char>, bool) {
    (chat, text, false)
}

/// What to do for one text message.
pub struct Plan {
    /// Messages to send, in order.
    pub messages: Vec<Outgoing>,
    /// Whether to convert the message text afterwards, once every message
    /// above was sent.
    pub convert: bool,
}

fn plain_message(chat_id: i64, text: String) -> (o: Outgoing)
    ensures
        out_view(o) == plain(chat_id, text@),
{
    Outgoing { chat_id, text, markdown: false }
}

fn one_message(chat_id: i64, text: String) -> (v: Vec<Outgoing>)
    ensures
        sent(v@) == seq![plain(chat_id, text@)],
{
    let mut v: Vec<Outgoing> = Vec::new();
    v.push(plain_message(chat_id, text));
    assert(sent(v@) =~= seq![plain(chat_id, text@)]);
    v
}

// ---------------------------------------------------------------------------
// Texts
// ---------------------------------------------------------------------------

pub const DOWNLOAD_PROMPT: &'static str = "Please send me the YouTube URL you want to convert to MP3";

pub const NOT_AUTHORIZED: &'static str = "🚫 You are not authorized to use this command.";

pub const SET_PREMIUM_USAGE: &'static str = "Usage: /setpremium <user_id> <true|false>";

pub const INVALID_USER_ID: &'static str = "Invalid user_id. Must be a number.";

pub const INVALID_STATUS: &'static str = "Invalid status. Must be 'true' or 'false'.";

pub const NO_USAGE_DATA: &'static str = "No usage data available yet.";

pub const SUMMARY_HEADER: &'static str =
    "📊 **User Usage Summary:**\n\n`User ID        | Downloads | Premium`\n`------------------------------------`\n";

pub const UNLIMITED: &'static str = "You have unlimited downloads. Processing your request!";

pub const NOT_A_URL: &'static str =
    "That doesn't look like a YouTube URL. Please send a valid YouTube URL.";

pub const ONLY_URLS: &'static str =
    "I can only process YouTube URLs for MP3 conversion. Please send a valid YouTube URL.";

/// `true` or `false`, as `Display` prints a `bool`.
pub open spec fn bool_text(b: bool) -> Seq<char> {
    if b {
        "true"@
    } else {
        "false"@
    }
}

fn bool_string(b: bool) -> (s: String)
    ensures
        s@ == bool_text(b),
{
    if b {
        String::from_str("true")
    } else {
        String::from_str("false")
    }
}

/// Sent to a chat that has used up its weekly downloads.
pub open spec fn limit_reached_text(limit: u32, downloads: u32) -> Seq<char> {
    "🚫 You've reached your weekly limit of "@ + dec_nat(limit as nat)
        + " free songs. You've downloaded "@ + dec_nat(downloads as nat)
        + " songs this week.\n\nWant unlimited downloads? Contact us! ➡️ @Vibedownload"@
}

/// Sent to a chat that may download, with how many downloads it has left.
pub open spec fn remaining_text(left: nat) -> Seq<char> {
    "You have "@ + dec_nat(left) + " downloads remaining this week."@
}

/// Sent to the owner after changing a premium flag.
pub open spec fn premium_set_text(target: i64, status: bool) -> Seq<char> {
    "Premium status for user "@ + dec_int(target as int) + " set to "@ + bool_text(status) + "."@
}

/// Sent to the owner when a premium flag already had the requested value.
pub open spec fn premium_unchanged_text(target: i64, status: bool) -> Seq<char> {
    "Premium status for user "@ + dec_int(target as int) + " was already "@ + bool_text(status)
        + ". No change made."@
}

/// Sent to a chat whose premium flag changed.
pub open spec fn access_updated_text(status: bool) -> Seq<char> {
    "Your access has been updated! You now have "@ + (if status {
        "unlimited downloads!"@
    } else {
        "standard free tier (10 downloads/week)."@
    }) + "."@
}

/// The answer to `/myid`.
pub open spec fn my_id_text(chat: i64) -> Seq<char> {
    "Your Telegram User ID is: `"@ + dec_int(chat as int) + "`"@
}

/// Sent when a conversion failed with the error text `error`.
pub open spec fn conversion_error_text(error: Seq<char>) -> Seq<char> {
    "Error: "@ + error
}

/// One line of the usage summary: chat id, downloads and premium flag in
/// columns of 15, 9 and 7 characters.
pub open spec fn summary_row(id: i64, s: UserStats) -> Seq<char> {
    "`"@ + padded(dec_int(id as int), 15) + " | "@ + padded(
        dec_nat(s.downloads_this_week as nat),
        9,
    ) + " | "@ + padded(bool_text(s.is_premium), 7) + "`\n"@
}

/// The lines of the usage summary for the listed records, in order.
pub open spec fn summary_rows(l: Seq<(i64, UserStats)>) -> Seq<char>
    decreases l.len(),
{
    if l.len() == 0 {
        seq![]
    } else {
        summary_rows(l.drop_last()) + summary_row(l.last().0, l.last().1)
    }
}

/// The usage summary for the listed records.
pub open spec fn summary_text(l: Seq<(i64, UserStats)>) -> Seq<char> {
    SUMMARY_HEADER@ + summary_rows(l)
}

/// Whether a text names a YouTube video: it contains `youtube.com/watch?` or
/// `youtu.be/`.
pub open spec fn is_youtube_text(t: Seq<char>) -> bool {
    contains_seq(t, "youtube.com/watch?"@) || contains_seq(t, "youtu.be/"@)
}

/// Whether `text` names a YouTube video.
pub fn is_youtube_url(text: &str) -> (r: bool)
    ensures
        r == is_youtube_text(text@),
{
    let t = chars_of(text);
    let watch = chars_of("youtube.com/watch?");
    let short = chars_of("youtu.be/");
    contains_chars(&t, &watch) || contains_chars(&t, &short)
}

} // verus!

verus! {

// ---------------------------------------------------------------------------
// The quota messages around a conversion
// ---------------------------------------------------------------------------

/// The quota check that precedes a conversion for `chat`: the records after
/// it, the message to send, and whether the conversion may go ahead.
/// Premium chats are told they are unlimited, chats over the limit are told
/// so and stopped, others are told how many downloads they have left.
pub open spec fn quota_flow(m: Map<i64, UserStats>, chat: i64, year: i32, week: u32) -> (
    Map<i64, UserStats>,
    Seq<(i64, Seq<char>, bool)>,
    bool,
) {
    let r = quota_answer(m, chat, year, week);
    let m1 = after_quota_check(m, chat, year, week);
    if m1[chat].is_premium {
        (m1, seq![plain(chat, UNLIMITED@)], true)
    } else if !r.0 {
        (m1, seq![plain(chat, limit_reached_text(r.2, r.1))], false)
    } else {
        (m1, seq![plain(chat, remaining_text((r.2 - r.1) as nat))], true)
    }
}

fn limit_reached_message(limit: u32, downloads: u32) -> (s: String)
    ensures
        s@ == limit_reached_text(limit, downloads),
{
    let mut s = String::from_str("🚫 You've reached your weekly limit of ");
    let l = decimal_u64(limit as u64);
    s.append(l.as_str());
    s.append(" free songs. You've downloaded ");
    let d = decimal_u64(downloads as u64);
    s.append(d.as_str());
    s.append(" songs this week.\n\nWant unlimited downloads? Contact us! ➡️ @Vibedownload");
    s
}

fn remaining_message(left: u32) -> (s: String)
    ensures
        s@ == remaining_text(left as nat),
{
    let mut s = String::from_str("You have ");
    let l = decimal_u64(left as u64);
    s.append(l.as_str());
    s.append(" downloads remaining this week.");
    s
}

/// Runs the quota check that precedes a conversion; see `quota_flow`.
pub fn quota_messages_at(mgr: &mut UsageManager, chat_id: i64, year: i32, week: u32) -> (r: (
    Vec<Outgoing>,
    bool,
))
    ensures
        (final(mgr)@, sent(r.0@), r.1) == quota_flow(old(mgr)@, chat_id, year, week),
{
    let (can, current, limit) = mgr.can_download_at(chat_id, year, week);
    let premium = match mgr.get_user_stats(chat_id) {
        Some(s) => s.is_premium,
        None => false,
    };
    if premium {
        (one_message(chat_id, String::from_str(UNLIMITED)), true)
    } else if !can {
        (one_message(chat_id, limit_reached_message(limit, current)), false)
    } else {
        (one_message(chat_id, remaining_message(limit - current)), true)
    }
}

// ---------------------------------------------------------------------------
// Commands
// ---------------------------------------------------------------------------

/// `/setpremium <user_id> <true|false>`, sent by `chat`: only the owner may
/// use it; it takes exactly two arguments after the command (words separated
/// by whitespace), a user id and `true` or `false`. On success the flag is set
/// (see `after_set_premium`); the owner is told, and when the flag changed the
/// user is told too.
pub open spec fn set_premium_flow(
    m: Map<i64, UserStats>,
    owner: i64,
    chat: i64,
    text: Seq<char>,
    year: i32,
    week: u32,
) -> (Map<i64, UserStats>, Seq<(i64, Seq<char>, bool)>) {
    let parts = words(text);
    if chat != owner {
        (m, seq![plain(chat, NOT_AUTHORIZED@)])
    } else if parts.len() != 3 {
        (m, seq![plain(chat, SET_PREMIUM_USAGE@)])
    } else {
        match spec_parse_i64(parts[1]) {
            None => (m, seq![plain(chat, INVALID_USER_ID@)]),
            Some(target) => match spec_parse_bool(parts[2]) {
                None => (m, seq![plain(chat, INVALID_STATUS@)]),
                Some(status) => {
                    let m1 = after_set_premium(m, target, status, year, week);
                    if premium_changes(m, target, status, year, week) {
                        (
                            m1,
                            seq![
                                plain(chat, premium_set_text(target, status)),
                                plain(target, access_updated_text(status)),
                            ],
                        )
                    } else {
                        (m1, seq![plain(chat, premium_unchanged_text(target, status))])
                    }
                },
            },
        }
    }
}

fn premium_set_message(target: i64, status: bool) -> (s: String)
    ensures
        s@ == premium_set_text(target, status),
{
    let mut s = String::from_str("Premium status for user ");
    let t = decimal_i64(target);
    s.append(t.as_str());
    s.append(" set to ");
    let b = bool_string(status);
    s.append(b.as_str());
    s.append(".");
    s
}

fn premium_unchanged_message(target: i64, status: bool) -> (s: String)
    ensures
        s@ == premium_unchanged_text(target, status),
{
    let mut s = String::from_str("Premium status for user ");
    let t = decimal_i64(target);
    s.append(t.as_str());
    s.append(" was already ");
    let b = bool_string(status);
    s.append(b.as_str());
    s.append(". No change made.");
    s
}

fn access_updated_message(status: bool) -> (s: String)
    ensures
        s@ == access_updated_text(status),
{
    let mut s = String::from_str("Your access has been updated! You now have ");
    if status {
        s.append("unlimited downloads!");
    } else {
        s.append("standard free tier (10 downloads/week).");
    }
    s.append(".");
    s
}

/// Handles `/setpremium`; see `set_premium_flow`.
pub fn set_premium_command_at(
    mgr: &mut UsageManager,
    owner: i64,
    chat_id: i64,
    text: &str,
    year: i32,
    week: u32,
) -> (msgs: Vec<Outgoing>)
    ensures
        (final(mgr)@, sent(msgs@)) == set_premium_flow(old(mgr)@, owner, chat_id, text@, year, week),
{
    if chat_id != owner {
        return one_message(chat_id, String::from_str(NOT_AUTHORIZED));
    }
    let t = chars_of(text);
    let parts = split_words(&t);
    if parts.len() != 3 {
        return one_message(chat_id, String::from_str(SET_PREMIUM_USAGE));
    }
    assert(views(parts@)[1] == parts@[1]@);
    assert(views(parts@)[2] == parts@[2]@);
    let target = match parse_i64(&parts[1]) {
        Some(id) => id,
        None => {
            return one_message(chat_id, String::from_str(INVALID_USER_ID));
        },
    };
    let status = match parse_bool(&parts[2]) {
        Some(b) => b,
        None => {
            return one_message(chat_id, String::from_str(INVALID_STATUS));
        },
    };
    let changed = mgr.set_premium_status_at(target, status, year, week);
    if changed {
        let mut v: Vec<Outgoing> = Vec::new();
        v.push(plain_message(chat_id, premium_set_message(target, status)));
        v.push(plain_message(target, access_updated_message(status)));
        assert(sent(v@) =~= seq![
            plain(chat_id, premium_set_text(target, status)),
            plain(target, access_updated_text(status)),
        ]);
        v
    } else {
        one_message(chat_id, premium_unchanged_message(target, status))
    }
}

/// The answer to `/myid` from `chat`.
pub fn my_id_message(chat_id: i64) -> (o: Outgoing)
    ensures
        out_view(o) == plain(chat_id, my_id_text(chat_id)),
{
    let mut s = String::from_str("Your Telegram User ID is: `");
    let d = decimal_i64(chat_id);
    s.append(d.as_str());
    s.append("`");
    plain_message(chat_id, s)
}

fn bool_str(b: bool) -> (s: &'static str)
    ensures
        s@ == bool_text(b),
{
    if b {
        "true"
    } else {
        "false"
    }
}

fn summary_row_string(id: i64, stats: UserStats) -> (s: String)
    ensures
        s@ == summary_row(id, stats),
{
    let mut s = String::from_str("`");
    let idt = decimal_i64(id);
    push_padded(&mut s, idt.as_str(), 15);
    s.append(" | ");
    let dt = decimal_u64(stats.downloads_this_week as u64);
    push_padded(&mut s, dt.as_str(), 9);
    s.append(" | ");
    push_padded(&mut s, bool_str(stats.is_premium), 7);
    s.append("`\n");
    s
}

/// The usage summary for the listed records.
pub fn summary_message(entries: &Vec<(i64, UserStats)>) -> (s: String)
    ensures
        s@ == summary_text(entries@),
{
    let mut s = String::from_str(SUMMARY_HEADER);
    let mut i: usize = 0;
    while i < entries.len()
        invariant
            i <= entries.len(),
            s@ == summary_text(entries@.take(i as int)),
        decreases entries.len() - i,
    {
        let (id, stats) = entries[i];
        let row = summary_row_string(id, stats);
        let ghost before = s@;
        s.append(row.as_str());
        proof {
            let l = entries@.take(i + 1);
            assert(l.drop_last() =~= entries@.take(i as int));
            assert(l.last() == (id, stats));
            assert(summary_rows(l) == summary_rows(entries@.take(i as int)) + summary_row(id, stats));
            assert(s@ =~= summary_text(l));
        }
        i = i + 1;
    }
    assert(entries@.take(entries.len() as int) =~= entries@);
    s
}

/// `/usage`, sent by `chat`: only the owner may use it; it answers that there
/// is no data, or with the summary of all records (sent as MarkdownV2), in
/// the order the records are kept in.
pub open spec fn usage_reply_ok(
    m: Map<i64, UserStats>,
    owner: i64,
    chat: i64,
    msgs: Seq<(i64, Seq<char>, bool)>,
) -> bool {
    if chat != owner {
        msgs == seq![plain(chat, NOT_AUTHORIZED@)]
    } else if m.dom().len() == 0 {
        msgs == seq![plain(chat, NO_USAGE_DATA@)]
    } else {
        exists|l: Seq<(i64, UserStats)>| is_listing(l, m) && msgs == seq![(chat, summary_text(l), true)]
    }
}

/// Handles `/usage`; see `usage_reply_ok`.
pub fn usage_command(mgr: &UsageManager, owner: i64, chat_id: i64) -> (msgs: Vec<Outgoing>)
    ensures
        usage_reply_ok(mgr@, owner, chat_id, sent(msgs@)),
{
    if chat_id != owner {
        return one_message(chat_id, String::from_str(NOT_AUTHORIZED));
    }
    if mgr.is_empty() {
        return one_message(chat_id, String::from_str(NO_USAGE_DATA));
    }
    let entries = mgr.usage_entries();
    let text = summary_message(&entries);
    let mut v: Vec<Outgoing> = Vec::new();
    v.push(Outgoing { chat_id, text, markdown: true });
    assert(sent(v@) =~= seq![(chat_id, summary_text(entries@), true)]);
    v
}

} // verus!

verus! {

// ---------------------------------------------------------------------------
// Text messages
// ---------------------------------------------------------------------------

/// The view of an optional string slice.
pub open spec fn opt_str(s: Option<&str>) -> Option<Seq<char>> {
    match s {
        Some(t) => Some(t@),
        None => None,
    }
}

/// A text that is not a command, sent by `chat`, possibly in reply to a
/// message with text `reply`. A reply to the bot's prompt for a URL (a text
/// containing `YouTube URL`) runs the quota check, then converts the text when
/// it names a YouTube video, or says it does not. Otherwise a text naming a
/// YouTube video runs the quota check and is converted when allowed, and any
/// other text is answered that only YouTube URLs are handled.
pub open spec fn text_flow(
    m: Map<i64, UserStats>,
    chat: i64,
    text: Seq<char>,
    reply: Option<Seq<char>>,
    year: i32,
    week: u32,
) -> (Map<i64, UserStats>, Seq<(i64, Seq<char>, bool)>, bool) {
    let prompted = match reply {
        Some(r) => contains_seq(r, "YouTube URL"@),
        None => false,
    };
    let q = quota_flow(m, chat, year, week);
    if prompted {
        if !q.2 {
            q
        } else if is_youtube_text(text) {
            q
        } else {
            (q.0, q.1.push(plain(chat, NOT_A_URL@)), false)
        }
    } else if is_youtube_text(text) {
        q
    } else {
        (m, seq![plain(chat, ONLY_URLS@)], false)
    }
}

/// What the bot does for a text message from `chat`, given the command it
/// parses as (if any) and the text of the message it replies to (if any):
/// the records afterwards `m2` and the plan `msgs`, `convert`.
pub open spec fn handled(
    m: Map<i64, UserStats>,
    owner: i64,
    chat: i64,
    text: Seq<char>,
    command: Option<Command>,
    reply: Option<Seq<char>>,
    year: i32,
    week: u32,
    m2: Map<i64, UserStats>,
    msgs: Seq<(i64, Seq<char>, bool)>,
    convert: bool,
) -> bool {
    match command {
        Some(Command::Download) => m2 == m && msgs == seq![plain(chat, DOWNLOAD_PROMPT@)]
            && !convert,
        Some(Command::SetPremium) => (m2, msgs) == set_premium_flow(
            m,
            owner,
            chat,
            text,
            year,
            week,
        ) && !convert,
        Some(Command::MyId) => m2 == m && msgs == seq![plain(chat, my_id_text(chat))] && !convert,
        Some(Command::Usage) => m2 == m && usage_reply_ok(m, owner, chat, msgs) && !convert,
        None => (m2, msgs, convert) == text_flow(m, chat, text, reply, year, week),
    }
}

fn text_message_at(
    mgr: &mut UsageManager,
    chat_id: i64,
    text: &str,
    reply_text: Option<&str>,
    year: i32,
    week: u32,
) -> (p: Plan)
    ensures
        (final(mgr)@, sent(p.messages@), p.convert) == text_flow(
            old(mgr)@,
            chat_id,
            text@,
            opt_str(reply_text),
            year,
            week,
        ),
{
    let prompted = match reply_text {
        Some(r) => {
            let rc = chars_of(r);
            let needle = chars_of("YouTube URL");
            contains_chars(&rc, &needle)
        },
        None => false,
    };
    if prompted {
        let (mut msgs, go) = quota_messages_at(mgr, chat_id, year, week);
        if !go {
            Plan { messages: msgs, convert: false }
        } else if is_youtube_url(text) {
            Plan { messages: msgs, convert: true }
        } else {
            let ghost before = msgs@;
            msgs.push(plain_message(chat_id, String::from_str(NOT_A_URL)));
            assert(sent(msgs@) =~= sent(before).push(plain(chat_id, NOT_A_URL@)));
            Plan { messages: msgs, convert: false }
        }
    } else if is_youtube_url(text) {
        let (msgs, go) = quota_messages_at(mgr, chat_id, year, week);
        Plan { messages: msgs, convert: go }
    } else {
        Plan { messages: one_message(chat_id, String::from_str(ONLY_URLS)), convert: false }
    }
}

/// Decides what to do for a text message from `chat_id`, in the given ISO
/// week; see `handled`.
pub fn handle_text_at(
    mgr: &mut UsageManager,
    owner: i64,
    chat_id: i64,
    text: &str,
    command: Option<Command>,
    reply_text: Option<&str>,
    year: i32,
    week: u32,
) -> (p: Plan)
    ensures
        handled(
            old(mgr)@,
            owner,
            chat_id,
            text@,
            command,
            opt_str(reply_text),
            year,
            week,
            final(mgr)@,
            sent(p.messages@),
            p.convert,
        ),
{
    match command {
        Some(Command::Download) => Plan {
            messages: one_message(chat_id, String::from_str(DOWNLOAD_PROMPT)),
            convert: false,
        },
        Some(Command::SetPremium) => Plan {
            messages: set_premium_command_at(mgr, owner, chat_id, text, year, week),
            convert: false,
        },
        Some(Command::MyId) => {
            let mut v: Vec<Outgoing> = Vec::new();
            v.push(my_id_message(chat_id));
            assert(sent(v@) =~= seq![plain(chat_id, my_id_text(chat_id))]);
            Plan { messages: v, convert: false }
        },
        Some(Command::Usage) => Plan { messages: usage_command(mgr, owner, chat_id), convert: false },
        None => text_message_at(mgr, chat_id, text, reply_text, year, week),
    }
}

/// `handled` holds for some ISO week.
pub open spec fn handled_in_some_week(
    m: Map<i64, UserStats>,
    owner: i64,
    chat: i64,
    text: Seq<char>,
    command: Option<Command>,
    reply: Option<Seq<char>>,
    m2: Map<i64, UserStats>,
    msgs: Seq<(i64, Seq<char>, bool)>,
    convert: bool,
) -> bool {
    exists|year: i32, week: u32|
        1 <= week <= 53 && #[trigger] handled(
            m,
            owner,
            chat,
            text,
            command,
            reply,
            year,
            week,
            m2,
            msgs,
            convert,
        )
}

/// Whether answering a text message depends on the current week: a text that
/// is not a command and names a YouTube video or answers the bot's prompt
/// (its quota check), or the owner's well-formed `/setpremium` for a chat that
/// has no record yet (its fresh record).
pub open spec fn needs_week(
    m: Map<i64, UserStats>,
    owner: i64,
    chat: i64,
    text: Seq<char>,
    command: Option<Command>,
    reply: Option<Seq<char>>,
) -> bool {
    match command {
        None => is_youtube_text(text) || match reply {
            Some(r) => contains_seq(r, "YouTube URL"@),
            None => false,
        },
        Some(Command::SetPremium) => {
            let parts = words(text);
            &&& chat == owner
            &&& parts.len() == 3
            &&& spec_parse_i64(parts[1]) matches Some(target)
            &&& spec_parse_bool(parts[2]) is Some
            &&& !m.contains_key(target)
        },
        Some(_) => false,
    }
}

fn week_needed(
    mgr: &UsageManager,
    owner: i64,
    chat_id: i64,
    text: &str,
    command: Option<Command>,
    reply_text: Option<&str>,
) -> (r: bool)
    ensures
        r == needs_week(mgr@, owner, chat_id, text@, command, opt_str(reply_text)),
{
    match command {
        None => {
            let prompted = match reply_text {
                Some(r) => {
                    let rc = chars_of(r);
                    let needle = chars_of("YouTube URL");
                    contains_chars(&rc, &needle)
                },
                None => false,
            };
            is_youtube_url(text) || prompted
        },
        Some(Command::SetPremium) => {
            if chat_id != owner {
                return false;
            }
            let t = chars_of(text);
            let parts = split_words(&t);
            if parts.len() != 3 {
                return false;
            }
            assert(views(parts@)[1] == parts@[1]@);
            assert(views(parts@)[2] == parts@[2]@);
            match parse_i64(&parts[1]) {
                Some(target) => match parse_bool(&parts[2]) {
                    Some(_) => mgr.get_user_stats(target).is_none(),
                    None => false,
                },
                None => false,
            }
        },
        Some(_) => false,
    }
}

/// Where the answer to a text message does not depend on the week (see
/// `needs_week`), it is the same for every week.
pub proof fn law_week_unused(
    m: Map<i64, UserStats>,
    owner: i64,
    chat: i64,
    text: Seq<char>,
    command: Option<Command>,
    reply: Option<Seq<char>>,
    year1: i32,
    week1: u32,
    year2: i32,
    week2: u32,
    m2: Map<i64, UserStats>,
    msgs: Seq<(i64, Seq<char>, bool)>,
    convert: bool,
)
    requires
        !needs_week(m, owner, chat, text, command, reply),
    ensures
        handled(m, owner, chat, text, command, reply, year1, week1, m2, msgs, convert)
            == handled(m, owner, chat, text, command, reply, year2, week2, m2, msgs, convert),
{
}

/// Decides what to do for a text message from `chat_id`. Where the answer
/// needs the current ISO week (see `needs_week`) the clock is read, and the
/// result is `None`, with no change, when it gives no date; `handle_text_at`
/// then holds for the week the clock gave. Otherwise there is always a plan,
/// and it does not depend on the week (`law_week_unused`).
pub fn handle_text(
    mgr: &mut UsageManager,
    owner: i64,
    chat_id: i64,
    text: &str,
    command: Option<Command>,
    reply_text: Option<&str>,
) -> (r: Option<Plan>)
    ensures
        !needs_week(old(mgr)@, owner, chat_id, text@, command, opt_str(reply_text)) ==> r is Some,
        r is None ==> final(mgr)@ == old(mgr)@,
        r matches Some(p) ==> handled_in_some_week(
            old(mgr)@,
            owner,
            chat_id,
            text@,
            command,
            opt_str(reply_text),
            final(mgr)@,
            sent(p.messages@),
            p.convert,
        ),
{
    // Where the week is not needed, any week gives the same answer; week 1
    // of year 0 stands for it.
    let (year, week) = if week_needed(mgr, owner, chat_id, text, command, reply_text) {
        match current_iso_week() {
            Some(w) => w,
            None => {
                return None;
            },
        }
    } else {
        (0i32, 1u32)
    };
    let ghost before = mgr@;
    let p = handle_text_at(mgr, owner, chat_id, text, command, reply_text, year, week);
    assert(handled_in_some_week(
        before,
        owner,
        chat_id,
        text@,
        command,
        opt_str(reply_text),
        mgr@,
        sent(p.messages@),
        p.convert,
    )) by {
        assert(handled(
            before,
            owner,
            chat_id,
            text@,
            command,
            opt_str(reply_text),
            year,
            week,
            mgr@,
            sent(p.messages@),
            p.convert,
        ));
    }
    Some(p)
}

/// After a conversion for `chat_id`: a success counts the download, a failure
/// with error text `e` is reported to the chat as `Error: e`.
pub fn finish_conversion(mgr: &mut UsageManager, chat_id: i64, outcome: Result<(), String>) -> (r:
    Option<Outgoing>)
    requires
        outcome is Ok ==> can_count(old(mgr)@, chat_id),
    ensures
        outcome is Ok ==> final(mgr)@ == after_download(old(mgr)@, chat_id) && r is None,
        outcome matches Err(e) ==> (final(mgr)@ == old(mgr)@ && (r matches Some(o) && out_view(o)
            == plain(chat_id, conversion_error_text(e@)))),
{
    match outcome {
        Ok(()) => {
            mgr.record_download(chat_id);
            None
        },
        Err(e) => {
            let mut s = String::from_str("Error: ");
            s.append(e.as_str());
            Some(plain_message(chat_id, s))
        },
    }
}

} // verus!

verus! {

// ---------------------------------------------------------------------------
// Laws of the bot's answers
// ---------------------------------------------------------------------------

/// A conversion is planned only when the quota check allowed it, and then the
/// download it leads to can be counted (so `finish_conversion` may be called
/// with a success right after the plan).
pub proof fn law_convert_only_when_allowed(
    m: Map<i64, UserStats>,
    chat: i64,
    text: Seq<char>,
    reply: Option<Seq<char>>,
    year: i32,
    week: u32,
)
    ensures
        ({
            let r = text_flow(m, chat, text, reply, year, week);
            r.2 ==> quota_answer(m, chat, year, week).0 && can_count(r.0, chat)
                && is_youtube_text(text)
        }),
{
}

/// A chat that has used up its weekly downloads is told so, and nothing is
/// converted.
pub proof fn law_limit_reached_blocks(
    m: Map<i64, UserStats>,
    chat: i64,
    text: Seq<char>,
    reply: Option<Seq<char>>,
    year: i32,
    week: u32,
)
    requires
        !quota_answer(m, chat, year, week).0,
        is_youtube_text(text),
    ensures
        ({
            let r = text_flow(m, chat, text, reply, year, week);
            let q = quota_answer(m, chat, year, week);
            &&& !r.2
            &&& r.1 == seq![plain(chat, limit_reached_text(q.2, q.1))]
        }),
{
}

/// Only the owner can change premium flags or see the usage summary: anyone
/// else is told so and the records stay as they were.
pub proof fn law_only_owner_administers(
    m: Map<i64, UserStats>,
    owner: i64,
    chat: i64,
    text: Seq<char>,
    year: i32,
    week: u32,
    msgs: Seq<(i64, Seq<char>, bool)>,
)
    requires
        chat != owner,
    ensures
        set_premium_flow(m, owner, chat, text, year, week) == (
            m,
            seq![plain(chat, NOT_AUTHORIZED@)],
        ),
        usage_reply_ok(m, owner, chat, msgs) <==> msgs == seq![plain(chat, NOT_AUTHORIZED@)],
{
}

/// Commands never start a conversion, and only `/setpremium` changes the
/// records.
pub proof fn law_commands_do_not_convert(
    m: Map<i64, UserStats>,
    owner: i64,
    chat: i64,
    text: Seq<char>,
    command: Command,
    reply: Option<Seq<char>>,
    year: i32,
    week: u32,
    m2: Map<i64, UserStats>,
    msgs: Seq<(i64, Seq<char>, bool)>,
    convert: bool,
)
    requires
        handled(m, owner, chat, text, Some(command), reply, year, week, m2, msgs, convert),
    ensures
        !convert,
        command != Command::SetPremium ==> m2 == m,
{
}

/// A text that names no YouTube video, and does not answer the bot's prompt,
/// leaves the records unchanged and gets the fixed answer.
pub proof fn law_other_text_answered(
    m: Map<i64, UserStats>,
    chat: i64,
    text: Seq<char>,
    reply: Option<Seq<char>>,
    year: i32,
    week: u32,
)
    requires
        !is_youtube_text(text),
        !(reply matches Some(r) && contains_seq(r, "YouTube URL"@)),
    ensures
        text_flow(m, chat, text, reply, year, week) == (
            m,
            seq![plain(chat, ONLY_URLS@)],
            false,
        ),
{
}

} // verus!

verus! {

/// The owner's `/setpremium <id> <true|false>`, with the id written as the
/// bot prints ids, sets that chat's premium flag (see `after_set_premium`).
pub proof fn law_owner_sets_premium(
    m: Map<i64, UserStats>,
    owner: i64,
    target: i64,
    status: bool,
    year: i32,
    week: u32,
)
    ensures
        set_premium_flow(
            m,
            owner,
            owner,
            "/setpremium"@ + seq![' '] + dec_int(target as int) + seq![' '] + bool_text(status),
            year,
            week,
        ).0 == after_set_premium(m, target, status, year, week),
{
    reveal_strlit("/setpremium");
    reveal_strlit("true");
    reveal_strlit("false");
    let cmd = "/setpremium"@;
    let id = dec_int(target as int);
    let st = bool_text(status);
    law_decimal_is_one_word(target as int);
    law_decimal_round_trip(target);
    law_bool_round_trip(status);
    assert(no_white_space(cmd)) by {
        assert forall|i: int| 0 <= i < cmd.len() implies !crate::text::is_white_space(
            #[trigger] cmd[i],
        ) by {}
    }
    assert(no_white_space(st)) by {
        assert forall|i: int| 0 <= i < st.len() implies !crate::text::is_white_space(
            #[trigger] st[i],
        ) by {}
    }
    law_words_single(st);
    law_words_cons(id, st);
    law_words_cons(cmd, id + seq![' '] + st);
    let text = cmd + seq![' '] + id + seq![' '] + st;
    assert(text =~= cmd + seq![' '] + (id + seq![' '] + st));
    assert(words(text) =~= seq![cmd, id, st]);
}

} // verus!

verus! {

/// A text naming a YouTube video (`youtube.com/watch?` or `youtu.be/`) whose
/// quota check allows it is converted, whether or not it replies to a
/// message; with the converse (`law_convert_only_when_allowed`), a text is
/// converted exactly when it names a video and its check allows it.
pub proof fn law_youtube_link_converted_when_allowed(
    m: Map<i64, UserStats>,
    chat: i64,
    text: Seq<char>,
    reply: Option<Seq<char>>,
    year: i32,
    week: u32,
)
    ensures
        text_flow(m, chat, text, reply, year, week).2 <==> (is_youtube_text(text)
            && quota_answer(m, chat, year, week).0),
        is_youtube_text(text) ==> text_flow(m, chat, text, reply, year, week).0
            == after_quota_check(m, chat, year, week),
{
}

/// The usage summary has one row per listed record, in order: no rows for no
/// records, and listing one more record adds exactly its row at the end.
pub proof fn law_summary_one_row_per_record(l: Seq<(i64, UserStats)>, e: (i64, UserStats))
    ensures
        summary_rows(Seq::<(i64, UserStats)>::empty()) == Seq::<char>::empty(),
        summary_rows(l.push(e)) == summary_rows(l) + summary_row(e.0, e.1),
        summary_text(l.push(e)) == summary_text(l) + summary_row(e.0, e.1),
{
    assert(l.push(e).drop_last() =~= l);
    assert(summary_text(l.push(e)) =~= summary_text(l) + summary_row(e.0, e.1));
}

/// A summary row opens with a backquote and the chat id in decimal, which
/// its column then pads with spaces to 15 characters, and it ends with a
/// backquote and a newline.
pub proof fn law_summary_row_shows_id(id: i64, s: UserStats)
    ensures
        summary_row(id, s)[0] == '`',
        summary_row(id, s).subrange(1, 1 + dec_int(id as int).len() as int) == dec_int(id as int),
        summary_row(id, s).len() >= 18,
        summary_row(id, s).subrange(summary_row(id, s).len() - 2, summary_row(id, s).len() as int)
            == "`\n"@,
{
    reveal_strlit("`");
    reveal_strlit("`\n");
    let d = dec_int(id as int);
    law_padded(d, 15);
    let p = padded(d, 15);
    let head = "`"@ + p;
    let row = summary_row(id, s);
    let tail = " | "@ + padded(dec_nat(s.downloads_this_week as nat), 9) + " | "@ + padded(
        bool_text(s.is_premium),
        7,
    ) + "`\n"@;
    assert(row =~= head + tail);
    assert(row.subrange(1, 1 + d.len() as int) =~= d) by {
        assert forall|i: int| 0 <= i < d.len() implies row.subrange(1, 1 + d.len() as int)[i] == d[i] by {
            assert(row[1 + i] == head[1 + i]);
            assert(head[1 + i] == p[i]);
            assert(p.take(d.len() as int)[i] == d[i]);
        }
    }
    assert(row.subrange(row.len() - 2, row.len() as int) =~= "`\n"@);
}

} // verus!
