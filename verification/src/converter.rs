//! The YouTube-to-MP3 conversion protocol: reading the video id out of a URL,
//! the request details, and the decisions taken on each reply of the
//! conversion service and on each chunk of the download.

use vstd::prelude::*;
use vstd::string::StringSliceAdditionalSpecFns;

use crate::text::{
    before_char, chars_before, chars_of, contains_chars, contains_seq, dec_nat, decimal_u64,
    find_from, law_before_char_longest_prefix, occurs_at,
    lower_hex, second_piece, split_second_piece, string_from_chars, to_lower_hex,
};

verus! {

// ---------------------------------------------------------------------------
// Video ids
// ---------------------------------------------------------------------------

/// The video id in a YouTube URL.
///
/// For a `youtube.com/watch?v=` URL: the text after the first `v=`, up to the
/// next `v=`, cut at the first `&`. Otherwise, for a `youtu.be/` URL: the text
/// after the first `youtu.be/`, up to the next `youtu.be/`, cut at the first
/// `?`. Any other text has no id.
pub open spec fn spec_extract_video_id(url: Seq<char>) -> Option<Seq<char>> {
    if contains_seq(url, "youtube.com/watch?v="@) {
        match second_piece(url, "v="@) {
            Some(p) => Some(before_char(p, '&')),
            None => None,
        }
    } else if contains_seq(url, "youtu.be/"@) {
        match second_piece(url, "youtu.be/"@) {
            Some(p) => Some(before_char(p, '?')),
            None => None,
        }
    } else {
        None
    }
}

/// The video id in a YouTube URL; see `spec_extract_video_id`.
pub fn extract_video_id(url: &str) -> (r: Option<String>)
    ensures
        r matches Some(id) ==> spec_extract_video_id(url@) == Some(id@),
        r is None ==> spec_extract_video_id(url@) is None,
{
    let u = chars_of(url);
    let watch = chars_of("youtube.com/watch?v=");
    let short = chars_of("youtu.be/");
    if contains_chars(&u, &watch) {
        let v_eq = chars_of("v=");
        match split_second_piece(&u, &v_eq) {
            Some(piece) => {
                let id = chars_before(&piece, '&');
                Some(string_from_chars(&id))
            },
            None => None,
        }
    } else if contains_chars(&u, &short) {
        match split_second_piece(&u, &short) {
            Some(piece) => {
                let id = chars_before(&piece, '?');
                Some(string_from_chars(&id))
            },
            None => None,
        }
    } else {
        None
    }
}

// ---------------------------------------------------------------------------
// Request details
// ---------------------------------------------------------------------------

/// The MD5 digest of `data`.
pub uninterp spec fn md5_digest(data: Seq<u8>) -> Seq<u8>;

/// The MD5 digest of `data`, as its 16 bytes.
///
/// Trusted: calls `md5::compute` and takes the 16-byte array out of the
/// `Digest` it returns. The contract names the digest (`md5_digest`) and
/// states its length; the digest itself is not described.
#[verifier::external_body]
fn md5_compute(data: &[u8]) -> (d: Vec<u8>)
    ensures
        d@ == md5_digest(data@),
        d@.len() == 16,
{
    md5::compute(data).0.to_vec()
}

/// The `X-RUN` header the conversion service whitelists a user by: the MD5
/// digest of the user name's UTF-8 bytes in lower-case hexadecimal.
pub fn x_run_header(user: &str) -> (h: String)
    ensures
        h@ == lower_hex(md5_digest(user.spec_bytes())),
        h@.len() == 32,
{
    let digest = md5_compute(user.as_bytes());
    proof {
        lemma_lower_hex_len(digest@);
    }
    to_lower_hex(digest.as_slice())
}

proof fn lemma_lower_hex_len(b: Seq<u8>)
    ensures
        lower_hex(b).len() == 2 * b.len(),
    decreases b.len(),
{
    if b.len() > 0 {
        lemma_lower_hex_len(b.drop_last());
    }
}

/// Host of the conversion service.
pub const API_HOST: &'static str = "youtube-mp36.p.rapidapi.com";

/// The conversion service's address for a video id.
pub fn conversion_api_url(video_id: &str) -> (u: String)
    ensures
        u@ == "https://youtube-mp36.p.rapidapi.com/dl?id="@ + video_id@,
{
    let mut u = String::from_str("https://youtube-mp36.p.rapidapi.com/dl?id=");
    u.append(video_id);
    u
}

/// The `User-Agent` header sent with the user's name.
pub fn user_agent(user: &str) -> (a: String)
    ensures
        a@ == "Mozilla/5.0 "@ + user@,
{
    let mut a = String::from_str("Mozilla/5.0 ");
    a.append(user);
    a
}

// ---------------------------------------------------------------------------
// Errors and texts
// ---------------------------------------------------------------------------

/// Why a conversion did not complete.
#[derive(Debug)]
pub enum ConvertError {
    /// The text holds no video id.
    InvalidUrl,
    /// The service was still processing after the last allowed attempt.
    TimedOut,
    /// The service reported success without a download link.
    NoDownloadLink,
    /// The service reported a failure, with its message.
    ApiFailure { msg: String },
    /// The service answered with an unknown status.
    InvalidResponse,
    /// The downloaded file was empty.
    EmptyDownload,
}

/// The text of a conversion error, as the bot shows it.
pub open spec fn error_text(e: ConvertError) -> Seq<char> {
    match e {
        ConvertError::InvalidUrl => "Invalid YouTube URL"@,
        ConvertError::TimedOut => "Conversion timed out"@,
        ConvertError::NoDownloadLink => "API returned success but no download link"@,
        ConvertError::ApiFailure { msg } => msg@,
        ConvertError::InvalidResponse => "Invalid API response"@,
        ConvertError::EmptyDownload => "Downloaded file is empty"@,
    }
}

impl ConvertError {
    /// The text of the error, as the bot shows it.
    pub fn message(&self) -> (s: String)
        ensures
            s@ == error_text(*self),
    {
        match self {
            ConvertError::InvalidUrl => String::from_str("Invalid YouTube URL"),
            ConvertError::TimedOut => String::from_str("Conversion timed out"),
            ConvertError::NoDownloadLink => String::from_str(
                "API returned success but no download link",
            ),
            ConvertError::ApiFailure { msg } => msg.clone(),
            ConvertError::InvalidResponse => String::from_str("Invalid API response"),
            ConvertError::EmptyDownload => String::from_str("Downloaded file is empty"),
        }
    }
}

/// Sent when a conversion starts.
pub const STARTING_TEXT: &'static str = "⏳ Starting YouTube to MP3 conversion...";

/// Sent when the download link has arrived.
pub const DOWNLOADING_TEXT: &'static str = "⬇️ Downloading MP3 file...";

/// Sent after the audio file.
pub const COMPLETE_TEXT: &'static str = "✅ Conversion complete!";

// ---------------------------------------------------------------------------
// Polling the conversion service
// ---------------------------------------------------------------------------

/// Requests sent to the conversion service at most, per conversion.
pub const MAX_ATTEMPTS: u32 = 30;

/// Every this many attempts, a progress note is sent while waiting.
pub const PROGRESS_EVERY: u32 = 5;

/// What the conversion service answered: the `status`, `link` and `msg`
/// string fields of its JSON reply (`None` where absent or not a string).
pub struct ApiReply {
    pub status: Option<String>,
    pub link: Option<String>,
    pub msg: Option<String>,
}

/// The view of an optional string.
pub open spec fn opt_chars(s: Option<String>) -> Option<Seq<char>> {
    match s {
        Some(t) => Some(t@),
        None => None,
    }
}

/// What to do after a reply.
pub enum PollStep {
    /// Download the MP3 file from `link`.
    Download { link: String },
    /// Wait and ask again, first sending `progress` when there is one.
    Wait { progress: Option<String> },
    /// Stop with an error.
    Fail { error: ConvertError },
}

/// The progress note sent while the service is still processing.
pub open spec fn progress_text(attempt: u32) -> Seq<char> {
    "🔄 Still processing (attempt "@ + dec_nat(attempt as nat) + "/"@ + dec_nat(
        MAX_ATTEMPTS as nat,
    ) + ")"@
}

/// The step to take after `reply` arrived for attempt number `attempt`:
/// status `ok` downloads the link (an error when there is none), `processing`
/// waits (with a progress note on every `PROGRESS_EVERY`-th attempt), `fail`
/// stops with the service's message (or `Conversion failed`), and any other
/// status stops with an invalid-response error.
pub open spec fn poll_step_ok(attempt: u32, reply: &ApiReply, step: &PollStep) -> bool {
    let status = opt_chars(reply.status);
    if status == Some("ok"@) {
        match reply.link {
            Some(l) => step matches PollStep::Download { link } && link@ == l@,
            None => step matches PollStep::Fail { error } && error is NoDownloadLink,
        }
    } else if status == Some("processing"@) {
        step matches PollStep::Wait { progress } && if attempt % PROGRESS_EVERY == 0 {
            progress matches Some(p) && p@ == progress_text(attempt)
        } else {
            progress is None
        }
    } else if status == Some("fail"@) {
        step matches PollStep::Fail { error } && error matches ConvertError::ApiFailure { msg }
            && msg@ == (match reply.msg {
            Some(m) => m@,
            None => "Conversion failed"@,
        })
    } else {
        step matches PollStep::Fail { error } && error is InvalidResponse
    }
}

fn string_is(s: &Option<String>, lit: &str) -> (r: bool)
    ensures
        r == (opt_chars(*s) == Some(lit@)),
{
    match s {
        Some(t) => {
            let l = String::from_str(lit);
            *t == l
        },
        None => false,
    }
}

/// The progress note for attempt number `attempt`.
pub fn progress_note(attempt: u32) -> (s: String)
    ensures
        s@ == progress_text(attempt),
{
    let mut s = String::from_str("🔄 Still processing (attempt ");
    let a = decimal_u64(attempt as u64);
    s.append(a.as_str());
    s.append("/");
    let m = decimal_u64(MAX_ATTEMPTS as u64);
    s.append(m.as_str());
    s.append(")");
    s
}

/// The state of one conversion's polling: how many requests were sent,
/// never more than `MAX_ATTEMPTS`.
pub struct ConversionPoll {
    attempts: u32,
}

impl ConversionPoll {
    #[verifier::type_invariant]
    spec fn within_limit(self) -> bool {
        self.attempts <= MAX_ATTEMPTS
    }

    /// How many requests were counted.
    pub closed spec fn count(self) -> u32 {
        self.attempts
    }

    /// Polling before the first request.
    pub fn new() -> (p: ConversionPoll)
        ensures
            p.count() == 0,
    {
        ConversionPoll { attempts: 0 }
    }

    /// How many requests were counted (at most `MAX_ATTEMPTS`).
    pub fn attempts(&self) -> (n: u32)
        ensures
            n == self.count(),
            n <= MAX_ATTEMPTS,
    {
        proof {
            use_type_invariant(self);
        }
        self.attempts
    }

    /// Counts a new request. Returns `false`, and counts nothing, when
    /// `MAX_ATTEMPTS` requests were already sent: the conversion has timed out.
    pub fn begin_attempt(&mut self) -> (go: bool)
        ensures
            go == (old(self).count() < MAX_ATTEMPTS),
            go ==> final(self).count() == old(self).count() + 1,
            !go ==> final(self).count() == old(self).count(),
    {
        proof {
            use_type_invariant(&*self);
        }
        if self.attempts < MAX_ATTEMPTS {
            self.attempts = self.attempts + 1;
            true
        } else {
            false
        }
    }

    /// The step to take after `reply` arrived for the current attempt; see
    /// `poll_step_ok`.
    pub fn on_reply(&self, reply: &ApiReply) -> (step: PollStep)
        ensures
            poll_step_ok(self.count(), reply, &step),
    {
        if string_is(&reply.status, "ok") {
            match &reply.link {
                Some(l) => PollStep::Download { link: l.clone() },
                None => PollStep::Fail { error: ConvertError::NoDownloadLink },
            }
        } else if string_is(&reply.status, "processing") {
            if self.attempts % PROGRESS_EVERY == 0 {
                PollStep::Wait { progress: Some(progress_note(self.attempts)) }
            } else {
                PollStep::Wait { progress: None }
            }
        } else if string_is(&reply.status, "fail") {
            let msg = match &reply.msg {
                Some(m) => m.clone(),
                None => String::from_str("Conversion failed"),
            };
            PollStep::Fail { error: ConvertError::ApiFailure { msg } }
        } else {
            PollStep::Fail { error: ConvertError::InvalidResponse }
        }
    }
}

/// The video id of `url`, or the error a conversion stops with when it has
/// none.
pub fn start_conversion(url: &str) -> (r: Result<String, ConvertError>)
    ensures
        r matches Ok(id) ==> spec_extract_video_id(url@) == Some(id@),
        r matches Err(e) ==> spec_extract_video_id(url@) is None && e is InvalidUrl,
{
    match extract_video_id(url) {
        Some(id) => Ok(id),
        None => Err(ConvertError::InvalidUrl),
    }
}

// ---------------------------------------------------------------------------
// Downloading the MP3 file
// ---------------------------------------------------------------------------

/// Every time this many bytes have been downloaded in total, the chat is shown
/// that a document is being uploaded.
pub const NOTIFY_EVERY: u64 = 1048576;

/// Bytes downloaded so far.
pub struct DownloadProgress {
    pub downloaded: u64,
}

impl DownloadProgress {
    /// Nothing downloaded yet.
    pub fn new() -> (p: DownloadProgress)
        ensures
            p.downloaded == 0,
    {
        DownloadProgress { downloaded: 0 }
    }

    /// Counts a chunk of `len` bytes; returns whether the new total is a
    /// multiple of `NOTIFY_EVERY`.
    pub fn on_chunk(&mut self, len: u64) -> (notify: bool)
        requires
            old(self).downloaded + len <= u64::MAX,
        ensures
            final(self).downloaded == old(self).downloaded + len,
            notify == (final(self).downloaded % NOTIFY_EVERY == 0),
    {
        self.downloaded = self.downloaded + len;
        self.downloaded % NOTIFY_EVERY == 0
    }
}

/// Accepts a downloaded file of `len` bytes; an empty one is an error.
pub fn check_download_size(len: u64) -> (r: Result<(), ConvertError>)
    ensures
        r is Ok <==> len > 0,
        r matches Err(e) ==> e is EmptyDownload,
{
    if len == 0 {
        Err(ConvertError::EmptyDownload)
    } else {
        Ok(())
    }
}

} // verus!

verus! {

// ---------------------------------------------------------------------------
// Laws of video id extraction
// ---------------------------------------------------------------------------

proof fn lemma_found_occurs(s: Seq<char>, p: Seq<char>, from: int)
    requires
        find_from(s, p, from) is Some,
    ensures
        occurs_at(s, p, find_from(s, p, from)->0),
    decreases s.len() + 1 - from,
{
    if !(from < 0 || from + p.len() > s.len()) && !occurs_at(s, p, from) {
        lemma_found_occurs(s, p, from + 1);
    }
}

proof fn lemma_occurs_found(s: Seq<char>, p: Seq<char>, from: int, k: int)
    requires
        0 <= from <= k,
        occurs_at(s, p, k),
    ensures
        find_from(s, p, from) is Some,
    decreases k - from,
{
    if from < k && !occurs_at(s, p, from) {
        lemma_occurs_found(s, p, from + 1, k);
    }
}

/// Every text containing `youtube.com/watch?v=` has a video id.
pub proof fn law_watch_url_has_id(url: Seq<char>)
    requires
        contains_seq(url, "youtube.com/watch?v="@),
    ensures
        spec_extract_video_id(url) is Some,
{
    reveal_strlit("youtube.com/watch?v=");
    reveal_strlit("v=");
    let watch = "youtube.com/watch?v="@;
    let i = find_from(url, watch, 0)->0;
    lemma_found_occurs(url, watch, 0);
    assert(url.subrange(i, i + 20) == watch);
    assert(url.subrange(i + 18, i + 20) =~= "v="@) by {
        assert forall|k: int| 0 <= k < 2 implies url.subrange(i + 18, i + 20)[k] == "v="@[k] by {
            assert(url[i + 18 + k] == watch[18 + k]);
        }
    }
    lemma_occurs_found(url, "v="@, 0, i + 18);
}

/// Every text containing `youtu.be/` (and no `youtube.com/watch?v=`) has a
/// video id.
pub proof fn law_short_url_has_id(url: Seq<char>)
    requires
        contains_seq(url, "youtu.be/"@),
    ensures
        spec_extract_video_id(url) is Some,
{
    if contains_seq(url, "youtube.com/watch?v="@) {
        law_watch_url_has_id(url);
    }
}

/// A text containing neither `youtube.com/watch?v=` nor `youtu.be/` has no
/// video id, and a conversion of it stops at once as an invalid URL.
pub proof fn law_other_text_has_no_id(url: Seq<char>)
    requires
        !contains_seq(url, "youtube.com/watch?v="@),
        !contains_seq(url, "youtu.be/"@),
    ensures
        spec_extract_video_id(url) is None,
{
}

proof fn lemma_before_char_excludes(s: Seq<char>, c: char)
    ensures
        forall|i: int| 0 <= i < before_char(s, c).len() ==> before_char(s, c)[i] != c,
        before_char(s, c).len() <= s.len(),
    decreases s.len(),
{
    if s.len() > 0 && s[0] != c {
        lemma_before_char_excludes(s.drop_first(), c);
        let t = before_char(s.drop_first(), c);
        assert forall|i: int| 0 <= i < before_char(s, c).len() implies before_char(s, c)[i]
            != c by {
            if i > 0 {
                assert(before_char(s, c)[i] == t[i - 1]);
            }
        }
    }
}

/// A video id never holds the separator it was cut at: no `&` in the id of a
/// `watch?v=` URL, no `?` in the id of a `youtu.be/` URL.
pub proof fn law_video_id_stops_at_separator(url: Seq<char>)
    ensures
        spec_extract_video_id(url) matches Some(id) ==> forall|i: int| 0 <= i < id.len() ==> if contains_seq(
            url,
            "youtube.com/watch?v="@,
        ) {
            id[i] != '&'
        } else {
            id[i] != '?'
        },
{
    if contains_seq(url, "youtube.com/watch?v="@) {
        if let Some(p) = second_piece(url, "v="@) {
            lemma_before_char_excludes(p, '&');
        }
    } else if let Some(p) = second_piece(url, "youtu.be/"@) {
        lemma_before_char_excludes(p, '?');
    }
}

// ---------------------------------------------------------------------------
// Laws of polling
// ---------------------------------------------------------------------------

/// A reply makes polling go on exactly when its status is `processing`.
pub proof fn law_waits_only_while_processing(attempt: u32, reply: &ApiReply, step: &PollStep)
    requires
        poll_step_ok(attempt, reply, step),
    ensures
        (step is Wait) == (opt_chars(reply.status) == Some("processing"@)),
{
    reveal_strlit("ok");
    reveal_strlit("fail");
    reveal_strlit("processing");
    assert("ok"@.len() != "processing"@.len());
    assert("fail"@.len() != "processing"@.len());
}

/// What a conversion's polling does, from `attempts` requests counted, when
/// the successive replies have the given statuses: `(requests sent, waits)`.
/// A request is sent only while fewer than `MAX_ATTEMPTS` were counted (see
/// `ConversionPoll::begin_attempt`); after a `processing` reply the loop
/// waits and asks again, after any other reply it stops (see
/// `law_waits_only_while_processing`).
pub open spec fn polling(attempts: nat, statuses: Seq<Option<Seq<char>>>) -> (nat, nat)
    decreases statuses.len(),
{
    if attempts >= MAX_ATTEMPTS || statuses.len() == 0 {
        (0, 0)
    } else if statuses[0] == Some("processing"@) {
        let rest = polling(attempts + 1, statuses.drop_first());
        (rest.0 + 1, rest.1 + 1)
    } else {
        (1, 0)
    }
}

/// A conversion sends at most `MAX_ATTEMPTS` requests to the service and
/// waits at most as often, whatever it answers; at most one request ends the
/// polling without a wait (so at most one download follows).
pub proof fn law_polling_bounded(attempts: nat, statuses: Seq<Option<Seq<char>>>)
    requires
        attempts <= MAX_ATTEMPTS,
    ensures
        polling(attempts, statuses).0 <= MAX_ATTEMPTS - attempts,
        polling(attempts, statuses).1 <= polling(attempts, statuses).0,
        polling(attempts, statuses).0 <= polling(attempts, statuses).1 + 1,
    decreases statuses.len(),
{
    if attempts < MAX_ATTEMPTS && statuses.len() > 0 && statuses[0] == Some("processing"@) {
        law_polling_bounded(attempts + 1, statuses.drop_first());
    }
}

} // verus!

verus! {

/// A video id is the second piece of the URL (the text after the first `v=`,
/// or `youtu.be/`, up to the next one) cut at its first separator (`&`, or
/// `?`): a prefix of that piece, ending where the piece ends or where a
/// separator stands.
pub proof fn law_video_id_is_cut_piece(url: Seq<char>)
    ensures
        spec_extract_video_id(url) matches Some(id) ==> {
            let watch = contains_seq(url, "youtube.com/watch?v="@);
            let piece = if watch {
                second_piece(url, "v="@)->0
            } else {
                second_piece(url, "youtu.be/"@)->0
            };
            let sep = if watch {
                '&'
            } else {
                '?'
            };
            &&& id.len() <= piece.len()
            &&& piece.take(id.len() as int) == id
            &&& forall|i: int| 0 <= i < id.len() ==> id[i] != sep
            &&& id.len() == piece.len() || piece[id.len() as int] == sep
        },
{
    if contains_seq(url, "youtube.com/watch?v="@) {
        if let Some(p) = second_piece(url, "v="@) {
            law_before_char_longest_prefix(p, '&');
        }
    } else if let Some(p) = second_piece(url, "youtu.be/"@) {
        law_before_char_longest_prefix(p, '?');
    }
}

} // verus!
