//! Asking Gemini 2.0 Flash: the request address and the reading of its reply.

use vstd::prelude::*;

use crate::converter::opt_chars;

verus! {

/// The `generateContent` endpoint of Gemini 2.0 Flash, up to the API key.
pub const GEMINI_ENDPOINT: &'static str =
    "https://generativelanguage.googleapis.com/v1beta/models/gemini-2.0-flash:generateContent?key=";

/// The request address for an API key.
pub fn gemini_url(api_key: &str) -> (u: String)
    ensures
        u@ == GEMINI_ENDPOINT@ + api_key@,
{
    let mut u = String::from_str(GEMINI_ENDPOINT);
    u.append(api_key);
    u
}

/// What a Gemini reply holds for the bot: its `error` member, written as
/// JSON, when there is one, and the text of the first part of the first
/// candidate's content, when that is a string.
pub struct GeminiReply {
    pub error: Option<String>,
    pub text: Option<String>,
}

/// Why no answer came out of a Gemini reply.
#[derive(Debug)]
pub enum GeminiError {
    /// The reply carried an `error` member, shown here as JSON.
    Api { detail: String },
    /// The reply held no answer text where one was expected.
    Unparsable,
    /// The reply was not JSON; the parser's message.
    NotJson { detail: String },
}

/// The text of a Gemini error, as shown to the user.
pub open spec fn gemini_error_text(e: GeminiError) -> Seq<char> {
    match e {
        GeminiError::Api { detail } => "Gemini API error: "@ + detail@,
        GeminiError::Unparsable => "Failed to parse Gemini response"@,
        GeminiError::NotJson { detail } => detail@,
    }
}

impl GeminiError {
    /// The text of the error, as shown to the user.
    pub fn message(&self) -> (s: String)
        ensures
            s@ == gemini_error_text(*self),
    {
        match self {
            GeminiError::Api { detail } => {
                let mut s = String::from_str("Gemini API error: ");
                s.append(detail.as_str());
                s
            },
            GeminiError::Unparsable => String::from_str("Failed to parse Gemini response"),
            GeminiError::NotJson { detail } => detail.clone(),
        }
    }
}

/// The answer in a Gemini reply: an error when the reply carries one, else
/// the answer text, else an error saying that the reply could not be read.
pub fn interpret_gemini_reply(reply: GeminiReply) -> (r: Result<String, GeminiError>)
    ensures
        reply.error matches Some(d) ==> r matches Err(GeminiError::Api { detail }) && detail@
            == d@,
        reply.error is None ==> match reply.text {
            Some(t) => r matches Ok(a) && a@ == t@,
            None => r matches Err(e) && e is Unparsable,
        },
{
    match reply.error {
        Some(detail) => Err(GeminiError::Api { detail }),
        None => match reply.text {
            Some(t) => Ok(t),
            None => Err(GeminiError::Unparsable),
        },
    }
}

/// What a Gemini reply body holds for the bot: `None` when it is not JSON,
/// else its `error` member written as JSON (when present) and the string at
/// `candidates[0].content.parts[0].text` (when there is one).
pub uninterp spec fn gemini_body_fields(body: Seq<char>) -> Option<(Option<Seq<char>>, Option<Seq<char>>)>;

/// Reads the fields the bot needs out of a Gemini reply body.
///
/// Trusted: parses `body` with `serde_json::from_str::<serde_json::Value>`;
/// on success returns the `error` member (`Value::get`) written with
/// `Value`'s `Display` (compact JSON), and the string at
/// `["candidates"][0]["content"]["parts"][0]["text"]` (`Value`'s indexing,
/// then `as_str`); on failure returns the parser error's `Display` text.
/// The contract names the fields (`gemini_body_fields`) and says which
/// outcome is a parse failure; it does not state the error text.
#[verifier::external_body]
fn read_gemini_body(body: &str) -> (r: Result<(Option<String>, Option<String>), String>)
    ensures
        r matches Ok(f) ==> gemini_body_fields(body@) == Some((opt_chars(f.0), opt_chars(f.1))),
        r is Err ==> gemini_body_fields(body@) is None,
{
    match serde_json::from_str::<serde_json::Value>(body) {
        Ok(v) => Ok((
            v.get("error").map(|e| e.to_string()),
            v["candidates"][0]["content"]["parts"][0]["text"].as_str().map(|s| s.to_string()),
        )),
        Err(e) => Err(e.to_string()),
    }
}

/// The answer in a Gemini reply body: a not-JSON error when it does not
/// parse, else as `interpret_gemini_reply` reads its fields.
pub open spec fn gemini_answer_ok(body: Seq<char>, r: Result<String, GeminiError>) -> bool {
    match gemini_body_fields(body) {
        None => r matches Err(e) && e is NotJson,
        Some((err, text)) => match err {
            Some(d) => r matches Err(e) && e matches GeminiError::Api { detail } && detail@ == d,
            None => match text {
                Some(t) => r matches Ok(a) && a@ == t,
                None => r matches Err(e) && e is Unparsable,
            },
        },
    }
}

/// The answer in a Gemini reply body; see `gemini_answer_ok`.
pub fn gemini_answer(body: &str) -> (r: Result<String, GeminiError>)
    ensures
        gemini_answer_ok(body@, r),
{
    match read_gemini_body(body) {
        Ok((error, text)) => interpret_gemini_reply(GeminiReply { error, text }),
        Err(detail) => Err(GeminiError::NotJson { detail }),
    }
}

} // verus!
