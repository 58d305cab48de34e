use vstd::prelude::*;
use crate::digits::digit_char;

verus! {

/// The model asked for when none is configured.
pub const DEFAULT_MODEL: &'static str = "gemini-3-flash-preview";

/// The text returned when a reply holds no text to extract.
pub const NO_ANALYSIS: &'static str = "No analysis generated";

pub const API_ERROR_PREFIX: &'static str = "API Error: ";

pub const ENDPOINT_PREFIX: &'static str = "https://generativelanguage.googleapis.com/v1beta/models/";

pub const ENDPOINT_METHOD: &'static str = ":generateContent?key=";

pub const BODY_OPEN: &'static str = "{\"contents\":[{\"role\":\"user\",\"parts\":[{\"text\":";

pub const BODY_CLOSE: &'static str = "}]}]}";

/// One fragment of a reply; each link of the reply's shape may be missing.
#[derive(Clone, Debug)]
pub struct Part {
    pub text: Option<String>,
}

#[derive(Clone, Debug)]
pub struct Content {
    pub role: Option<String>,
    pub parts: Option<Vec<Part>>,
}

#[derive(Clone, Debug)]
pub struct Candidate {
    pub content: Option<Content>,
}

/// A decoded reply of the completion service.
#[derive(Clone, Debug)]
pub struct GeminiResponse {
    pub candidates: Option<Vec<Candidate>>,
}

/// Why a completion produced no analysis.
#[derive(Clone, Debug)]
pub enum CompletionError {
    /// The service answered with a non-success status; the raw body.
    Upstream(String),
    /// The exchange itself failed (connection, timeout, undecodable body).
    Transport(String),
}

/// A lower-case hexadecimal digit.
pub open spec fn hex_digit(d: nat) -> char {
    if d < 10 {
        digit_char(d)
    } else if d == 10 { 'a' }
    else if d == 11 { 'b' }
    else if d == 12 { 'c' }
    else if d == 13 { 'd' }
    else if d == 14 { 'e' }
    else { 'f' }
}

/// One character inside a JSON string literal: quote, backslash and the
/// control characters are escaped, everything else stands as it is.
pub open spec fn json_escape(c: char) -> Seq<char> {
    if c == '"' { seq!['\\', '"'] }
    else if c == '\\' { seq!['\\', '\\'] }
    else if c == '\u{8}' { seq!['\\', 'b'] }
    else if c == '\t' { seq!['\\', 't'] }
    else if c == '\n' { seq!['\\', 'n'] }
    else if c == '\u{c}' { seq!['\\', 'f'] }
    else if c == '\r' { seq!['\\', 'r'] }
    else if (c as u32) < 0x20 {
        seq!['\\', 'u', '0', '0', hex_digit((c as u32 / 16) as nat), hex_digit((c as u32 % 16) as nat)]
    } else {
        seq![c]
    }
}

pub open spec fn json_escaped(s: Seq<char>) -> Seq<char>
    decreases s.len(),
{
    if s.len() == 0 {
        seq![]
    } else {
        json_escaped(s.drop_last()) + json_escape(s.last())
    }
}

/// A string as a JSON string literal.
pub open spec fn json_quoted(s: Seq<char>) -> Seq<char> {
    seq!['"'] + json_escaped(s) + seq!['"']
}

/// Relies on serde_json's `Display` for `Value::String`: one JSON string
/// literal, escaped by its table (quote, backslash, `\b \t \n \f \r`, and
/// `\u00xx` with lower-case hex for the other characters below 0x20).
#[verifier::external_body]
fn json_string(s: &str) -> (r: String)
    ensures
        r@ == json_quoted(s@),
{
    serde_json::Value::String(s.to_string()).to_string()
}

pub open spec fn endpoint_text(model: Seq<char>, api_key: Seq<char>) -> Seq<char> {
    ENDPOINT_PREFIX@ + model + ENDPOINT_METHOD@ + api_key
}

pub open spec fn body_text(prompt: Seq<char>) -> Seq<char> {
    BODY_OPEN@ + json_quoted(prompt) + BODY_CLOSE@
}

/// The first candidate's first part's text, if every link is there.
pub open spec fn first_text(r: GeminiResponse) -> Option<Seq<char>> {
    match r.candidates {
        Some(cs) => if cs@.len() == 0 {
            None
        } else {
            match cs@[0].content {
                Some(c) => match c.parts {
                    Some(ps) => if ps@.len() == 0 {
                        None
                    } else {
                        match ps@[0].text {
                            Some(t) => Some(t@),
                            None => None,
                        }
                    },
                    None => None,
                },
                None => None,
            }
        },
        None => None,
    }
}

pub open spec fn analysis_text(r: GeminiResponse) -> Seq<char> {
    match first_text(r) {
        Some(t) => t,
        None => NO_ANALYSIS@,
    }
}

pub open spec fn is_success_status(status: u16) -> bool {
    200 <= status <= 299
}

impl CompletionError {
    pub open spec fn message_text(&self) -> Seq<char> {
        match self {
            CompletionError::Upstream(b) => API_ERROR_PREFIX@ + b@,
            CompletionError::Transport(m) => m@,
        }
    }

    /// The message reported to the caller.
    pub fn message(&self) -> (r: String)
        ensures
            r@ == self.message_text(),
    {
        match self {
            CompletionError::Upstream(b) => String::from_str(API_ERROR_PREFIX).concat(b.as_str()),
            CompletionError::Transport(m) => m.clone(),
        }
    }
}

/// The configured model, or the default one.
pub fn model_or_default(configured: Option<String>) -> (r: String)
    ensures
        match configured {
            Some(m) => r@ == m@,
            None => r@ == DEFAULT_MODEL@,
        },
{
    match configured {
        Some(m) => m,
        None => String::from_str(DEFAULT_MODEL),
    }
}

/// The URL of one completion call for a model and an API key.
pub fn completion_url(model: &str, api_key: &str) -> (r: String)
    ensures
        r@ == endpoint_text(model@, api_key@),
{
    let mut s = String::from_str(ENDPOINT_PREFIX);
    s.append(model);
    s.append(ENDPOINT_METHOD);
    s.append(api_key);
    s
}

/// The request envelope: one user turn holding one text part, the prompt.
pub fn request_body(prompt: &str) -> (r: String)
    ensures
        r@ == body_text(prompt@),
{
    let mut s = String::from_str(BODY_OPEN);
    s.append(json_string(prompt).as_str());
    s.append(BODY_CLOSE);
    s
}

/// Takes the first candidate's first part's text, or the fixed sentinel when
/// a link of that chain is missing.
pub fn extract_text(r: &GeminiResponse) -> (t: String)
    ensures
        t@ == analysis_text(*r),
{
    match &r.candidates {
        Some(cs) => {
            if cs.len() == 0 {
                return String::from_str(NO_ANALYSIS);
            }
            match &cs[0].content {
                Some(c) => match &c.parts {
                    Some(ps) => {
                        if ps.len() == 0 {
                            return String::from_str(NO_ANALYSIS);
                        }
                        match &ps[0].text {
                            Some(t) => t.clone(),
                            None => String::from_str(NO_ANALYSIS),
                        }
                    },
                    None => String::from_str(NO_ANALYSIS),
                },
                None => String::from_str(NO_ANALYSIS),
            }
        },
        None => String::from_str(NO_ANALYSIS),
    }
}

/// Decides on the reply's status: a success status hands the body on for
/// decoding, any other fails with the body verbatim.
pub fn check_status(status: u16, body: String) -> (r: Result<String, CompletionError>)
    ensures
        is_success_status(status) ==> (r matches Ok(b) && b@ == body@),
        !is_success_status(status) ==> (r matches Err(CompletionError::Upstream(b)) && b@ == body@),
{
    if 200 <= status && status <= 299 {
        Ok(body)
    } else {
        Err(CompletionError::Upstream(body))
    }
}

/// Turns a decoded reply into the analysis, or a decoding failure into a
/// transport error. A reply without text is a success with the sentinel.
pub fn read_reply(decoded: Result<GeminiResponse, String>) -> (r: Result<String, CompletionError>)
    ensures
        match decoded {
            Ok(g) => r matches Ok(t) && t@ == analysis_text(g),
            Err(m) => r matches Err(CompletionError::Transport(e)) && e@ == m@,
        },
{
    match decoded {
        Ok(g) => Ok(extract_text(&g)),
        Err(m) => Err(CompletionError::Transport(m)),
    }
}

} // verus!
