//! The ping: the request that carries the token, and what is made of the
//! answer.

use crate::record::{decimal, decimal_text, Level, Line, LogRecord};
use vstd::prelude::*;

verus! {

/// Where the ping goes.
pub const NINTENDO_URL: &'static str = "https://app.splatoon2.nintendo.net/api/schedules";

/// The name under which the cookie carries the token, with its equals sign.
pub const COOKIE_PREFIX: &'static str = "iksm_session=";

/// How long an answer is waited for, in seconds.
pub const TIMEOUT_SECONDS: u64 = 30;

/// Declares `reqwest::header::HeaderValue`, the value of a header as it is
/// sent. Nothing of its inside is seen here.
#[verifier::external_type_specification]
#[verifier::external_body]
pub struct ExHeaderValue(reqwest::header::HeaderValue);

/// Declares `reqwest::header::InvalidHeaderValue`, the refusal of a text as
/// the value of a header. It holds nothing.
#[verifier::external_type_specification]
#[verifier::external_body]
pub struct ExInvalidHeaderValue(reqwest::header::InvalidHeaderValue);

/// Whether a character may stand in the value of a header: the tab, and
/// every character from the space on but the delete character.
pub open spec fn header_char(c: char) -> bool {
    c == '\t' || (c as u32 >= 32 && c as u32 != 127)
}

/// Whether a text can be the value of a header.
pub open spec fn header_text(text: Seq<char>) -> bool {
    forall|i: int| 0 <= i < text.len() ==> header_char(#[trigger] text[i])
}

/// Calls `HeaderValue::from_str` of the `http` crate, as `reqwest` hands it on.
///
/// Trusted: the call succeeds exactly where every character of the text may
/// stand in a header. Nothing is said of the value that it makes.
#[verifier::external_body]
fn header_value(text: &str) -> (r: Result<
    reqwest::header::HeaderValue,
    reqwest::header::InvalidHeaderValue,
>)
    ensures
        r is Ok <==> header_text(text@),
{
    reqwest::header::HeaderValue::from_str(text)
}

/// One ping, ready to be sent: a GET of `url` with the single header
/// `Cookie`, whose value is `cookie`, and no body. An answer that has not
/// come after `timeout` seconds is given up.
#[derive(Clone, Debug, PartialEq, Eq)]
pub struct PingRequest {
    pub url: String,
    pub cookie: String,
    pub timeout: u64,
}

/// A request as mathematics.
pub struct RequestView {
    pub url: Seq<char>,
    pub cookie: Seq<char>,
    pub timeout: u64,
}

impl View for PingRequest {
    type V = RequestView;

    open spec fn view(&self) -> RequestView {
        RequestView { url: self.url@, cookie: self.cookie@, timeout: self.timeout }
    }
}

/// How a ping ended: with the status of whatever answer came, or without an
/// answer.
#[derive(Clone, Copy, Debug, PartialEq, Eq, Structural)]
pub enum PingOutcome {
    /// An answer came; this is its status code.
    Status(u16),
    /// No answer came: the request could not be sent, or nothing readable
    /// came back.
    TransportFailure,
}

/// The request that carries a token.
pub open spec fn request_for(token: Seq<char>) -> RequestView {
    RequestView { url: NINTENDO_URL@, cookie: COOKIE_PREFIX@ + token, timeout: TIMEOUT_SECONDS }
}

/// Every character of the cookie's name may stand in a header, so a cookie
/// can be sent exactly where its token can.
pub proof fn lemma_cookie_is_header_text(token: Seq<char>)
    ensures
        header_text(COOKIE_PREFIX@ + token) <==> header_text(token),
{
    reveal_strlit("iksm_session=");
    let prefix = COOKIE_PREFIX@;
    let cookie = prefix + token;
    assert(header_text(prefix));
    if header_text(token) {
        assert forall|i: int| 0 <= i < cookie.len() implies header_char(#[trigger] cookie[i]) by {
            if i >= prefix.len() {
                assert(cookie[i] == token[i - prefix.len()]);
            }
        }
    }
    if header_text(cookie) {
        assert forall|i: int| 0 <= i < token.len() implies header_char(#[trigger] token[i]) by {
            assert(token[i] == cookie[i + prefix.len()]);
        }
    }
}

/// Prepares the ping for a token: `None` where the token holds a character
/// that no header can carry, else the one request to send.
pub fn ping_request(token: &str) -> (r: Option<PingRequest>)
    ensures
        r is Some <==> header_text(token@),
        r is Some ==> r->Some_0@ == request_for(token@),
{
    let mut cookie = String::from_str(COOKIE_PREFIX);
    cookie.append(token);
    proof {
        lemma_cookie_is_header_text(token@);
    }
    match header_value(cookie.as_str()) {
        Ok(_) => Some(
            PingRequest { url: String::from_str(NINTENDO_URL), cookie, timeout: TIMEOUT_SECONDS },
        ),
        Err(_) => None,
    }
}

/// The line that reports a ping.
pub open spec fn ping_line(token: Seq<char>, outcome: PingOutcome) -> Line {
    match outcome {
        PingOutcome::Status(code) => Line {
            level: Level::Info,
            text: "Sent ping to SplatNet with token "@ + token + " and received response code "@
                + decimal(code as nat) + "."@,
        },
        PingOutcome::TransportFailure => Line {
            level: Level::Error,
            text: "Failed to send ping, retrying in the next iteration."@,
        },
    }
}

/// The record of one ping, for the log. An answer is reported with the token
/// and its status, whatever the status; a failure in one fixed sentence.
pub fn ping_record(token: &str, outcome: PingOutcome) -> (r: LogRecord)
    ensures
        r@ == ping_line(token@, outcome),
{
    match outcome {
        PingOutcome::Status(code) => {
            let mut message = String::from_str("Sent ping to SplatNet with token ");
            message.append(token);
            message.append(" and received response code ");
            let digits = decimal_text(code);
            message.append(digits.as_str());
            message.append(".");
            LogRecord { level: Level::Info, message }
        },
        PingOutcome::TransportFailure => LogRecord::new(
            Level::Error,
            "Failed to send ping, retrying in the next iteration.",
        ),
    }
}

} // verus!
