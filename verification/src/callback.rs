//! The local end of the authorization handshake: the request that brings the
//! authorization code, the page sent in answer, and how listening ends.

use crate::error::ClientError;
use crate::text::{chars_of, matches_at, starts_with_text};
use vstd::prelude::*;
use vstd::string::{StrSliceExecFns, StringExecFns};
use vstd::utf8::encode_utf8;

verus! {

/// The address the listener binds to.
pub const CALLBACK_ADDRESS: &'static str = "127.0.0.1:8000";

/// How long the listener waits for the callback, in seconds.
pub const CALLBACK_TIMEOUT_SECS: u64 = 20;

/// How a request that carries an authorization code begins.
pub const CALLBACK_PREFIX: &'static str = "GET /callback?code=";

/// The head of the answer to the callback, up to the length of the page.
pub const RESPONSE_HEAD: &'static str =
    "HTTP/1.1 200 OK\r\nContent-Type: text/html\r\nContent-Length: ";

/// What separates the head of the answer from the page.
pub const RESPONSE_BREAK: &'static str = "\r\n\r\n";

/// The page that confirms the authorization to the user.
pub const CONFIRMATION_PAGE: &'static str =
    "<!DOCTYPE html><html><head><title>Authorized</title></head><body><p>Authorization received. You can close this window.</p></body></html>";

/// A character that ends the authorization code within a request: the
/// space before the protocol version, the separator of the next parameter,
/// or the end of the line.
pub open spec fn ends_code(c: char) -> bool {
    c == ' ' || c == '&' || c == '\r' || c == '\n'
}

/// The number of characters at the start of `rest` that belong to the code.
pub open spec fn code_length(rest: Seq<char>) -> nat
    decreases rest.len(),
{
    if rest.len() == 0 || ends_code(rest[0]) {
        0
    } else {
        1 + code_length(rest.drop_first())
    }
}

/// The authorization code that a request carries: the request begins with
/// the callback path and the `code` parameter, and the code runs up to the
/// first character that ends it.
pub open spec fn callback_code_of(request: Seq<char>) -> Option<Seq<char>> {
    if starts_with_text(request, CALLBACK_PREFIX@) {
        let rest = request.skip(CALLBACK_PREFIX@.len() as int);
        Some(rest.take(code_length(rest) as int))
    } else {
        None
    }
}

/// The decimal digit for a number below ten.
pub open spec fn digit(d: nat) -> char {
    if d == 0 {
        '0'
    } else if d == 1 {
        '1'
    } else if d == 2 {
        '2'
    } else if d == 3 {
        '3'
    } else if d == 4 {
        '4'
    } else if d == 5 {
        '5'
    } else if d == 6 {
        '6'
    } else if d == 7 {
        '7'
    } else if d == 8 {
        '8'
    } else {
        '9'
    }
}

/// A number in decimal notation, without leading zeros.
pub open spec fn decimal(n: nat) -> Seq<char>
    decreases n,
{
    if n < 10 {
        seq![digit(n)]
    } else {
        decimal(n / 10).push(digit(n % 10))
    }
}

/// The answer to the callback that delivers `page`: a success status, the
/// type and the length in bytes of the page, and the page.
pub open spec fn confirmation_of(page: Seq<char>) -> Seq<char> {
    RESPONSE_HEAD@ + decimal(encode_utf8(page).len()) + RESPONSE_BREAK@ + page
}

/// How listening for the callback ended.
#[derive(Debug, Clone, PartialEq, Eq)]
pub enum ListenerEvent {
    /// A connection was accepted and this request was read from it.
    Accepted { request: String },
    /// Accepting a connection failed.
    AcceptFailed,
    /// No connection arrived in time.
    TimedOut,
}

/// What follows from the end of listening. In every case the listener is
/// done: it accepts no further connection and its address is released.
#[derive(Debug, PartialEq, Eq)]
pub struct Verdict {
    /// The authorization code, or why there is none.
    pub outcome: Result<String, ClientError>,
    /// What to write to the accepted connection before it is closed.
    pub response: Option<String>,
}

/// The outcome that follows from an event.
pub open spec fn outcome_of(event: ListenerEvent) -> Result<Seq<char>, ClientError> {
    match event {
        ListenerEvent::Accepted { request } => match callback_code_of(request@) {
            Some(code) => Ok(code),
            None => Err(ClientError::MalformedResponse),
        },
        ListenerEvent::AcceptFailed => Err(ClientError::NetworkFailure),
        ListenerEvent::TimedOut => Err(ClientError::Timeout),
    }
}

/// The characters of the code in an outcome.
pub open spec fn outcome_view(outcome: Result<String, ClientError>) -> Result<
    Seq<char>,
    ClientError,
> {
    match outcome {
        Ok(code) => Ok(code@),
        Err(e) => Err(e),
    }
}

/// The code runs on past a character that does not end it.
proof fn lemma_code_length_step(rest: Seq<char>, i: int)
    requires
        0 <= i < rest.len(),
        code_length(rest) == i + code_length(rest.skip(i)),
        !ends_code(rest[i]),
    ensures
        code_length(rest) == i + 1 + code_length(rest.skip(i + 1)),
{
    assert(rest.skip(i)[0] == rest[i]);
    assert(rest.skip(i).drop_first() =~= rest.skip(i + 1));
}

/// The authorization code that a request carries; a request of any other
/// shape is malformed.
pub fn callback_code(request: &str) -> (r: Result<String, ClientError>)
    ensures
        outcome_view(r) == match callback_code_of(request@) {
            Some(code) => Ok::<Seq<char>, ClientError>(code),
            None => Err(ClientError::MalformedResponse),
        },
{
    let chars = chars_of(request);
    let prefix = chars_of(CALLBACK_PREFIX);
    if !matches_at(&chars, &prefix, 0) {
        return Err(ClientError::MalformedResponse);
    }
    let start = prefix.len();
    let ghost rest = request@.skip(start as int);
    assert(rest.skip(0) =~= rest);
    let mut end = start;
    while end < chars.len() && !is_code_end(chars[end])
        invariant
            start <= end <= chars.len(),
            chars@ == request@,
            rest == request@.skip(start as int),
            code_length(rest) == (end - start) + code_length(rest.skip(end - start)),
        decreases chars.len() - end,
    {
        proof {
            lemma_code_length_step(rest, end - start);
        }
        end += 1;
    }
    assert(code_length(rest.skip(end - start)) == 0) by {
        if end < chars.len() {
            assert(rest.skip(end - start)[0] == rest[end - start]);
        }
    }
    assert(rest.take(end - start) =~= request@.subrange(start as int, end as int));
    Ok(request.substring_char(start, end).to_owned())
}

/// Whether a character ends the authorization code within a request.
fn is_code_end(c: char) -> (r: bool)
    ensures
        r == ends_code(c),
{
    c == ' ' || c == '&' || c == '\r' || c == '\n'
}

/// The text of the decimal digit for a number below ten.
fn digit_text(d: usize) -> (text: &'static str)
    requires
        d < 10,
    ensures
        text@ == seq![digit(d as nat)],
{
    proof {
        reveal_strlit("0");
        reveal_strlit("1");
        reveal_strlit("2");
        reveal_strlit("3");
        reveal_strlit("4");
        reveal_strlit("5");
        reveal_strlit("6");
        reveal_strlit("7");
        reveal_strlit("8");
        reveal_strlit("9");
    }
    let text = if d == 0 {
        "0"
    } else if d == 1 {
        "1"
    } else if d == 2 {
        "2"
    } else if d == 3 {
        "3"
    } else if d == 4 {
        "4"
    } else if d == 5 {
        "5"
    } else if d == 6 {
        "6"
    } else if d == 7 {
        "7"
    } else if d == 8 {
        "8"
    } else {
        "9"
    };
    assert(text@ =~= seq![digit(d as nat)]);
    text
}

/// Appends a number in decimal notation.
fn push_decimal(out: &mut String, n: usize)
    ensures
        final(out)@ == old(out)@ + decimal(n as nat),
    decreases n,
{
    if n >= 10 {
        push_decimal(out, n / 10);
    }
    out.append(digit_text(n % 10));
    assert(final(out)@ =~= old(out)@ + decimal(n as nat));
}

/// The answer to the callback that delivers `page`.
pub fn confirmation_response(page: &str) -> (response: String)
    ensures
        response@ == confirmation_of(page@),
{
    let mut response = RESPONSE_HEAD.to_owned();
    push_decimal(&mut response, page.as_bytes().len());
    response.append(RESPONSE_BREAK);
    response.append(page);
    assert(response@ =~= confirmation_of(page@));
    response
}

/// What follows from the end of listening: the authorization code and the
/// confirmation to send where the accepted request carries a code, and the
/// failure otherwise.
pub fn conclude(event: &ListenerEvent) -> (verdict: Verdict)
    ensures
        outcome_view(verdict.outcome) == outcome_of(*event),
        match verdict.response {
            Some(response) => verdict.outcome is Ok && response@ == confirmation_of(
                CONFIRMATION_PAGE@,
            ),
            None => verdict.outcome is Err,
        },
        *event is TimedOut ==> verdict.outcome == Err::<String, ClientError>(
            ClientError::Timeout,
        ),
{
    match event {
        ListenerEvent::Accepted { request } => match callback_code(request.as_str()) {
            Ok(code) => Verdict {
                outcome: Ok(code),
                response: Some(confirmation_response(CONFIRMATION_PAGE)),
            },
            Err(e) => Verdict { outcome: Err(e), response: None },
        },
        ListenerEvent::AcceptFailed => Verdict {
            outcome: Err(ClientError::NetworkFailure),
            response: None,
        },
        ListenerEvent::TimedOut => Verdict { outcome: Err(ClientError::Timeout), response: None },
    }
}

} // verus!
