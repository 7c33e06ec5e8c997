//! Requests and replies as plain values: what is to be sent, and what came
//! back.

use vstd::prelude::*;

verus! {

/// Where access tokens are granted.
pub const TOKEN_URL: &'static str = "https://accounts.spotify.com/api/token";

/// Where the user grants consent; the query string follows.
pub const AUTHORIZE_URL: &'static str = "https://accounts.spotify.com/authorize?";

/// Where the player reports what is playing.
pub const PLAYER_URL: &'static str = "https://api.spotify.com/v1/me/player";

/// Where the account reports its profile.
pub const PROFILE_URL: &'static str = "https://api.spotify.com/v1/me";

/// Where the provider sends the user back with the authorization code.
pub const REDIRECT_URI: &'static str = "http://127.0.0.1:8000/callback";

/// What the application asks to read.
pub const SCOPE: &'static str = "user-read-private user-read-email user-read-playback-state";

/// How long the exchange of an authorization code may take, in milliseconds.
pub const EXCHANGE_TIMEOUT_MS: u64 = 2000;

/// The method of a request.
#[derive(Debug, Clone, Copy, PartialEq, Eq, Structural)]
pub enum Method {
    Get,
    Post,
}

/// How a request identifies its sender.
#[derive(Debug, Clone, PartialEq, Eq)]
pub enum Authorization {
    Anonymous,
    /// HTTP Basic authentication with the client id and secret.
    Basic { id: String, secret: String },
    /// A bearer access token.
    Bearer { token: String },
}

/// A request to be sent.
#[derive(Debug, Clone, PartialEq, Eq)]
pub struct Request {
    pub method: Method,
    pub url: String,
    pub authorization: Authorization,
    /// The body is a URL-encoded form, and is declared as one.
    pub form_encoded: bool,
    /// A JSON response is asked for.
    pub accept_json: bool,
    pub body: String,
    /// How long to wait for the response, in milliseconds, where bounded.
    pub timeout_ms: Option<u64>,
}

/// What came back for a request.
#[derive(Debug, Clone, PartialEq, Eq)]
pub enum Reply {
    /// A response arrived, with this status code and body.
    Received { status: u16, body: String },
    /// The request was not sent, or no response arrived in time.
    Failed,
}

/// The sender's identification as mathematics.
pub enum AuthorizationView {
    Anonymous,
    Basic { id: Seq<char>, secret: Seq<char> },
    Bearer { token: Seq<char> },
}

/// A request as mathematics.
pub struct RequestView {
    pub method: Method,
    pub url: Seq<char>,
    pub authorization: AuthorizationView,
    pub form_encoded: bool,
    pub accept_json: bool,
    pub body: Seq<char>,
    pub timeout_ms: Option<u64>,
}

impl View for Authorization {
    type V = AuthorizationView;

    open spec fn view(&self) -> AuthorizationView {
        match self {
            Authorization::Anonymous => AuthorizationView::Anonymous,
            Authorization::Basic { id, secret } => AuthorizationView::Basic {
                id: id@,
                secret: secret@,
            },
            Authorization::Bearer { token } => AuthorizationView::Bearer { token: token@ },
        }
    }
}

impl View for Request {
    type V = RequestView;

    open spec fn view(&self) -> RequestView {
        RequestView {
            method: self.method,
            url: self.url@,
            authorization: self.authorization@,
            form_encoded: self.form_encoded,
            accept_json: self.accept_json,
            body: self.body@,
            timeout_ms: self.timeout_ms,
        }
    }
}

impl DeepView for Request {
    type V = RequestView;

    open spec fn deep_view(&self) -> RequestView {
        self@
    }
}

/// A status code of the success class.
pub open spec fn is_success(status: u16) -> bool {
    200 <= status < 300
}

/// Whether a status code is of the success class.
pub fn status_is_success(status: u16) -> (r: bool)
    ensures
        r == is_success(status),
{
    200 <= status && status < 300
}

} // verus!
