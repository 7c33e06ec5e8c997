//! The client of one account: its identity, its access token, the track on
//! display, and the steps that keep the two current.

use crate::credentials::{
    constants_of, read_text, user_of, AuthFile, Constants, ConstantsView, Credential,
    CredentialView, User,
};
use crate::error::ClientError;
use crate::form::{
    code_grant_fields, code_grant_form, consent_fields, consent_query, refresh_grant_fields,
    refresh_grant_form, search_params_text,
};
use crate::http::{
    is_success, status_is_success, Authorization, AuthorizationView, Method, Reply, Request,
    RequestView, AUTHORIZE_URL, EXCHANGE_TIMEOUT_MS, PLAYER_URL, PROFILE_URL, TOKEN_URL,
};
use crate::json::{json_document, Json, JsonView};
use crate::poll::{reply_outcome, Poll, PollView};
use crate::track::{nothing_playing, up_next, Image, Track, TrackView};
use vstd::prelude::*;
use vstd::string::StringExecFns;

verus! {

/// A client that prepares requests to the streaming service and takes in
/// what comes back.
#[derive(Debug, Clone)]
pub struct SpotifyUser {
    /// Display name of the account.
    username: String,
    /// The cached access token; empty while there is none.
    token: String,
    /// Client id of the application.
    id: String,
    /// Client secret of the application.
    secret: String,
    /// No request of this client is outstanding.
    can_recieve: bool,
    /// The track on display.
    current_track: Track,
}

/// A client as mathematics.
pub struct SpotifyUserView {
    pub username: Seq<char>,
    pub token: Seq<char>,
    pub id: Seq<char>,
    pub secret: Seq<char>,
    pub can_recieve: bool,
    pub current_track: TrackView,
}

/// Where a client stands in its cycle.
#[derive(Debug, Clone, Copy, PartialEq, Eq, Structural)]
pub enum Phase {
    /// No token is cached and none is being asked for.
    NeedToken,
    /// A token has been asked for; the answer is outstanding.
    Authorizing,
    /// A token is cached and no query is outstanding.
    HaveToken,
    /// The player has been queried; the answer is outstanding.
    Polling,
}

/// What a client is to do next.
#[derive(Debug, Clone, Copy, PartialEq, Eq, Structural)]
pub enum Step {
    /// Nothing: an answer is outstanding, or no refresh is due.
    Wait,
    /// Ask for an access token.
    FetchToken,
    /// Query the player.
    FetchTrack,
}

impl View for SpotifyUser {
    type V = SpotifyUserView;

    closed spec fn view(&self) -> SpotifyUserView {
        SpotifyUserView {
            username: self.username@,
            token: self.token@,
            id: self.id@,
            secret: self.secret@,
            can_recieve: self.can_recieve,
            current_track: self.current_track@,
        }
    }
}

impl DeepView for SpotifyUser {
    type V = SpotifyUserView;

    open spec fn deep_view(&self) -> SpotifyUserView {
        self@
    }
}

impl SpotifyUserView {
    /// A client with this identity that has no token, no name and nothing on
    /// display, and is ready.
    pub open spec fn fresh(constants: ConstantsView) -> SpotifyUserView {
        SpotifyUserView {
            username: Seq::empty(),
            token: Seq::empty(),
            id: constants.id,
            secret: constants.secret,
            can_recieve: true,
            current_track: nothing_playing(),
        }
    }

    /// Where the client stands in its cycle.
    pub open spec fn phase(self) -> Phase {
        if self.token.len() == 0 {
            if self.can_recieve {
                Phase::NeedToken
            } else {
                Phase::Authorizing
            }
        } else {
            if self.can_recieve {
                Phase::HaveToken
            } else {
                Phase::Polling
            }
        }
    }

    /// What the client is to do next, given whether a refresh of the track
    /// is due.
    pub open spec fn step(self, refresh_due: bool) -> Step {
        match self.phase() {
            Phase::NeedToken => Step::FetchToken,
            Phase::HaveToken => if refresh_due {
                Step::FetchTrack
            } else {
                Step::Wait
            },
            _ => Step::Wait,
        }
    }

    /// The request that asks for an access token in exchange for `refresh`.
    pub open spec fn token_request(self, refresh: Seq<char>) -> RequestView {
        RequestView {
            method: Method::Post,
            url: TOKEN_URL@,
            authorization: AuthorizationView::Basic { id: self.id, secret: self.secret },
            form_encoded: true,
            accept_json: false,
            body: search_params_text(refresh_grant_fields(refresh)),
            timeout_ms: None,
        }
    }

    /// The request that exchanges an authorization code for tokens.
    pub open spec fn refresh_request(self, code: Seq<char>) -> RequestView {
        RequestView {
            method: Method::Post,
            url: TOKEN_URL@,
            authorization: AuthorizationView::Basic { id: self.id, secret: self.secret },
            form_encoded: true,
            accept_json: true,
            body: search_params_text(code_grant_fields(code)),
            timeout_ms: Some(EXCHANGE_TIMEOUT_MS),
        }
    }

    /// The request for `url` that presents the cached token.
    pub open spec fn bearer_request(self, url: Seq<char>) -> RequestView {
        RequestView {
            method: Method::Get,
            url,
            authorization: AuthorizationView::Bearer { token: self.token },
            form_encoded: false,
            accept_json: true,
            body: Seq::empty(),
            timeout_ms: None,
        }
    }

    /// The client once the meaning of a reply from the player is taken in:
    /// ready again, the token dropped where it was rejected, the track
    /// replaced as a whole where the reply carries one.
    pub open spec fn after_poll(self, poll: PollView) -> SpotifyUserView {
        SpotifyUserView {
            can_recieve: true,
            token: if poll is Unauthorized {
                Seq::empty()
            } else {
                self.token
            },
            current_track: match written_track(poll) {
                Some(track) => track,
                None => self.current_track,
            },
            ..self
        }
    }

    /// The client once the answer to a request for a token is taken in:
    /// ready again, with the granted token or none.
    pub open spec fn after_grant(self, status: u16, doc: Option<JsonView>) -> SpotifyUserView {
        SpotifyUserView {
            can_recieve: true,
            token: match granted_token(status, doc) {
                Some(token) => token,
                None => Seq::empty(),
            },
            ..self
        }
    }
}

/// The track that a reply of this meaning puts on display, if it puts one.
pub open spec fn written_track(poll: PollView) -> Option<TrackView> {
    match poll {
        PollView::Playing(track) => Some(track),
        PollView::UpNext => Some(up_next()),
        PollView::NothingPlaying => Some(nothing_playing()),
        _ => None,
    }
}

/// What the caller is told about a reply of this meaning.
pub open spec fn poll_result(poll: PollView) -> Result<(), ClientError> {
    match poll {
        PollView::Unauthorized => Err(ClientError::TokenExpired),
        PollView::Malformed => Err(ClientError::MalformedResponse),
        PollView::NoReply => Err(ClientError::NetworkFailure),
        _ => Ok(()),
    }
}

/// The access token granted by a response with this status whose body holds
/// this document, if any.
pub open spec fn granted_token(status: u16, doc: Option<JsonView>) -> Option<Seq<char>> {
    match doc {
        Some(doc) if is_success(status) => doc.text_member("access_token"@),
        _ => None,
    }
}

/// The refresh token that replaces the stored one, where the response that
/// grants an access token carries one.
pub open spec fn rotated_refresh(status: u16, doc: Option<JsonView>) -> Option<Seq<char>> {
    match doc {
        Some(doc) if granted_token(status, Some(doc)) is Some => doc.text_member(
            "refresh_token"@,
        ),
        _ => None,
    }
}

/// The status and document of a reply, where one arrived.
pub open spec fn reply_document(reply: Reply) -> Option<(u16, Option<JsonView>)> {
    match reply {
        Reply::Received { status, body } => Some((status, json_document(body@))),
        Reply::Failed => None,
    }
}

/// The refresh token granted by the response to the exchange of an
/// authorization code: the response is of the success class and its body
/// holds both an access token and a refresh token.
pub open spec fn exchanged_refresh(status: u16, doc: Option<JsonView>) -> Option<Seq<char>> {
    match doc {
        Some(doc) if is_success(status) && doc.text_member("access_token"@) is Some =>
            doc.text_member("refresh_token"@),
        _ => None,
    }
}

/// The display name reported by a response with this status whose body
/// holds this document, or why there is none.
pub open spec fn reported_name(status: u16, doc: Option<JsonView>) -> Result<Seq<char>, ClientError> {
    if status == 200 {
        match doc {
            Some(doc) => match user_of(doc) {
                Some(name) => Ok(name),
                None => Err(ClientError::MalformedResponse),
            },
            None => Err(ClientError::MalformedResponse),
        }
    } else if status == 401 {
        Err(ClientError::TokenExpired)
    } else {
        Err(ClientError::AuthFailure)
    }
}

impl Default for SpotifyUser {
    /// A client without identity, token or name, ready, with nothing on
    /// display.
    fn default() -> (user: SpotifyUser)
        ensures
            user@ == SpotifyUserView::fresh(
                ConstantsView { id: Seq::empty(), secret: Seq::empty() },
            ),
    {
        SpotifyUser {
            username: String::new(),
            token: String::new(),
            id: String::new(),
            secret: String::new(),
            can_recieve: true,
            current_track: Track::default(),
        }
    }
}

impl SpotifyUser {
    /// A fresh client with the identity kept in the text of the constants
    /// document; `None` where the text does not hold one.
    pub fn new(constants_file: &str) -> (r: Option<SpotifyUser>)
        ensures
            r.deep_view() == match read_text(constants_file@, |doc: JsonView| constants_of(doc)) {
                Some(constants) => Some(SpotifyUserView::fresh(constants)),
                None => None,
            },
    {
        match Constants::from_text(constants_file) {
            Some(constants) => Some(SpotifyUser::with_constants(constants)),
            None => None,
        }
    }

    /// A fresh client with this identity.
    pub fn with_constants(constants: Constants) -> (user: SpotifyUser)
        ensures
            user@ == SpotifyUserView::fresh(constants@),
    {
        SpotifyUser {
            username: String::new(),
            token: String::new(),
            id: constants.id,
            secret: constants.secret,
            can_recieve: true,
            current_track: Track::default(),
        }
    }

    /// The first piece of artwork of the track on display.
    pub fn get_image(self) -> (image: Image)
        requires
            self@.current_track.album.images.len() > 0,
        ensures
            image@ == self@.current_track.album.images[0],
    {
        let mut images = self.current_track.album.images;
        images.swap_remove(0)
    }

    /// The track on display.
    pub fn get_track(self) -> (track: Track)
        ensures
            track@ == self@.current_track,
    {
        self.current_track
    }

    /// Whether no request of this client is outstanding.
    pub fn can_recieve(self) -> (ready: bool)
        ensures
            ready == self@.can_recieve,
    {
        self.can_recieve
    }

    /// The cached access token; empty while there is none.
    pub fn get_token(&self) -> (token: &str)
        ensures
            token@ == self@.token,
    {
        self.token.as_str()
    }

    /// The display name of the account; empty until it has been read.
    pub fn get_username(&self) -> (name: &str)
        ensures
            name@ == self@.username,
    {
        self.username.as_str()
    }

    /// Sets the client id.
    pub fn set_id(&mut self, id: &String)
        ensures
            final(self)@ == (SpotifyUserView { id: id@, ..old(self)@ }),
    {
        self.id = id.clone();
    }

    /// Sets the client secret.
    pub fn set_secret(&mut self, secret: &String)
        ensures
            final(self)@ == (SpotifyUserView { secret: secret@, ..old(self)@ }),
    {
        self.secret = secret.clone();
    }

    /// Whether both the client id and the client secret are set.
    pub fn has_identity(&self) -> (r: bool)
        ensures
            r == (self@.id.len() > 0 && self@.secret.len() > 0),
    {
        !self.id.as_str().is_empty() && !self.secret.as_str().is_empty()
    }

    /// Drops the cached access token.
    pub fn invalidate(&mut self)
        ensures
            final(self)@ == (SpotifyUserView { token: Seq::empty(), ..old(self)@ }),
    {
        self.token = String::new();
    }

    /// Where the client stands in its cycle.
    pub fn phase(&self) -> (phase: Phase)
        ensures
            phase == self@.phase(),
    {
        if self.token.as_str().is_empty() {
            if self.can_recieve {
                Phase::NeedToken
            } else {
                Phase::Authorizing
            }
        } else {
            if self.can_recieve {
                Phase::HaveToken
            } else {
                Phase::Polling
            }
        }
    }

    /// What the client is to do next, given whether a refresh of the track
    /// is due.
    pub fn next_step(&self, refresh_due: bool) -> (step: Step)
        ensures
            step == self@.step(refresh_due),
    {
        match self.phase() {
            Phase::NeedToken => Step::FetchToken,
            Phase::HaveToken => if refresh_due {
                Step::FetchTrack
            } else {
                Step::Wait
            },
            _ => Step::Wait,
        }
    }

    /// Starts the request for an access token, where none is cached and no
    /// request is outstanding: the client is busy from then on, and the
    /// request is handed out. Otherwise nothing changes and nothing is
    /// handed out.
    pub fn token_request(&mut self, auth: &AuthFile) -> (r: Option<Request>)
        ensures
            old(self)@.phase() == Phase::NeedToken ==> r.deep_view() == Some(
                old(self)@.token_request(auth@),
            ) && final(self)@ == (SpotifyUserView { can_recieve: false, ..old(self)@ }),
            old(self)@.phase() != Phase::NeedToken ==> r is None && final(self)@ == old(self)@,
    {
        match self.phase() {
            Phase::NeedToken => {
                self.can_recieve = false;
                Some(
                    Request {
                        method: Method::Post,
                        url: TOKEN_URL.to_owned(),
                        authorization: Authorization::Basic {
                            id: self.id.clone(),
                            secret: self.secret.clone(),
                        },
                        form_encoded: true,
                        accept_json: false,
                        body: refresh_grant_form(auth.refresh.as_str()),
                        timeout_ms: None,
                    },
                )
            },
            _ => None,
        }
    }

    /// Takes in the answer to a request for an access token, given its
    /// status and the document in its body: the granted token is cached, or
    /// the cache is emptied; the client is ready again. Hands out the refresh
    /// token that the provider put in place of the stored one, if it did.
    pub fn accept_grant(&mut self, status: u16, doc: &Option<Json>) -> (r: Result<
        Option<AuthFile>,
        ClientError,
    >)
        ensures
            final(self)@ == old(self)@.after_grant(status, doc.deep_view()),
            match r {
                Ok(rotated) => granted_token(status, doc.deep_view()) is Some && rotated.deep_view()
                    == rotated_refresh(status, doc.deep_view()),
                Err(e) => granted_token(status, doc.deep_view()) is None && e == ClientError::TokenFailure,
            },
            granted_token(status, doc.deep_view()) matches Some(token) && token.len() > 0 ==> final(
                self
            )@.token.len() > 0,
            !is_success(status) ==> final(self)@.token.len() == 0,
    {
        self.can_recieve = true;
        if let Some(doc) = doc {
            if status_is_success(status) {
                if let Some(token) = doc.text_member_of("access_token") {
                    self.token = token.to_owned();
                    return Ok(
                        match doc.text_member_of("refresh_token") {
                            Some(refresh) => Some(AuthFile { refresh: refresh.to_owned() }),
                            None => None,
                        },
                    );
                }
            }
        }
        self.token = String::new();
        Err(ClientError::TokenFailure)
    }

    /// Takes in what came back for a request for an access token.
    pub fn generate_token(&mut self, reply: &Reply) -> (r: Result<Option<AuthFile>, ClientError>)
        ensures
            match reply_document(*reply) {
                Some((status, doc)) => {
                    &&& final(self)@ == old(self)@.after_grant(status, doc)
                    &&& match r {
                        Ok(rotated) => granted_token(status, doc) is Some && rotated.deep_view()
                            == rotated_refresh(status, doc),
                        Err(e) => granted_token(status, doc) is None && e
                            == ClientError::TokenFailure,
                    }
                },
                None => {
                    &&& final(self)@ == (SpotifyUserView {
                        can_recieve: true,
                        token: Seq::empty(),
                        ..old(self)@
                    })
                    &&& r == Err::<Option<AuthFile>, ClientError>(ClientError::TokenFailure)
                },
            },
            *reply matches Reply::Received { status, .. } && !is_success(status)
                ==> final(self)@.token.len() == 0,
    {
        match reply {
            Reply::Received { status, body } => {
                if status_is_success(*status) {
                    self.accept_grant(*status, &Json::parse(body.as_str()))
                } else {
                    self.accept_grant(*status, &None)
                }
            },
            Reply::Failed => {
                self.can_recieve = true;
                self.token = String::new();
                Err(ClientError::TokenFailure)
            },
        }
    }

    /// Starts a query of the player, where a token is cached and no request
    /// is outstanding: the client is busy from then on, and the request is
    /// handed out. Otherwise nothing changes and nothing is handed out.
    pub fn track_request(&mut self) -> (r: Option<Request>)
        ensures
            old(self)@.phase() == Phase::HaveToken ==> r.deep_view() == Some(
                old(self)@.bearer_request(PLAYER_URL@),
            ) && final(self)@ == (SpotifyUserView { can_recieve: false, ..old(self)@ }),
            old(self)@.phase() != Phase::HaveToken ==> r is None && final(self)@ == old(self)@,
    {
        match self.phase() {
            Phase::HaveToken => {
                self.can_recieve = false;
                Some(self.bearer_request(PLAYER_URL))
            },
            _ => None,
        }
    }

    /// The request for `url` that presents the cached token.
    fn bearer_request(&self, url: &str) -> (request: Request)
        ensures
            request@ == self@.bearer_request(url@),
    {
        Request {
            method: Method::Get,
            url: url.to_owned(),
            authorization: Authorization::Bearer { token: self.token.clone() },
            form_encoded: false,
            accept_json: true,
            body: String::new(),
            timeout_ms: None,
        }
    }

    /// Takes in the meaning of a reply from the player. The track on display
    /// is replaced as a whole or left as it is.
    pub fn record_poll(&mut self, poll: Poll) -> (r: Result<(), ClientError>)
        ensures
            final(self)@ == old(self)@.after_poll(poll@),
            r == poll_result(poll@),
    {
        self.can_recieve = true;
        match poll {
            Poll::Playing(track) => {
                self.current_track = track;
                Ok(())
            },
            Poll::UpNext => {
                self.current_track = Track::up_next();
                Ok(())
            },
            Poll::NothingPlaying => {
                self.current_track = Track::default();
                Ok(())
            },
            Poll::Unauthorized => {
                self.token = String::new();
                Err(ClientError::TokenExpired)
            },
            Poll::OtherStatus => Ok(()),
            Poll::Malformed => Err(ClientError::MalformedResponse),
            Poll::NoReply => Err(ClientError::NetworkFailure),
        }
    }

    /// Takes in what came back for a query of the player.
    pub fn refresh_track(&mut self, reply: &Reply) -> (r: Result<(), ClientError>)
        ensures
            final(self)@ == old(self)@.after_poll(reply_outcome(*reply)),
            r == poll_result(reply_outcome(*reply)),
            *reply matches Reply::Received { status, .. } && status == 401 ==> {
                &&& final(self)@.token.len() == 0
                &&& final(self)@.current_track == old(self)@.current_track
            },
            *reply matches Reply::Received { status, .. } && status == 204 ==> {
                final(self)@.current_track == nothing_playing()
            },
    {
        self.record_poll(Poll::of_reply(reply))
    }

    /// The request for the first piece of artwork of the track on display,
    /// where it has one.
    pub fn image_request(&self) -> (r: Option<Request>)
        ensures
            r.deep_view() == if self@.current_track.album.images.len() > 0 {
                Some(
                    RequestView {
                        method: Method::Get,
                        url: self@.current_track.album.images[0],
                        authorization: AuthorizationView::Anonymous,
                        form_encoded: false,
                        accept_json: false,
                        body: Seq::empty(),
                        timeout_ms: None,
                    },
                )
            } else {
                None
            },
    {
        if self.current_track.album.images.len() > 0 {
            Some(
                Request {
                    method: Method::Get,
                    url: self.current_track.album.images[0].url.clone(),
                    authorization: Authorization::Anonymous,
                    form_encoded: false,
                    accept_json: false,
                    body: String::new(),
                    timeout_ms: None,
                },
            )
        } else {
            None
        }
    }

    /// The request for the profile of the account.
    pub fn username_request(&self) -> (request: Request)
        ensures
            request@ == self@.bearer_request(PROFILE_URL@),
    {
        self.bearer_request(PROFILE_URL)
    }

    /// Takes in the answer to a request for the profile, given its status
    /// and the document in its body: the display name is set where the
    /// answer reports one, and nothing changes where it does not.
    pub fn accept_profile(&mut self, status: u16, doc: &Option<Json>) -> (r: Result<
        (),
        ClientError,
    >)
        ensures
            match reported_name(status, doc.deep_view()) {
                Ok(name) => r is Ok && final(self)@ == (SpotifyUserView {
                    username: name,
                    ..old(self)@
                }),
                Err(e) => r == Err::<(), ClientError>(e) && final(self)@ == old(self)@,
            },
    {
        if status == 200 {
            if let Some(doc) = doc {
                if let Some(user) = User::from_json(doc) {
                    self.username = user.display_name;
                    return Ok(());
                }
            }
            Err(ClientError::MalformedResponse)
        } else if status == 401 {
            Err(ClientError::TokenExpired)
        } else {
            Err(ClientError::AuthFailure)
        }
    }

    /// Takes in what came back for a request for the profile.
    pub fn set_username(&mut self, reply: &Reply) -> (r: Result<(), ClientError>)
        ensures
            match reply_document(*reply) {
                Some((status, doc)) => match reported_name(status, doc) {
                    Ok(name) => r is Ok && final(self)@ == (SpotifyUserView {
                        username: name,
                        ..old(self)@
                    }),
                    Err(e) => r == Err::<(), ClientError>(e) && final(self)@ == old(self)@,
                },
                None => r == Err::<(), ClientError>(ClientError::NetworkFailure) && final(self)@
                    == old(self)@,
            },
    {
        match reply {
            Reply::Received { status, body } => {
                if *status == 200 {
                    self.accept_profile(*status, &Json::parse(body.as_str()))
                } else {
                    self.accept_profile(*status, &None)
                }
            },
            Reply::Failed => Err(ClientError::NetworkFailure),
        }
    }

    /// The address at which the user grants the application its scope.
    pub fn authorize_url(&self) -> (url: String)
        ensures
            url@ == AUTHORIZE_URL@ + search_params_text(consent_fields(self@.id)),
    {
        let mut url = AUTHORIZE_URL.to_owned();
        url.append(consent_query(self.id.as_str()).as_str());
        url
    }

    /// The request that exchanges an authorization code for tokens.
    pub fn refresh_request(&self, code: &str) -> (request: Request)
        ensures
            request@ == self@.refresh_request(code@),
    {
        Request {
            method: Method::Post,
            url: TOKEN_URL.to_owned(),
            authorization: Authorization::Basic {
                id: self.id.clone(),
                secret: self.secret.clone(),
            },
            form_encoded: true,
            accept_json: true,
            body: code_grant_form(code),
            timeout_ms: Some(EXCHANGE_TIMEOUT_MS),
        }
    }

    /// Judges the answer to the exchange of an authorization code, given its
    /// status and the document in its body: the credential to store, made of
    /// this client's identity and the granted refresh token, or a failure of
    /// the authorization.
    pub fn accept_exchange(&self, status: u16, doc: &Option<Json>) -> (r: Result<
        Credential,
        ClientError,
    >)
        ensures
            match exchanged_refresh(status, doc.deep_view()) {
                Some(refresh) => r.is_ok() && r.unwrap()@ == (CredentialView {
                    client_id: self@.id,
                    client_secret: self@.secret,
                    refresh_token: refresh,
                }),
                None => r == Err::<Credential, ClientError>(ClientError::AuthFailure),
            },
    {
        if let Some(doc) = doc {
            if status_is_success(status) && doc.text_member_of("access_token").is_some() {
                if let Some(refresh) = doc.text_member_of("refresh_token") {
                    return Ok(
                        Credential {
                            client_id: self.id.clone(),
                            client_secret: self.secret.clone(),
                            refresh_token: refresh.to_owned(),
                        },
                    );
                }
            }
        }
        Err(ClientError::AuthFailure)
    }

    /// Judges what came back for the exchange of an authorization code.
    pub fn generate_refresh(&self, reply: &Reply) -> (r: Result<Credential, ClientError>)
        ensures
            match reply_document(*reply) {
                Some((status, doc)) => match exchanged_refresh(status, doc) {
                    Some(refresh) => r.is_ok() && r.unwrap()@ == (CredentialView {
                        client_id: self@.id,
                        client_secret: self@.secret,
                        refresh_token: refresh,
                    }),
                    None => r == Err::<Credential, ClientError>(ClientError::AuthFailure),
                },
                None => r == Err::<Credential, ClientError>(ClientError::AuthFailure),
            },
    {
        match reply {
            Reply::Received { status, body } => {
                if status_is_success(*status) {
                    self.accept_exchange(*status, &Json::parse(body.as_str()))
                } else {
                    self.accept_exchange(*status, &None)
                }
            },
            Reply::Failed => Err(ClientError::AuthFailure),
        }
    }
}

} // verus!
