use now_playing::client::{Phase, SpotifyUser, Step};
use now_playing::credentials::{AuthFile, Constants, Credential};
use now_playing::error::ClientError;
use now_playing::http::{Authorization, Method, Reply, Request};
use now_playing::json::Json;
use now_playing::poll::Poll;
use now_playing::track::{Album, Artist, Image, Track};

const PLAYING_BODY: &str = "{\"item\": {\"name\": \"Song\", \"artists\": [{\"name\": \"A\"}], \"album\": {\"images\": [{\"url\": \"http://img/1\"}, {\"url\": \"http://img/2\"}], \"name\": \"R\"}}}";

const ANNOUNCING_BODY: &str = "{\"item\": null, \"context\": {\"external_urls\": {\"spotify\": \"https://open.spotify.com/playlist/37i9dQZF1EYkqdzj48dyYq\"}}}";

fn playing_track() -> Track {
    Track {
        name: "Song".to_string(),
        artists: vec![Artist { name: "A".to_string() }],
        album: Album {
            images: vec![
                Image { url: "http://img/1".to_string() },
                Image { url: "http://img/2".to_string() },
            ],
            name: "R".to_string(),
        },
    }
}

fn reply(status: u16, body: &str) -> Reply {
    Reply::Received { status, body: body.to_string() }
}

fn client() -> SpotifyUser {
    SpotifyUser::with_constants(Constants { id: "my-id".to_string(), secret: "my-secret".to_string() })
}

fn client_with_token(token: &str) -> SpotifyUser {
    let mut user = client();
    let body = format!("{{\"access_token\": \"{}\"}}", token);
    assert_eq!(user.generate_token(&reply(200, &body)), Ok(None));
    user
}

fn stored() -> AuthFile {
    AuthFile { refresh: "stored-refresh".to_string() }
}

#[test]
fn default_client_is_ready_and_empty() {
    let user = SpotifyUser::default();
    assert_eq!(user.get_token(), "");
    assert_eq!(user.get_username(), "");
    assert!(user.clone().can_recieve());
    assert_eq!(user.clone().get_track(), Track::default());
    assert_eq!(user.phase(), Phase::NeedToken);
}

#[test]
fn new_reads_the_identity_from_the_constants_document() {
    let user = SpotifyUser::new("{\n  \"id\": \"my-id\",\n  \"secret\": \"my-secret\"\n}").unwrap();
    assert_eq!(user.get_token(), "");
    assert!(user.clone().can_recieve());
    assert_eq!(user.clone().get_track(), Track::default());
    let request = user.refresh_request("c");
    assert_eq!(
        request.authorization,
        Authorization::Basic { id: "my-id".to_string(), secret: "my-secret".to_string() }
    );
}

#[test]
fn new_refuses_a_text_without_identity() {
    assert!(SpotifyUser::new("{\"id\": \"my-id\"}").is_none());
    assert!(SpotifyUser::new("").is_none());
    assert!(SpotifyUser::new("[]").is_none());
}

#[test]
fn set_id_and_set_secret_change_the_identity_only() {
    let mut user = client_with_token("tok");
    user.set_id(&"other-id".to_string());
    user.set_secret(&"other-secret".to_string());
    assert_eq!(user.get_token(), "tok");
    let request = user.refresh_request("c");
    assert_eq!(
        request.authorization,
        Authorization::Basic { id: "other-id".to_string(), secret: "other-secret".to_string() }
    );
}

#[test]
fn get_image_is_the_first_image_of_the_track() {
    let user = SpotifyUser::default();
    assert_eq!(user.get_image(), Image { url: "images/placeholder.jpg".to_string() });
    let mut user = client_with_token("tok");
    assert_eq!(user.refresh_track(&reply(200, PLAYING_BODY)), Ok(()));
    assert_eq!(user.get_image(), Image { url: "http://img/1".to_string() });
}

#[test]
fn token_request_is_handed_out_once() {
    let mut user = client();
    let request = user.token_request(&stored()).unwrap();
    assert_eq!(
        request,
        Request {
            method: Method::Post,
            url: "https://accounts.spotify.com/api/token".to_string(),
            authorization: Authorization::Basic {
                id: "my-id".to_string(),
                secret: "my-secret".to_string()
            },
            form_encoded: true,
            accept_json: false,
            body: "grant_type=refresh_token&refresh_token=stored-refresh".to_string(),
            timeout_ms: None,
        }
    );
    assert!(!user.clone().can_recieve());
    assert_eq!(user.phase(), Phase::Authorizing);
    assert_eq!(user.token_request(&stored()), None);
    assert_eq!(user.track_request(), None);
    assert_eq!(user.phase(), Phase::Authorizing);
}

#[test]
fn token_request_is_not_handed_out_while_a_token_is_cached() {
    let mut user = client_with_token("tok");
    assert_eq!(user.token_request(&stored()), None);
    assert!(user.clone().can_recieve());
    assert_eq!(user.get_token(), "tok");
}

#[test]
fn granted_token_is_cached() {
    let mut user = client();
    assert!(user.token_request(&stored()).is_some());
    let result = user.generate_token(&reply(200, "{\"access_token\": \"BQD\", \"token_type\": \"Bearer\", \"expires_in\": 3600}"));
    assert_eq!(result, Ok(None));
    assert_eq!(user.get_token(), "BQD");
    assert!(user.clone().can_recieve());
    assert_eq!(user.phase(), Phase::HaveToken);
}

#[test]
fn granted_token_of_any_success_status_is_cached() {
    let mut user = client();
    assert_eq!(user.generate_token(&reply(201, "{\"access_token\": \"BQD\"}")), Ok(None));
    assert_eq!(user.get_token(), "BQD");
    let mut user = client();
    assert_eq!(user.generate_token(&reply(299, "{\"access_token\": \"X\"}")), Ok(None));
    assert_eq!(user.get_token(), "X");
}

#[test]
fn rotated_refresh_token_is_handed_out() {
    let mut user = client();
    let result = user.generate_token(&reply(200, "{\"access_token\": \"BQD\", \"refresh_token\": \"new\"}"));
    assert_eq!(result, Ok(Some(AuthFile { refresh: "new".to_string() })));
    assert_eq!(user.get_token(), "BQD");
}

#[test]
fn refused_token_empties_the_cache() {
    for status in [199u16, 300, 400, 401, 403, 500] {
        let mut user = client_with_token("old");
        let result = user.generate_token(&reply(status, "{\"access_token\": \"BQD\"}"));
        assert_eq!(result, Err(ClientError::TokenFailure));
        assert_eq!(user.get_token(), "");
        assert!(user.clone().can_recieve());
    }
}

#[test]
fn unreadable_grant_empties_the_cache() {
    let mut user = client_with_token("old");
    assert_eq!(user.generate_token(&reply(200, "<html>")), Err(ClientError::TokenFailure));
    assert_eq!(user.get_token(), "");
    let mut user = client_with_token("old");
    assert_eq!(user.generate_token(&reply(200, "{\"access_token\": 5}")), Err(ClientError::TokenFailure));
    assert_eq!(user.get_token(), "");
    let mut user = client_with_token("old");
    assert_eq!(user.generate_token(&reply(204, "")), Err(ClientError::TokenFailure));
    assert_eq!(user.get_token(), "");
}

#[test]
fn missing_reply_to_the_token_request_empties_the_cache() {
    let mut user = client_with_token("old");
    assert_eq!(user.generate_token(&Reply::Failed), Err(ClientError::TokenFailure));
    assert_eq!(user.get_token(), "");
    assert!(user.clone().can_recieve());
}

#[test]
fn accept_grant_takes_the_document_as_given() {
    let mut user = client();
    let doc = Json::Record(vec![("access_token".to_string(), Json::Text("T".to_string()))]);
    assert_eq!(user.accept_grant(200, &Some(doc)), Ok(None));
    assert_eq!(user.get_token(), "T");
    assert_eq!(user.accept_grant(200, &None), Err(ClientError::TokenFailure));
    assert_eq!(user.get_token(), "");
    let doc = Json::Record(vec![("access_token".to_string(), Json::Text("T".to_string()))]);
    assert_eq!(user.accept_grant(404, &Some(doc)), Err(ClientError::TokenFailure));
    assert_eq!(user.get_token(), "");
}

#[test]
fn invalidate_drops_the_token() {
    let mut user = client_with_token("tok");
    user.invalidate();
    assert_eq!(user.get_token(), "");
    assert_eq!(user.phase(), Phase::NeedToken);
}

#[test]
fn track_request_presents_the_token() {
    let mut user = client_with_token("tok");
    let request = user.track_request().unwrap();
    assert_eq!(
        request,
        Request {
            method: Method::Get,
            url: "https://api.spotify.com/v1/me/player".to_string(),
            authorization: Authorization::Bearer { token: "tok".to_string() },
            form_encoded: false,
            accept_json: true,
            body: "".to_string(),
            timeout_ms: None,
        }
    );
    assert_eq!(user.phase(), Phase::Polling);
}

#[test]
fn track_request_is_skipped_while_an_answer_is_outstanding() {
    let mut user = client_with_token("tok");
    assert!(user.track_request().is_some());
    assert_eq!(user.track_request(), None);
    assert_eq!(user.track_request(), None);
    assert_eq!(user.token_request(&stored()), None);
    assert!(!user.clone().can_recieve());
    assert_eq!(user.refresh_track(&reply(204, "")), Ok(()));
    assert!(user.track_request().is_some());
}

#[test]
fn track_request_is_not_handed_out_without_a_token() {
    let mut user = client();
    assert_eq!(user.track_request(), None);
    assert!(user.clone().can_recieve());
}

#[test]
fn played_track_replaces_the_track_on_display() {
    let mut user = client_with_token("tok");
    assert!(user.track_request().is_some());
    assert_eq!(user.refresh_track(&reply(200, PLAYING_BODY)), Ok(()));
    assert_eq!(user.clone().get_track(), playing_track());
    assert_eq!(user.get_token(), "tok");
    assert!(user.clone().can_recieve());
}

#[test]
fn rejection_clears_the_token_and_keeps_the_track() {
    let mut user = client_with_token("tok");
    assert_eq!(user.refresh_track(&reply(200, PLAYING_BODY)), Ok(()));
    assert!(user.track_request().is_some());
    assert_eq!(user.refresh_track(&reply(401, "{\"error\": \"expired\"}")), Err(ClientError::TokenExpired));
    assert_eq!(user.get_token(), "");
    assert_eq!(user.clone().get_track(), playing_track());
    assert!(user.clone().can_recieve());
    assert_eq!(user.phase(), Phase::NeedToken);
    assert_eq!(user.next_step(true), Step::FetchToken);
}

#[test]
fn no_content_shows_nothing_playing() {
    let mut user = client_with_token("tok");
    assert_eq!(user.refresh_track(&reply(200, PLAYING_BODY)), Ok(()));
    assert_eq!(user.refresh_track(&reply(204, "")), Ok(()));
    assert_eq!(user.clone().get_track(), Track::default());
    assert_eq!(user.get_token(), "tok");
    let mut fresh = client_with_token("tok");
    assert_eq!(fresh.refresh_track(&reply(204, "ignored")), Ok(()));
    assert_eq!(fresh.get_track(), Track::default());
}

#[test]
fn curated_playlist_shows_up_next() {
    let mut user = client_with_token("tok");
    assert_eq!(user.refresh_track(&reply(200, PLAYING_BODY)), Ok(()));
    assert_eq!(user.refresh_track(&reply(200, ANNOUNCING_BODY)), Ok(()));
    assert_eq!(user.clone().get_track(), Track::up_next());
    let other = "{\"context\": {\"external_urls\": {\"spotify\": \"spotify:37i9dQZF1EYkqdzj48dyYq\"}, \"href\": 7}, \"device\": {\"name\": \"x\"}}";
    let mut fresh = client_with_token("tok");
    assert_eq!(fresh.refresh_track(&reply(200, other)), Ok(()));
    assert_eq!(fresh.get_track(), Track::up_next());
}

#[test]
fn unreadable_body_keeps_the_track() {
    let mut user = client_with_token("tok");
    assert_eq!(user.refresh_track(&reply(200, PLAYING_BODY)), Ok(()));
    assert_eq!(user.refresh_track(&reply(200, "{\"item\": null}")), Err(ClientError::MalformedResponse));
    assert_eq!(user.clone().get_track(), playing_track());
    assert_eq!(user.get_token(), "tok");
    assert!(user.clone().can_recieve());
}

#[test]
fn other_status_changes_nothing() {
    let mut user = client_with_token("tok");
    assert_eq!(user.refresh_track(&reply(200, PLAYING_BODY)), Ok(()));
    assert!(user.track_request().is_some());
    assert_eq!(user.refresh_track(&reply(503, PLAYING_BODY)), Ok(()));
    assert_eq!(user.clone().get_track(), playing_track());
    assert_eq!(user.get_token(), "tok");
    assert!(user.clone().can_recieve());
}

#[test]
fn missing_reply_from_the_player_keeps_track_and_token() {
    let mut user = client_with_token("tok");
    assert_eq!(user.refresh_track(&reply(200, PLAYING_BODY)), Ok(()));
    assert!(user.track_request().is_some());
    assert_eq!(user.refresh_track(&Reply::Failed), Err(ClientError::NetworkFailure));
    assert_eq!(user.clone().get_track(), playing_track());
    assert_eq!(user.get_token(), "tok");
    assert!(user.clone().can_recieve());
}

#[test]
fn record_poll_takes_the_meaning_as_given() {
    let mut user = client_with_token("tok");
    assert_eq!(user.record_poll(Poll::Playing(playing_track())), Ok(()));
    assert_eq!(user.clone().get_track(), playing_track());
    assert_eq!(user.record_poll(Poll::Malformed), Err(ClientError::MalformedResponse));
    assert_eq!(user.record_poll(Poll::OtherStatus), Ok(()));
    assert_eq!(user.record_poll(Poll::NoReply), Err(ClientError::NetworkFailure));
    assert_eq!(user.clone().get_track(), playing_track());
    assert_eq!(user.record_poll(Poll::UpNext), Ok(()));
    assert_eq!(user.clone().get_track(), Track::up_next());
    assert_eq!(user.record_poll(Poll::NothingPlaying), Ok(()));
    assert_eq!(user.clone().get_track(), Track::default());
    assert_eq!(user.get_token(), "tok");
    assert_eq!(user.record_poll(Poll::Unauthorized), Err(ClientError::TokenExpired));
    assert_eq!(user.get_token(), "");
}

#[test]
fn every_snapshot_is_the_whole_track_of_one_reply() {
    let first = "{\"item\": {\"name\": \"One\", \"artists\": [{\"name\": \"A1\"}], \"album\": {\"images\": [{\"url\": \"u1\"}], \"name\": \"R1\"}}}";
    let second = "{\"item\": {\"name\": \"Two\", \"artists\": [{\"name\": \"A2\"}, {\"name\": \"B2\"}], \"album\": {\"images\": [], \"name\": \"R2\"}}}";
    let replies = [
        reply(200, second),
        reply(500, first),
        reply(200, first),
        reply(200, "{\"item\": {\"name\": \"Broken\"}}"),
        Reply::Failed,
        reply(204, ""),
        reply(200, ANNOUNCING_BODY),
        reply(200, second),
        reply(401, first),
    ];
    let mut wholes = vec![Track::default()];
    for r in replies.iter() {
        if let Reply::Received { status: 200, body } = r {
            if let Some(track) = Json::parse(body).as_ref().and_then(|d| d.get("item")).and_then(Track::from_json) {
                wholes.push(track);
            }
        }
    }
    wholes.push(Track::up_next());
    let mut user = client_with_token("tok");
    for r in replies.iter() {
        let _ = user.refresh_track(r);
        let seen = user.clone().get_track();
        assert!(wholes.contains(&seen));
    }
    assert_eq!(user.clone().get_track().name, "Two");
    assert_eq!(user.get_track().artists.len(), 2);
}

#[test]
fn next_step_follows_the_phase() {
    let mut user = client();
    assert_eq!(user.next_step(false), Step::FetchToken);
    assert_eq!(user.next_step(true), Step::FetchToken);
    assert!(user.token_request(&stored()).is_some());
    assert_eq!(user.next_step(false), Step::Wait);
    assert_eq!(user.next_step(true), Step::Wait);
    assert_eq!(user.generate_token(&reply(200, "{\"access_token\": \"t\"}")), Ok(None));
    assert_eq!(user.next_step(false), Step::Wait);
    assert_eq!(user.next_step(true), Step::FetchTrack);
    assert!(user.track_request().is_some());
    assert_eq!(user.next_step(true), Step::Wait);
    assert_eq!(user.next_step(false), Step::Wait);
}

#[test]
fn image_request_asks_for_the_first_image() {
    let mut user = client_with_token("tok");
    assert_eq!(user.image_request().unwrap().url, "images/placeholder.jpg");
    assert_eq!(user.refresh_track(&reply(200, PLAYING_BODY)), Ok(()));
    assert_eq!(
        user.image_request(),
        Some(Request {
            method: Method::Get,
            url: "http://img/1".to_string(),
            authorization: Authorization::Anonymous,
            form_encoded: false,
            accept_json: false,
            body: "".to_string(),
            timeout_ms: None,
        })
    );
    let bare = "{\"item\": {\"name\": \"n\", \"artists\": [], \"album\": {\"images\": [], \"name\": \"\"}}}";
    assert_eq!(user.refresh_track(&reply(200, bare)), Ok(()));
    assert_eq!(user.image_request(), None);
}

#[test]
fn username_request_presents_the_token() {
    let user = client_with_token("tok");
    assert_eq!(
        user.username_request(),
        Request {
            method: Method::Get,
            url: "https://api.spotify.com/v1/me".to_string(),
            authorization: Authorization::Bearer { token: "tok".to_string() },
            form_encoded: false,
            accept_json: true,
            body: "".to_string(),
            timeout_ms: None,
        }
    );
}

#[test]
fn set_username_reads_the_display_name() {
    let mut user = client_with_token("tok");
    assert_eq!(user.set_username(&reply(200, "{\"display_name\": \"Ann\", \"id\": \"ann\"}")), Ok(()));
    assert_eq!(user.get_username(), "Ann");
    assert_eq!(user.get_token(), "tok");
}

#[test]
fn set_username_reports_each_failure_and_keeps_the_name() {
    let mut user = client_with_token("tok");
    assert_eq!(user.set_username(&reply(200, "{\"display_name\": \"Ann\"}")), Ok(()));
    assert_eq!(user.set_username(&reply(200, "{\"id\": \"ann\"}")), Err(ClientError::MalformedResponse));
    assert_eq!(user.set_username(&reply(200, "oops")), Err(ClientError::MalformedResponse));
    assert_eq!(user.set_username(&reply(401, "{\"display_name\": \"Bob\"}")), Err(ClientError::TokenExpired));
    assert_eq!(user.set_username(&reply(204, "")), Err(ClientError::AuthFailure));
    assert_eq!(user.set_username(&reply(500, "{\"display_name\": \"Bob\"}")), Err(ClientError::AuthFailure));
    assert_eq!(user.set_username(&Reply::Failed), Err(ClientError::NetworkFailure));
    assert_eq!(user.get_username(), "Ann");
    assert_eq!(user.get_token(), "tok");
}

#[test]
fn authorize_url_carries_the_consent_parameters() {
    let user = client();
    assert_eq!(
        user.authorize_url(),
        "https://accounts.spotify.com/authorize?client_id=my-id&redirect_uri=http%3A%2F%2F127.0.0.1%3A8000%2Fcallback&response_type=code&scope=user-read-private%20user-read-email%20user-read-playback-state"
    );
}

#[test]
fn refresh_request_carries_the_code() {
    let user = client();
    assert_eq!(
        user.refresh_request("AQD/1"),
        Request {
            method: Method::Post,
            url: "https://accounts.spotify.com/api/token".to_string(),
            authorization: Authorization::Basic {
                id: "my-id".to_string(),
                secret: "my-secret".to_string()
            },
            form_encoded: true,
            accept_json: true,
            body: "code=AQD%2F1&grant_type=authorization_code&redirect_uri=http%3A%2F%2F127.0.0.1%3A8000%2Fcallback".to_string(),
            timeout_ms: Some(2000),
        }
    );
}

#[test]
fn exchanged_code_gives_the_credential_to_store() {
    let user = client();
    let result = user.generate_refresh(&reply(200, "{\"access_token\": \"a\", \"refresh_token\": \"r\", \"expires_in\": 3600}"));
    assert_eq!(
        result,
        Ok(Credential {
            client_id: "my-id".to_string(),
            client_secret: "my-secret".to_string(),
            refresh_token: "r".to_string(),
        })
    );
}

#[test]
fn failed_exchange_is_an_authorization_failure() {
    let user = client();
    let full = "{\"access_token\": \"a\", \"refresh_token\": \"r\"}";
    assert_eq!(user.generate_refresh(&reply(400, full)), Err(ClientError::AuthFailure));
    assert_eq!(user.generate_refresh(&reply(401, full)), Err(ClientError::AuthFailure));
    assert_eq!(user.generate_refresh(&reply(200, "{\"access_token\": \"a\"}")), Err(ClientError::AuthFailure));
    assert_eq!(user.generate_refresh(&reply(200, "{\"refresh_token\": \"r\"}")), Err(ClientError::AuthFailure));
    assert_eq!(user.generate_refresh(&reply(200, "not json")), Err(ClientError::AuthFailure));
    assert_eq!(user.generate_refresh(&Reply::Failed), Err(ClientError::AuthFailure));
}

#[test]
fn accept_exchange_takes_the_document_as_given() {
    let user = client();
    let doc = Json::Record(vec![
        ("access_token".to_string(), Json::Text("a".to_string())),
        ("refresh_token".to_string(), Json::Text("r".to_string())),
    ]);
    assert_eq!(user.accept_exchange(200, &Some(doc)).unwrap().refresh_token, "r");
    assert_eq!(user.accept_exchange(200, &None), Err(ClientError::AuthFailure));
}

#[test]
fn accept_profile_takes_the_document_as_given() {
    let mut user = client();
    let doc = Json::Record(vec![("display_name".to_string(), Json::Text("Ann".to_string()))]);
    assert_eq!(user.accept_profile(200, &Some(doc)), Ok(()));
    assert_eq!(user.get_username(), "Ann");
    assert_eq!(user.accept_profile(200, &None), Err(ClientError::MalformedResponse));
    assert_eq!(user.get_username(), "Ann");
}
