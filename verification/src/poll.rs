//! What one query of the player means for the track on display.

use crate::http::Reply;
use crate::json::{json_document, Json, JsonView};
use crate::text::{contains, contains_text};
use crate::track::{track_of, Track, TrackView};
use vstd::prelude::*;

verus! {

/// The part of a playlist's address that identifies the curated playlist
/// whose announcements carry no track.
pub const UP_NEXT_MARKER: &'static str = "37i9dQZF1EYkqdzj48dyYq";

/// The meaning of one reply from the player.
#[derive(Debug, Clone, PartialEq, Eq)]
pub enum Poll {
    /// The player reported this track.
    Playing(Track),
    /// The player reported no track, but the curated playlist as its context.
    UpNext,
    /// The player reported that nothing is playing.
    NothingPlaying,
    /// The player rejected the access token.
    Unauthorized,
    /// The player answered with a status that carries no news.
    OtherStatus,
    /// The player answered with a body of no recognized shape.
    Malformed,
    /// No reply arrived.
    NoReply,
}

/// The meaning of one reply as mathematics.
pub enum PollView {
    Playing(TrackView),
    UpNext,
    NothingPlaying,
    Unauthorized,
    OtherStatus,
    Malformed,
    NoReply,
}

impl View for Poll {
    type V = PollView;

    open spec fn view(&self) -> PollView {
        match self {
            Poll::Playing(track) => PollView::Playing(track@),
            Poll::UpNext => PollView::UpNext,
            Poll::NothingPlaying => PollView::NothingPlaying,
            Poll::Unauthorized => PollView::Unauthorized,
            Poll::OtherStatus => PollView::OtherStatus,
            Poll::Malformed => PollView::Malformed,
            Poll::NoReply => PollView::NoReply,
        }
    }
}

/// The track under `item` in a player document.
pub open spec fn player_track_of(doc: JsonView) -> Option<TrackView> {
    match doc.member("item"@) {
        Some(item) => track_of(item),
        None => None,
    }
}

/// The address under `context`, `external_urls`, `spotify` in a player
/// document.
pub open spec fn context_url_of(doc: JsonView) -> Option<Seq<char>> {
    match doc.member("context"@) {
        Some(context) => match context.member("external_urls"@) {
            Some(urls) => urls.text_member("spotify"@),
            None => None,
        },
        None => None,
    }
}

/// The player document names the curated playlist as its context.
pub open spec fn announces_up_next(doc: JsonView) -> bool {
    match context_url_of(doc) {
        Some(url) => contains_text(url, UP_NEXT_MARKER@),
        None => false,
    }
}

/// The meaning of a response with this status whose body holds this
/// document, if any.
pub open spec fn poll_outcome(status: u16, doc: Option<JsonView>) -> PollView {
    if status == 200 {
        match doc {
            Some(doc) => match player_track_of(doc) {
                Some(track) => PollView::Playing(track),
                None => if announces_up_next(doc) {
                    PollView::UpNext
                } else {
                    PollView::Malformed
                },
            },
            None => PollView::Malformed,
        }
    } else if status == 401 {
        PollView::Unauthorized
    } else if status == 204 {
        PollView::NothingPlaying
    } else {
        PollView::OtherStatus
    }
}

/// The meaning of a reply.
pub open spec fn reply_outcome(reply: Reply) -> PollView {
    match reply {
        Reply::Received { status, body } => poll_outcome(status, json_document(body@)),
        Reply::Failed => PollView::NoReply,
    }
}

/// Reads the track under `item` out of a player document.
pub fn player_track(doc: &Json) -> (r: Option<Track>)
    ensures
        r.deep_view() == player_track_of(doc@),
{
    match doc.get("item") {
        Some(item) => Track::from_json(item),
        None => None,
    }
}

/// Reads the address of the context out of a player document.
pub fn context_url(doc: &Json) -> (r: Option<&str>)
    ensures
        r.deep_view() == context_url_of(doc@),
{
    match doc.get("context") {
        Some(context) => match context.get("external_urls") {
            Some(urls) => urls.text_member_of("spotify"),
            None => None,
        },
        None => None,
    }
}

impl Poll {
    /// The meaning of a response with this status whose body holds this
    /// document, if any.
    pub fn classify(status: u16, doc: &Option<Json>) -> (poll: Poll)
        ensures
            poll@ == poll_outcome(status, doc.deep_view()),
    {
        if status == 200 {
            match doc {
                Some(doc) => match player_track(doc) {
                    Some(track) => Poll::Playing(track),
                    None => {
                        let up_next = match context_url(doc) {
                            Some(url) => contains(url, UP_NEXT_MARKER),
                            None => false,
                        };
                        if up_next {
                            Poll::UpNext
                        } else {
                            Poll::Malformed
                        }
                    },
                },
                None => Poll::Malformed,
            }
        } else if status == 401 {
            Poll::Unauthorized
        } else if status == 204 {
            Poll::NothingPlaying
        } else {
            Poll::OtherStatus
        }
    }

    /// The meaning of a reply. The body is read only where the status says
    /// that it carries a player document.
    pub fn of_reply(reply: &Reply) -> (poll: Poll)
        ensures
            poll@ == reply_outcome(*reply),
    {
        match reply {
            Reply::Received { status, body } => {
                if *status == 200 {
                    Poll::classify(*status, &Json::parse(body.as_str()))
                } else {
                    Poll::classify(*status, &None)
                }
            },
            Reply::Failed => Poll::NoReply,
        }
    }
}

} // verus!
