//! What holds of the client whatever comes back from the service.

use crate::callback::{outcome_of, ListenerEvent};
use crate::client::{granted_token, written_track, Phase, SpotifyUserView, Step};
use crate::error::ClientError;
use crate::http::is_success;
use crate::json::JsonView;
use crate::poll::{announces_up_next, player_track_of, poll_outcome, PollView};
use crate::track::{nothing_playing, up_next};
use vstd::prelude::*;

verus! {

/// The document holds a non-empty access token.
pub open spec fn grants_token(doc: JsonView) -> bool {
    match doc.text_member("access_token"@) {
        Some(token) => token.len() > 0,
        None => false,
    }
}

/// The client after each of `polls` has been taken in, in order.
pub open spec fn after_polls(start: SpotifyUserView, polls: Seq<PollView>) -> SpotifyUserView
    decreases polls.len(),
{
    if polls.len() == 0 {
        start
    } else {
        after_polls(start, polls.drop_last()).after_poll(polls.last())
    }
}

/// A response of the success class whose body holds a non-empty access token
/// leaves a non-empty token in the cache.
pub proof fn lemma_granted_token_is_cached(start: SpotifyUserView, status: u16, doc: JsonView)
    requires
        is_success(status),
        grants_token(doc),
    ensures
        start.after_grant(status, Some(doc)).token.len() > 0,
        Some(start.after_grant(status, Some(doc)).token) == granted_token(status, Some(doc)),
{
}

/// A response outside the success class leaves the cache empty, whatever its
/// body holds.
pub proof fn lemma_refused_token_empties_cache(
    start: SpotifyUserView,
    status: u16,
    doc: Option<JsonView>,
)
    requires
        !is_success(status),
    ensures
        start.after_grant(status, doc).token.len() == 0,
{
}

/// A rejection by the player empties the cache and leaves the track on
/// display as it was.
pub proof fn lemma_rejection_drops_token_keeps_track(
    start: SpotifyUserView,
    doc: Option<JsonView>,
)
    ensures
        start.after_poll(poll_outcome(401, doc)).token.len() == 0,
        start.after_poll(poll_outcome(401, doc)).current_track == start.current_track,
{
}

/// A response without content puts the "nothing playing" track on display,
/// whatever was there.
pub proof fn lemma_no_content_shows_nothing_playing(
    start: SpotifyUserView,
    doc: Option<JsonView>,
)
    ensures
        start.after_poll(poll_outcome(204, doc)).current_track == nothing_playing(),
{
}

/// A player document that holds no track and names the curated playlist as
/// its context puts the stand-in track on display, whatever else it holds
/// and whatever was there.
pub proof fn lemma_curated_playlist_shows_up_next(start: SpotifyUserView, doc: JsonView)
    requires
        announces_up_next(doc),
        player_track_of(doc) is None,
    ensures
        poll_outcome(200, Some(doc)) == PollView::UpNext,
        start.after_poll(poll_outcome(200, Some(doc))).current_track == up_next(),
{
}

/// The track on display after any run of replies is the one it started
/// with, or the whole track that a single one of the replies put there.
pub proof fn lemma_snapshot_is_whole(start: SpotifyUserView, polls: Seq<PollView>)
    ensures
        after_polls(start, polls).current_track == start.current_track || exists|i: int|
            0 <= i < polls.len() && written_track(#[trigger] polls[i]) == Some(
                after_polls(start, polls).current_track,
            ),
    decreases polls.len(),
{
    if polls.len() > 0 {
        let earlier = polls.drop_last();
        lemma_snapshot_is_whole(start, earlier);
        let before = after_polls(start, earlier);
        let now = after_polls(start, polls);
        if written_track(polls.last()) is Some {
            assert(written_track(polls[polls.len() - 1]) == Some(now.current_track));
        } else if before.current_track != start.current_track {
            let i = choose|i: int|
                0 <= i < earlier.len() && written_track(#[trigger] earlier[i]) == Some(
                    before.current_track,
                );
            assert(polls[i] == earlier[i]);
        }
    }
}

/// Taking in replies changes neither the identity nor the name of the
/// client.
pub proof fn lemma_polls_keep_identity(start: SpotifyUserView, polls: Seq<PollView>)
    ensures
        after_polls(start, polls).id == start.id,
        after_polls(start, polls).secret == start.secret,
        after_polls(start, polls).username == start.username,
    decreases polls.len(),
{
    if polls.len() > 0 {
        lemma_polls_keep_identity(start, polls.drop_last());
    }
}

/// While an answer is outstanding the client starts nothing, whether a
/// refresh is due or not; and it is outstanding exactly while the client
/// is not ready.
pub proof fn lemma_one_request_at_a_time(client: SpotifyUserView, refresh_due: bool)
    ensures
        !client.can_recieve ==> client.step(refresh_due) == Step::Wait,
        !client.can_recieve <==> client.phase() == Phase::Authorizing || client.phase()
            == Phase::Polling,
        client.step(refresh_due) == Step::FetchTrack ==> client.token.len() > 0,
{
}

/// The cycle moves in order: asking for a token leads from needing one to
/// waiting for it, the answer leads to having one or needing one again;
/// querying the player leads from having a token to waiting for the reply,
/// and the reply leads back to having the token, or to needing one where
/// the token was rejected.
pub proof fn lemma_cycle_order(
    client: SpotifyUserView,
    status: u16,
    doc: Option<JsonView>,
    poll: PollView,
)
    ensures
        client.phase() == Phase::NeedToken ==> (SpotifyUserView {
            can_recieve: false,
            ..client
        }).phase() == Phase::Authorizing,
        client.phase() == Phase::HaveToken ==> (SpotifyUserView {
            can_recieve: false,
            ..client
        }).phase() == Phase::Polling,
        client.after_grant(status, doc).phase() == Phase::HaveToken || client.after_grant(
            status,
            doc,
        ).phase() == Phase::NeedToken,
        client.phase() == Phase::Polling ==> client.after_poll(poll).phase() == if poll
            is Unauthorized {
            Phase::NeedToken
        } else {
            Phase::HaveToken
        },
{
}

/// Listening that ends without a connection ends with a timeout.
pub proof fn lemma_silence_is_timeout()
    ensures
        outcome_of(ListenerEvent::TimedOut) == Err::<Seq<char>, ClientError>(ClientError::Timeout),
{
}

} // verus!
