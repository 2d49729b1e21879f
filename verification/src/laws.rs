//! What holds of the client in every state, stated over the step functions'
//! models and proved once for all inputs.

use crate::command::MediaState;
use crate::current_song::{SONG_CEILING_MS, SONG_FAILURE_WINDOW_MS};
use crate::spot::SpotView;
use crate::step::{EventView, FetchError, StepView};
use crate::token::{usable, AuthResponseView};
use crate::top_songs::{TOP_SONGS_FAILURE_WINDOW_MS, TOP_SONGS_TTL_MS};
use crate::track::{ranked_prefix, CurrentSongView, ItemView};
use crate::wire::Reply;
use vstd::prelude::*;

verus! {

impl SpotView {
    /// A slot never claims to be valid for longer than its policy allows:
    /// the current track for ten seconds and for what was left of the track
    /// when it was captured, the ranking for ten minutes.
    pub open spec fn windows_bounded(self) -> bool {
        &&& self.current_song.window() <= SONG_CEILING_MS
        &&& self.current_song.value matches Some(song) ==> self.current_song.window()
            <= song.remaining()
        &&& self.top_songs.window() <= TOP_SONGS_TTL_MS
    }

    /// Neither slot was written later than `now`.
    pub open spec fn captured_by(self, now: int) -> bool {
        self.current_song.captured_at <= now && self.top_songs.captured_at <= now
    }
}

/// Two reads of one fresh snapshot differ in progress by exactly the time
/// between them, and in nothing else but the observation time: the track
/// and the playing flag are those of the stored snapshot. Neither read
/// changes the state or contacts upstream.
pub proof fn law_progress_is_linear(spot: SpotView, now1: int, now2: int)
    requires
        spot.current_song.value is Some,
        now1 < spot.current_song.valid_until,
        now2 < spot.current_song.valid_until,
    ensures
        ({
            let stored = spot.current_song.value->0;
            let (after1, step1) = spot.current_song_step(now1, EventView::Start);
            let (after2, step2) = after1.current_song_step(now2, EventView::Start);
            &&& after1 == spot
            &&& after2 == spot
            &&& step1 matches StepView::Done(Ok(first))
            &&& step2 matches StepView::Done(Ok(second))
            &&& second.progress_ms - first.progress_ms == now2 - now1
            &&& first.item == stored.item
            &&& second.item == stored.item
            &&& first.is_playing == stored.is_playing
            &&& second.is_playing == stored.is_playing
            &&& first.timestamp == now1
            &&& second.timestamp == now2
        }),
{
}

/// A snapshot that was fetched is valid for at most ten seconds and at most
/// for what is left of its track, counted from its capture at `now`.
pub proof fn law_song_window_is_bounded(spot: SpotView, now: int, reply: Reply<CurrentSongView>)
    requires
        spot.current_song_step(now, EventView::Called(reply)).1 matches StepView::Done(Ok(_)),
    ensures
        ({
            let (next, step) = spot.current_song_step(now, EventView::Called(reply));
            &&& step matches StepView::Done(Ok(song))
            &&& next.current_song.value == Some(song)
            &&& next.current_song.captured_at == now
            &&& next.current_song.valid_until - next.current_song.captured_at <= 10_000
            &&& next.current_song.valid_until - next.current_song.captured_at
                <= song.item.duration_ms - song.progress_ms
        }),
{
}

/// Every step of every operation keeps the slots' windows within bounds.
pub proof fn law_windows_stay_bounded(
    spot: SpotView,
    now: int,
    limit: int,
    state: MediaState,
    song_event: EventView<CurrentSongView>,
    top_event: EventView<Seq<ItemView>>,
    player_event: EventView<()>,
    exchange: Reply<AuthResponseView>,
)
    requires
        spot.windows_bounded(),
    ensures
        spot.token_step(now, exchange).0.windows_bounded(),
        spot.current_song_step(now, song_event).0.windows_bounded(),
        spot.top_songs_step(now, limit, top_event).0.windows_bounded(),
        spot.player_step(now, state, player_event).0.windows_bounded(),
{
}

/// A client that has not run yet has its windows within bounds.
pub proof fn law_initial_windows_bounded(
    client_id: Seq<char>,
    client_secret: Seq<char>,
    refresh_token: Seq<char>,
)
    ensures
        SpotView::initial(client_id, client_secret, refresh_token).windows_bounded(),
{
}

/// No step at `now` leaves a slot that was captured after `now`.
pub proof fn law_capture_is_not_in_the_future(
    spot: SpotView,
    now: int,
    limit: int,
    state: MediaState,
    song_event: EventView<CurrentSongView>,
    top_event: EventView<Seq<ItemView>>,
    player_event: EventView<()>,
    exchange: Reply<AuthResponseView>,
)
    requires
        spot.captured_by(now),
    ensures
        spot.token_step(now, exchange).0.captured_by(now),
        spot.current_song_step(now, song_event).0.captured_by(now),
        spot.top_songs_step(now, limit, top_event).0.captured_by(now),
        spot.player_step(now, state, player_event).0.captured_by(now),
{
}

/// A refresh of the stale ranking moves its validity forward.
pub proof fn law_ranking_refresh_moves_forward(
    spot: SpotView,
    now: int,
    limit: int,
    reply: Reply<Seq<ItemView>>,
)
    requires
        !spot.top_songs.fresh(now),
        spot.top_songs_step(now, limit, EventView::Called(reply)).1 matches StepView::Done(Ok(_)),
    ensures
        spot.top_songs_step(now, limit, EventView::Called(reply)).0.top_songs.valid_until
            > spot.top_songs.valid_until,
{
}

/// A refresh of the stale current track never moves its validity back, as
/// long as the snapshot's progress does not exceed the track's duration.
pub proof fn law_song_refresh_never_shortens(
    spot: SpotView,
    now: int,
    reply: Reply<CurrentSongView>,
)
    requires
        !spot.current_song.fresh(now),
        spot.current_song_step(now, EventView::Called(reply)).1 matches StepView::Done(Ok(song))
            && song.remaining() >= 0,
    ensures
        spot.current_song_step(now, EventView::Called(reply)).0.current_song.valid_until
            >= spot.current_song.valid_until,
{
}

/// After a step of the query for the current track has ended in an error,
/// every start of that query before the slot goes stale ends at once in
/// `SuppressedRecentFailure`: it sends nothing upstream and changes
/// nothing. Where the error came of an exchange or a call at `now`, the
/// slot goes stale ten seconds after `now`.
pub proof fn law_song_failure_is_suppressed(
    spot: SpotView,
    now: int,
    event: EventView<CurrentSongView>,
    later: int,
)
    requires
        spot.current_song_step(now, event).1 matches StepView::Done(Err(_)),
        later < spot.current_song_step(now, event).0.current_song.valid_until,
    ensures
        ({
            let (failed, _) = spot.current_song_step(now, event);
            let (after, retry) = failed.current_song_step(later, EventView::Start);
            &&& after == failed
            &&& retry == StepView::<CurrentSongView, FetchError>::Done(
                Err(FetchError::SuppressedRecentFailure),
            )
            &&& !retry.contacts_upstream()
            &&& !(event is Start) ==> failed.current_song.valid_until == now
                + SONG_FAILURE_WINDOW_MS
        }),
{
}

/// After a step of the query for the top tracks has ended in an error,
/// every start of that query before the slot goes stale ends at once in
/// `SuppressedRecentFailure`: it sends nothing upstream and changes
/// nothing. Where the error came of an exchange or a call at `now`, the
/// slot goes stale twenty seconds after `now`.
pub proof fn law_top_songs_failure_is_suppressed(
    spot: SpotView,
    now: int,
    limit: int,
    event: EventView<Seq<ItemView>>,
    later: int,
    later_limit: int,
)
    requires
        spot.top_songs_step(now, limit, event).1 matches StepView::Done(Err(_)),
        later < spot.top_songs_step(now, limit, event).0.top_songs.valid_until,
    ensures
        ({
            let (failed, _) = spot.top_songs_step(now, limit, event);
            let (after, retry) = failed.top_songs_step(later, later_limit, EventView::Start);
            &&& after == failed
            &&& retry == StepView::<Seq<ItemView>, FetchError>::Done(
                Err(FetchError::SuppressedRecentFailure),
            )
            &&& !retry.contacts_upstream()
            &&& !(event is Start) ==> failed.top_songs.valid_until == now
                + TOP_SONGS_FAILURE_WINDOW_MS
        }),
{
}

/// A command that succeeded at `now` leaves the slot of the current track
/// empty and stale from `now` on, whatever it held before, and touches
/// nothing else. The next query for the current track at `now` or later
/// therefore goes upstream.
pub proof fn law_command_invalidates(
    spot: SpotView,
    now: int,
    state: MediaState,
    event: EventView<()>,
    later: int,
)
    requires
        spot.player_step(now, state, event).1 matches StepView::Done(Ok(_)),
        now <= later,
    ensures
        ({
            let (next, _) = spot.player_step(now, state, event);
            &&& next.current_song.valid_until <= now
            &&& next.current_song.value is None
            &&& next.current_song.captured_at == now
            &&& next.top_songs == spot.top_songs
            &&& next.token == spot.token
            &&& next.current_song_step(later, EventView::Start).1.contacts_upstream()
        }),
{
}

/// A command that failed changes nothing.
pub proof fn law_failed_command_changes_nothing(
    spot: SpotView,
    now: int,
    state: MediaState,
    event: EventView<()>,
)
    requires
        spot.player_step(now, state, event).1 matches StepView::Done(Err(_)),
    ensures
        spot.player_step(now, state, event).0 == spot,
{
}

/// A failed exchange leaves the token as it was; a granted token can be
/// used from the moment of the grant up to and including its expiry second
/// and at no later second.
pub proof fn law_token_lifetime(
    spot: SpotView,
    now: int,
    reply: Reply<AuthResponseView>,
    later: int,
)
    ensures
        ({
            let (next, outcome) = spot.token_step(now, reply);
            &&& outcome is Err ==> next == spot
            &&& outcome is Ok ==> {
                &&& reply.body(false) matches Ok(grant)
                &&& next.token matches Some(token)
                &&& token.value == grant.access_token
                &&& usable(next.token, later) <==> later / 1000 <= now / 1000 + grant.expires_in
            }
        }),
{
}

/// While a ranking is fresh, every read hands out its first `limit`
/// entries in the stored order, whatever the limit, and leaves the stored
/// ranking whole.
pub proof fn law_ranking_is_read_by_prefix(spot: SpotView, now: int, limit: int)
    requires
        spot.top_songs.value is Some,
        now < spot.top_songs.valid_until,
        0 <= limit,
    ensures
        ({
            let stored = spot.top_songs.value->0;
            let (next, step) = spot.top_songs_step(now, limit, EventView::Start);
            &&& next == spot
            &&& step matches StepView::Done(Ok(served))
            &&& served == ranked_prefix(stored, limit)
            &&& served.len() == if limit < stored.len() {
                limit
            } else {
                stored.len() as int
            }
            &&& forall|i: int| 0 <= i < served.len() ==> served[i] == stored[i]
        }),
{
}

/// Nothing is tried twice within one operation: the step after an exchange
/// is the upstream call or the end, and the step after a call is the end.
/// An operation therefore sends at most one exchange and one call.
pub proof fn law_no_retry(
    spot: SpotView,
    now: int,
    limit: int,
    state: MediaState,
    exchange: Reply<AuthResponseView>,
    song_reply: Reply<CurrentSongView>,
    top_reply: Reply<Seq<ItemView>>,
    player_reply: Reply<()>,
)
    ensures
        !(spot.current_song_step(now, EventView::Exchanged(exchange)).1 is Exchange),
        !(spot.top_songs_step(now, limit, EventView::Exchanged(exchange)).1 is Exchange),
        !(spot.player_step(now, state, EventView::Exchanged(exchange)).1 is Exchange),
        spot.current_song_step(now, EventView::Called(song_reply)).1 is Done,
        spot.top_songs_step(now, limit, EventView::Called(top_reply)).1 is Done,
        spot.player_step(now, state, EventView::Called(player_reply)).1 is Done,
{
}

/// A snapshot that was fetched at `now` is served, without contacting
/// upstream, at every moment before it goes stale, and upstream is asked
/// again from that moment on. While the track has ten seconds or more left
/// to play, that is ten seconds after `now`.
pub proof fn law_fetched_song_is_served_until_stale(
    spot: SpotView,
    now: int,
    reply: Reply<CurrentSongView>,
    later: int,
)
    requires
        spot.current_song_step(now, EventView::Called(reply)).1 matches StepView::Done(Ok(_)),
    ensures
        ({
            let (next, step) = spot.current_song_step(now, EventView::Called(reply));
            let song = step->Done_0->Ok_0;
            let read = next.current_song_step(later, EventView::Start).1;
            &&& later < next.current_song.valid_until ==> read == StepView::<
                CurrentSongView,
                FetchError,
            >::Done(Ok(song.advanced(later - now, later)))
            &&& later >= next.current_song.valid_until ==> read.contacts_upstream()
            &&& song.remaining() >= 10_000 ==> next.current_song.valid_until == now + 10_000
        }),
{
}

/// A ranking that was fetched at `now` is served, without contacting
/// upstream, at every moment of the ten minutes that follow, and upstream
/// is asked again after that.
pub proof fn law_fetched_ranking_is_served_until_stale(
    spot: SpotView,
    now: int,
    limit: int,
    reply: Reply<Seq<ItemView>>,
    later: int,
    later_limit: int,
)
    requires
        spot.top_songs_step(now, limit, EventView::Called(reply)).1 matches StepView::Done(Ok(_)),
    ensures
        ({
            let (next, _) = spot.top_songs_step(now, limit, EventView::Called(reply));
            let stored = reply.body(false)->Ok_0;
            let read = next.top_songs_step(later, later_limit, EventView::Start).1;
            &&& next.top_songs.value == Some(stored)
            &&& next.top_songs.valid_until == now + 600_000
            &&& later < now + 600_000 ==> read == StepView::<Seq<ItemView>, FetchError>::Done(
                Ok(ranked_prefix(stored, later_limit)),
            )
            &&& later >= now + 600_000 ==> read.contacts_upstream()
        }),
{
}

} // verus!
