//! The query for the current track: a read-through cache whose entries
//! last until the track ends, ten seconds at most, and which serves a
//! snapshot with its progress carried forward to the moment of reading.

use crate::cache::EntryView;
use crate::spot::{Spot, SpotView};
use crate::step::{fetch_error, Event, EventView, FetchError, Step, StepView, Timed};
use crate::time::{clock_millis, fits, is_in_range};
use crate::token::{exchanged, usable, AccessToken};
use crate::track::{CurrentSong, CurrentSongView};
use crate::wire::{current_song_request, Request};
use vstd::prelude::*;

verus! {

/// The longest that a snapshot of the current track is served, in
/// milliseconds.
pub const SONG_CEILING_MS: i64 = 10_000;

/// For how long a failed query for the current track is remembered.
pub const SONG_FAILURE_WINDOW_MS: i64 = 10_000;

/// For how long a fetched snapshot may be served: until the track ends, and
/// no longer than the ceiling.
pub open spec fn song_ttl(song: CurrentSongView) -> int {
    if song.remaining() < SONG_CEILING_MS {
        song.remaining()
    } else {
        SONG_CEILING_MS as int
    }
}

/// The progress of a snapshot that was captured at `captured_at`, read at
/// `now`.
fn progress_at(song: &CurrentSong, captured_at: i64, now: i64) -> (progress: i128)
    ensures
        progress == song@.advanced(now - captured_at, now as int).progress_ms,
{
    song.progress_ms as i128 + (now as i128 - captured_at as i128)
}

/// The moment at which a snapshot that was fetched at `now` goes stale.
fn stale_at(song: &CurrentSong, now: i64) -> (until: i128)
    ensures
        until == now + song_ttl(song@),
{
    let remaining: i128 = song.item.duration_ms as i128 - song.progress_ms as i128;
    if remaining < SONG_CEILING_MS as i128 {
        now as i128 + remaining
    } else {
        now as i128 + SONG_CEILING_MS as i128
    }
}

impl SpotView {
    /// One step of the query for the current track.
    ///
    /// At the start, a fresh snapshot is served with its progress advanced
    /// by the time since its capture, and a fresh failure is served as
    /// `SuppressedRecentFailure`; neither contacts upstream. A stale slot
    /// leads to the upstream call, by way of a token exchange where no
    /// usable token is held. A failed exchange and a failed call are
    /// remembered for the failure window. A snapshot that was fetched is
    /// stored and returned as it came.
    pub open spec fn current_song_step(self, now: int, event: EventView<CurrentSongView>) -> (
        SpotView,
        StepView<CurrentSongView, FetchError>,
    ) {
        match event {
            EventView::Start => if self.current_song.fresh(now) {
                match self.current_song.value {
                    Some(song) => (
                        self,
                        StepView::Done(
                            Ok(song.advanced(now - self.current_song.captured_at, now)),
                        ),
                    ),
                    None => (self, StepView::Done(Err(FetchError::SuppressedRecentFailure))),
                }
            } else if usable(self.token, now) {
                (self, StepView::Call(current_song_request(self.token->0.value)))
            } else {
                (self, StepView::Exchange(self.exchange_request()))
            },
            EventView::Exchanged(reply) => match exchanged(reply, now) {
                Ok(token) => (
                    SpotView { token: Some(token), ..self },
                    StepView::Call(current_song_request(token.value)),
                ),
                Err(_) => (
                    SpotView {
                        current_song: EntryView::failed(now, SONG_FAILURE_WINDOW_MS as int),
                        ..self
                    },
                    StepView::Done(Err(FetchError::AuthFailed)),
                ),
            },
            EventView::Called(reply) => match reply.body(true) {
                Ok(song) => (
                    SpotView {
                        current_song: EntryView::filled(song, now, song_ttl(song)),
                        ..self
                    },
                    StepView::Done(Ok(song)),
                ),
                Err(fault) => (
                    SpotView {
                        current_song: EntryView::failed(now, SONG_FAILURE_WINDOW_MS as int),
                        ..self
                    },
                    StepView::Done(Err(fetch_error(fault))),
                ),
            },
        }
    }

    /// Whether the step's result can be held by the machine: every time in
    /// the next state, and the progress of a snapshot that is served.
    pub open spec fn current_song_step_fits(self, now: int, event: EventView<CurrentSongView>) -> bool {
        let (next, step) = self.current_song_step(now, event);
        &&& next.in_range()
        &&& step matches StepView::Done(Ok(song)) ==> fits(song.progress_ms)
    }
}

impl Spot {
    /// Whether `get_current_song_at` can take this step.
    pub fn current_song_in_range(&self, now: i64, event: &Event<CurrentSong>) -> (ok: bool)
        ensures
            ok == self@.current_song_step_fits(now as int, event.deep_view()),
    {
        match event {
            Event::Start => {
                if self.current_song.is_fresh(now) {
                    match &self.current_song.value {
                        Some(song) => is_in_range(
                            progress_at(song, self.current_song.captured_at, now),
                        ),
                        None => true,
                    }
                } else {
                    true
                }
            },
            Event::Exchanged(reply) => {
                match reply.peek_body(false) {
                    Some(_) => AccessToken::exchange_in_range(reply, now),
                    None => now <= i64::MAX - SONG_FAILURE_WINDOW_MS,
                }
            },
            Event::Called(reply) => {
                match reply.peek_body(true) {
                    Some(song) => is_in_range(stale_at(song, now)),
                    None => now <= i64::MAX - SONG_FAILURE_WINDOW_MS,
                }
            },
        }
    }

    /// Takes one step of the query for the current track at `now`.
    pub fn get_current_song_at(&mut self, now: i64, event: Event<CurrentSong>) -> (step: Step<
        CurrentSong,
        FetchError,
    >)
        requires
            old(self)@.current_song_step_fits(now as int, event.deep_view()),
        ensures
            (final(self)@, step.deep_view()) == old(self)@.current_song_step(
                now as int,
                event.deep_view(),
            ),
    {
        match event {
            Event::Start => {
                if self.current_song.is_fresh(now) {
                    match &self.current_song.value {
                        Some(song) => {
                            let progress: i128 = progress_at(
                                song,
                                self.current_song.captured_at,
                                now,
                            );
                            Step::Done(Ok(song.at_progress(progress as i64, now)))
                        },
                        None => Step::Done(Err(FetchError::SuppressedRecentFailure)),
                    }
                } else {
                    match self.valid_token(now) {
                        Some(token) => Step::Call(Request::current_song(&token.value)),
                        None => Step::Exchange(self.exchange_request()),
                    }
                }
            },
            Event::Exchanged(reply) => {
                match AccessToken::from_exchange(reply, now) {
                    Ok(token) => {
                        let request = Request::current_song(&token.value);
                        self.token = Some(token);
                        Step::Call(request)
                    },
                    Err(_) => {
                        self.current_song.fail(now, SONG_FAILURE_WINDOW_MS);
                        Step::Done(Err(FetchError::AuthFailed))
                    },
                }
            },
            Event::Called(reply) => {
                match reply.into_body(true) {
                    Ok(song) => {
                        let until: i128 = stale_at(&song, now);
                        self.current_song.fill(song.clone(), now, until as i64);
                        Step::Done(Ok(song))
                    },
                    Err(fault) => {
                        self.current_song.fail(now, SONG_FAILURE_WINDOW_MS);
                        Step::Done(Err(FetchError::from_fault(fault)))
                    },
                }
            },
        }
    }

    /// Takes one step of the query for the current track, at the time that
    /// the machine's clock shows.
    pub fn get_current_song(&mut self, event: Event<CurrentSong>) -> (timed: Timed<
        Step<CurrentSong, FetchError>,
    >)
        ensures
            match timed.result {
                Some(step) => {
                    &&& old(self)@.current_song_step_fits(timed.at as int, event.deep_view())
                    &&& (final(self)@, step.deep_view()) == old(self)@.current_song_step(
                        timed.at as int,
                        event.deep_view(),
                    )
                },
                None => {
                    &&& !old(self)@.current_song_step_fits(timed.at as int, event.deep_view())
                    &&& *final(self) == *old(self)
                },
            },
    {
        let now: i64 = clock_millis();
        if self.current_song_in_range(now, &event) {
            Timed { at: now, result: Some(self.get_current_song_at(now, event)) }
        } else {
            Timed { at: now, result: None }
        }
    }
}

} // verus!
