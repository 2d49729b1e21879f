//! The query for the listener's top tracks: a read-through cache that keeps
//! the full ranking for ten minutes and hands out its first entries.

use crate::cache::EntryView;
use crate::spot::{Spot, SpotView};
use crate::step::{fetch_error, Event, EventView, FetchError, Step, StepView, Timed};
use crate::time::clock_millis;
use crate::token::{exchanged, usable, AccessToken};
use crate::track::{ranked_prefix, top_prefix, Item, ItemView, TopItems};
use crate::wire::{top_songs_request, Request};
use vstd::prelude::*;

verus! {

/// For how long a fetched ranking is served, in milliseconds.
pub const TOP_SONGS_TTL_MS: i64 = 600_000;

/// For how long a failed query for the ranking is remembered.
pub const TOP_SONGS_FAILURE_WINDOW_MS: i64 = 20_000;

impl SpotView {
    /// One step of the query for the top tracks, of which the caller wants
    /// the first `limit`.
    ///
    /// At the start, a fresh ranking is served and a fresh failure is
    /// reported as `SuppressedRecentFailure`; neither contacts upstream. A
    /// stale slot leads to the upstream call, by way of a token exchange
    /// where no usable token is held. A failed exchange and a failed call
    /// are remembered for the failure window. A ranking that was fetched is
    /// stored whole. What is handed out is always the first `limit` entries
    /// in the order in which upstream ranked them.
    pub open spec fn top_songs_step(self, now: int, limit: int, event: EventView<Seq<ItemView>>) -> (
        SpotView,
        StepView<Seq<ItemView>, FetchError>,
    ) {
        match event {
            EventView::Start => if self.top_songs.fresh(now) {
                match self.top_songs.value {
                    Some(items) => (self, StepView::Done(Ok(ranked_prefix(items, limit)))),
                    None => (self, StepView::Done(Err(FetchError::SuppressedRecentFailure))),
                }
            } else if usable(self.token, now) {
                (self, StepView::Call(top_songs_request(self.token->0.value)))
            } else {
                (self, StepView::Exchange(self.exchange_request()))
            },
            EventView::Exchanged(reply) => match exchanged(reply, now) {
                Ok(token) => (
                    SpotView { token: Some(token), ..self },
                    StepView::Call(top_songs_request(token.value)),
                ),
                Err(_) => (
                    SpotView {
                        top_songs: EntryView::failed(now, TOP_SONGS_FAILURE_WINDOW_MS as int),
                        ..self
                    },
                    StepView::Done(Err(FetchError::AuthFailed)),
                ),
            },
            EventView::Called(reply) => match reply.body(false) {
                Ok(items) => (
                    SpotView {
                        top_songs: EntryView::filled(items, now, TOP_SONGS_TTL_MS as int),
                        ..self
                    },
                    StepView::Done(Ok(ranked_prefix(items, limit))),
                ),
                Err(fault) => (
                    SpotView {
                        top_songs: EntryView::failed(now, TOP_SONGS_FAILURE_WINDOW_MS as int),
                        ..self
                    },
                    StepView::Done(Err(fetch_error(fault))),
                ),
            },
        }
    }

    /// Whether every time in the state after the step can be held by the
    /// machine.
    pub open spec fn top_songs_step_fits(self, now: int, limit: int, event: EventView<Seq<ItemView>>) -> bool {
        self.top_songs_step(now, limit, event).0.in_range()
    }
}

impl Spot {
    /// Whether `get_top_songs_at` can take this step.
    pub fn top_songs_in_range(&self, now: i64, limit: usize, event: &Event<TopItems>) -> (ok: bool)
        ensures
            ok == self@.top_songs_step_fits(now as int, limit as int, event.deep_view()),
    {
        match event {
            Event::Start => true,
            Event::Exchanged(reply) => {
                match reply.peek_body(false) {
                    Some(_) => AccessToken::exchange_in_range(reply, now),
                    None => now <= i64::MAX - TOP_SONGS_FAILURE_WINDOW_MS,
                }
            },
            Event::Called(reply) => {
                match reply.peek_body(false) {
                    Some(_) => now <= i64::MAX - TOP_SONGS_TTL_MS,
                    None => now <= i64::MAX - TOP_SONGS_FAILURE_WINDOW_MS,
                }
            },
        }
    }

    /// Takes one step of the query for the first `limit` top tracks at `now`.
    pub fn get_top_songs_at(&mut self, now: i64, limit: usize, event: Event<TopItems>) -> (step:
        Step<Vec<Item>, FetchError>)
        requires
            old(self)@.top_songs_step_fits(now as int, limit as int, event.deep_view()),
        ensures
            (final(self)@, step.deep_view()) == old(self)@.top_songs_step(
                now as int,
                limit as int,
                event.deep_view(),
            ),
    {
        match event {
            Event::Start => {
                if self.top_songs.is_fresh(now) {
                    match &self.top_songs.value {
                        Some(items) => Step::Done(Ok(top_prefix(items, limit))),
                        None => Step::Done(Err(FetchError::SuppressedRecentFailure)),
                    }
                } else {
                    match self.valid_token(now) {
                        Some(token) => Step::Call(Request::top_songs(&token.value)),
                        None => Step::Exchange(self.exchange_request()),
                    }
                }
            },
            Event::Exchanged(reply) => {
                match AccessToken::from_exchange(reply, now) {
                    Ok(token) => {
                        let request = Request::top_songs(&token.value);
                        self.token = Some(token);
                        Step::Call(request)
                    },
                    Err(_) => {
                        self.top_songs.fail(now, TOP_SONGS_FAILURE_WINDOW_MS);
                        Step::Done(Err(FetchError::AuthFailed))
                    },
                }
            },
            Event::Called(reply) => {
                match reply.into_body(false) {
                    Ok(body) => {
                        let served = top_prefix(&body.items, limit);
                        self.top_songs.fill(body.items, now, now + TOP_SONGS_TTL_MS);
                        Step::Done(Ok(served))
                    },
                    Err(fault) => {
                        self.top_songs.fail(now, TOP_SONGS_FAILURE_WINDOW_MS);
                        Step::Done(Err(FetchError::from_fault(fault)))
                    },
                }
            },
        }
    }

    /// Takes one step of the query for the first `limit` top tracks, at the
    /// time that the machine's clock shows.
    pub fn get_top_songs(&mut self, limit: usize, event: Event<TopItems>) -> (timed: Timed<
        Step<Vec<Item>, FetchError>,
    >)
        ensures
            match timed.result {
                Some(step) => {
                    &&& old(self)@.top_songs_step_fits(
                        timed.at as int,
                        limit as int,
                        event.deep_view(),
                    )
                    &&& (final(self)@, step.deep_view()) == old(self)@.top_songs_step(
                        timed.at as int,
                        limit as int,
                        event.deep_view(),
                    )
                },
                None => {
                    &&& !old(self)@.top_songs_step_fits(
                        timed.at as int,
                        limit as int,
                        event.deep_view(),
                    )
                    &&& *final(self) == *old(self)
                },
            },
    {
        let now: i64 = clock_millis();
        if self.top_songs_in_range(now, limit, &event) {
            Timed { at: now, result: Some(self.get_top_songs_at(now, limit, event)) }
        } else {
            Timed { at: now, result: None }
        }
    }
}

} // verus!
