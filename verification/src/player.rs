//! Transport commands: play, pause, next and previous. A command that
//! upstream accepted makes the cached current track worthless.

use crate::cache::EntryView;
use crate::command::MediaState;
use crate::spot::{Spot, SpotView};
use crate::step::{CommandError, Event, EventView, Step, StepView, Timed};
use crate::time::clock_millis;
use crate::token::{exchanged, usable, AccessToken};
use crate::wire::{player_request, Request, RequestView};
use vstd::prelude::*;

verus! {

/// The request that carries a command, under the given token.
pub open spec fn command_request(state: MediaState, token: Seq<char>) -> RequestView {
    player_request(state.spec_verb(), state.spec_segment(), token)
}

impl SpotView {
    /// One step of a transport command.
    ///
    /// At the start the command goes upstream, by way of a token exchange
    /// where no usable token is held. A failed exchange and a call that
    /// upstream did not accept end the command and leave the state as it
    /// was. Once upstream has accepted the call, the slot of the current
    /// track holds nothing and is stale from `now` on, whatever it held.
    pub open spec fn player_step(self, now: int, state: MediaState, event: EventView<()>) -> (
        SpotView,
        StepView<(), CommandError>,
    ) {
        match event {
            EventView::Start => if usable(self.token, now) {
                (self, StepView::Call(command_request(state, self.token->0.value)))
            } else {
                (self, StepView::Exchange(self.exchange_request()))
            },
            EventView::Exchanged(reply) => match exchanged(reply, now) {
                Ok(token) => (
                    SpotView { token: Some(token), ..self },
                    StepView::Call(command_request(state, token.value)),
                ),
                Err(_) => (self, StepView::Done(Err(CommandError::AuthFailed))),
            },
            EventView::Called(reply) => if reply.accepted() {
                (
                    SpotView { current_song: EntryView::invalidated(now), ..self },
                    StepView::Done(Ok(())),
                )
            } else {
                (self, StepView::Done(Err(CommandError::Upstream)))
            },
        }
    }

    /// Whether every time in the state after the step can be held by the
    /// machine.
    pub open spec fn player_step_fits(self, now: int, state: MediaState, event: EventView<()>) -> bool {
        self.player_step(now, state, event).0.in_range()
    }
}

impl Spot {
    fn command_request(state: MediaState, token: &String) -> (request: Request)
        ensures
            request@ == command_request(state, token@),
    {
        Request::player(state.verb(), state.segment(), token)
    }

    /// Whether `update_player_state_at` can take this step.
    pub fn player_in_range(&self, now: i64, state: MediaState, event: &Event<()>) -> (ok: bool)
        ensures
            ok == self@.player_step_fits(now as int, state, event.deep_view()),
    {
        match event {
            Event::Exchanged(reply) => AccessToken::exchange_in_range(reply, now),
            _ => true,
        }
    }

    /// Takes one step of a transport command at `now`.
    pub fn update_player_state_at(&mut self, now: i64, state: MediaState, event: Event<()>) -> (step:
        Step<(), CommandError>)
        requires
            old(self)@.player_step_fits(now as int, state, event.deep_view()),
        ensures
            (final(self)@, step.deep_view()) == old(self)@.player_step(
                now as int,
                state,
                event.deep_view(),
            ),
    {
        match event {
            Event::Start => {
                match self.valid_token(now) {
                    Some(token) => Step::Call(Self::command_request(state, &token.value)),
                    None => Step::Exchange(self.exchange_request()),
                }
            },
            Event::Exchanged(reply) => {
                match AccessToken::from_exchange(reply, now) {
                    Ok(token) => {
                        let request = Self::command_request(state, &token.value);
                        self.token = Some(token);
                        Step::Call(request)
                    },
                    Err(_) => Step::Done(Err(CommandError::AuthFailed)),
                }
            },
            Event::Called(reply) => {
                if reply.is_accepted() {
                    self.current_song.invalidate(now);
                    Step::Done(Ok(()))
                } else {
                    Step::Done(Err(CommandError::Upstream))
                }
            },
        }
    }

    /// Takes one step of a transport command, at the time that the machine's
    /// clock shows.
    pub fn update_player_state(&mut self, state: MediaState, event: Event<()>) -> (timed: Timed<
        Step<(), CommandError>,
    >)
        ensures
            match timed.result {
                Some(step) => {
                    &&& old(self)@.player_step_fits(timed.at as int, state, event.deep_view())
                    &&& (final(self)@, step.deep_view()) == old(self)@.player_step(
                        timed.at as int,
                        state,
                        event.deep_view(),
                    )
                },
                None => {
                    &&& !old(self)@.player_step_fits(timed.at as int, state, event.deep_view())
                    &&& *final(self) == *old(self)
                },
            },
    {
        let now: i64 = clock_millis();
        if self.player_in_range(now, state, &event) {
            Timed { at: now, result: Some(self.update_player_state_at(now, state, event)) }
        } else {
            Timed { at: now, result: None }
        }
    }
}

} // verus!
