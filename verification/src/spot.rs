//! The client's state: credentials, the access token and the two caches.
//! The operations on it are step functions, one module each.

use crate::cache::{CacheEntry, EntryView};
use crate::step::Timed;
use crate::time::{clock_millis, fits};
use crate::token::{
    exchange_fits, exchanged, usable, AccessToken, AccessTokenView, AuthError, AuthResponse,
    AuthResponseView,
};
use crate::track::{CurrentSong, CurrentSongView, Item, ItemView};
use crate::wire::{token_request, Reply, Request, RequestView};
use vstd::prelude::*;

verus! {

/// All state of the client. Nothing of it outlives the process.
#[derive(Debug, PartialEq, Eq)]
pub struct Spot {
    pub client_id: String,
    pub client_secret: String,
    pub refresh_token: String,
    /// The access token in use, if one was ever obtained.
    pub token: Option<AccessToken>,
    pub current_song: CacheEntry<CurrentSong>,
    /// The full list as fetched; a limit is applied when it is read.
    pub top_songs: CacheEntry<Vec<Item>>,
}

/// The view of the client's state.
pub struct SpotView {
    pub client_id: Seq<char>,
    pub client_secret: Seq<char>,
    pub refresh_token: Seq<char>,
    pub token: Option<AccessTokenView>,
    pub current_song: EntryView<CurrentSongView>,
    pub top_songs: EntryView<Seq<ItemView>>,
}

impl View for Spot {
    type V = SpotView;

    open spec fn view(&self) -> SpotView {
        SpotView {
            client_id: self.client_id@,
            client_secret: self.client_secret@,
            refresh_token: self.refresh_token@,
            token: self.token.deep_view(),
            current_song: self.current_song.deep_view(),
            top_songs: self.top_songs.deep_view(),
        }
    }
}

impl SpotView {
    /// A client that has not talked to upstream yet: no token, both caches
    /// empty.
    pub open spec fn initial(
        client_id: Seq<char>,
        client_secret: Seq<char>,
        refresh_token: Seq<char>,
    ) -> SpotView {
        SpotView {
            client_id,
            client_secret,
            refresh_token,
            token: None,
            current_song: EntryView::empty(),
            top_songs: EntryView::empty(),
        }
    }

    /// Whether every time that the state holds can be held in an `i64`.
    pub open spec fn in_range(self) -> bool {
        &&& self.token matches Some(t) ==> fits(t.expires_at)
        &&& self.current_song.in_range()
        &&& self.top_songs.in_range()
    }

    /// The refresh-token grant under the client's credentials.
    pub open spec fn exchange_request(self) -> RequestView {
        token_request(self.client_id, self.client_secret, self.refresh_token)
    }

    /// The state and the outcome after a refresh-token exchange was answered
    /// at `now`. A token replaces the one held; a failure changes nothing.
    pub open spec fn token_step(self, now: int, reply: Reply<AuthResponseView>) -> (
        SpotView,
        Result<(), AuthError>,
    ) {
        match exchanged(reply, now) {
            Ok(token) => (SpotView { token: Some(token), ..self }, Ok(())),
            Err(error) => (self, Err(error)),
        }
    }
}

impl Spot {
    /// A client with the given credentials that has not talked to upstream
    /// yet.
    pub fn new(client_id: String, client_secret: String, refresh_token: String) -> (spot: Self)
        ensures
            spot@ == SpotView::initial(client_id@, client_secret@, refresh_token@),
    {
        Spot {
            client_id,
            client_secret,
            refresh_token,
            token: None,
            current_song: CacheEntry::new(),
            top_songs: CacheEntry::new(),
        }
    }

    /// The request that exchanges the refresh token for an access token.
    pub fn exchange_request(&self) -> (request: Request)
        ensures
            request@ == self@.exchange_request(),
    {
        Request::token(&self.client_id, &self.client_secret, &self.refresh_token)
    }

    /// The access token, where one is held that can be used at `now`.
    /// Where there is none, the refresh token has to be exchanged first.
    pub fn valid_token(&self, now: i64) -> (token: Option<&AccessToken>)
        ensures
            match token {
                Some(t) => usable(self@.token, now as int) && self.token == Some(*t),
                None => !usable(self@.token, now as int),
            },
    {
        match &self.token {
            Some(t) => if AccessToken::is_usable(&self.token, now) {
                Some(t)
            } else {
                None
            },
            None => None,
        }
    }

    /// Takes in the reply to a refresh-token exchange that was answered at
    /// `now`.
    pub fn get_token_at(&mut self, now: i64, reply: Reply<AuthResponse>) -> (outcome: Result<
        (),
        AuthError,
    >)
        requires
            exchange_fits(reply.deep_view(), now as int),
        ensures
            (final(self)@, outcome) == old(self)@.token_step(now as int, reply.deep_view()),
    {
        match AccessToken::from_exchange(reply, now) {
            Ok(token) => {
                self.token = Some(token);
                Ok(())
            },
            Err(error) => Err(error),
        }
    }

    /// Takes in the reply to a refresh-token exchange, at the time that the
    /// machine's clock shows.
    pub fn get_token(&mut self, reply: Reply<AuthResponse>) -> (timed: Timed<Result<(), AuthError>>)
        ensures
            match timed.result {
                Some(outcome) => {
                    &&& exchange_fits(reply.deep_view(), timed.at as int)
                    &&& (final(self)@, outcome) == old(self)@.token_step(
                        timed.at as int,
                        reply.deep_view(),
                    )
                },
                None => {
                    &&& !exchange_fits(reply.deep_view(), timed.at as int)
                    &&& *final(self) == *old(self)
                },
            },
    {
        let now: i64 = clock_millis();
        if AccessToken::exchange_in_range(&reply, now) {
            Timed { at: now, result: Some(self.get_token_at(now, reply)) }
        } else {
            Timed { at: now, result: None }
        }
    }
}

} // verus!
