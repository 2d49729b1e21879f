//! What goes to upstream and what comes back, as plain values: the library
//! describes each request in full and reads each reply; sending and
//! receiving is left to the driver.

use vstd::prelude::*;

verus! {

/// HTTP verbs that the upstream interface uses.
#[derive(Clone, Copy, Debug, PartialEq, Eq, Structural)]
pub enum Verb {
    Get,
    Post,
    Put,
}

/// How a request identifies its sender.
#[derive(Debug, PartialEq, Eq)]
pub enum Auth {
    /// HTTP basic authentication with the client's id and secret.
    Basic { user: String, password: String },
    /// An `authorization` header that reads `Bearer`, a space and the token.
    Bearer { token: String },
}

/// The view of [`Auth`].
pub enum AuthView {
    Basic { user: Seq<char>, password: Seq<char> },
    Bearer { token: Seq<char> },
}

impl View for Auth {
    type V = AuthView;

    open spec fn view(&self) -> AuthView {
        match self {
            Auth::Basic { user, password } => AuthView::Basic { user: user@, password: password@ },
            Auth::Bearer { token } => AuthView::Bearer { token: token@ },
        }
    }
}

/// What a request carries in its body.
#[derive(Debug, PartialEq, Eq)]
pub enum Content {
    Empty,
    /// Form fields, in order, as name and value.
    Form(Vec<(String, String)>),
    /// A JSON document, verbatim.
    Json(String),
}

/// The view of [`Content`].
pub enum ContentView {
    Empty,
    Form(Seq<(Seq<char>, Seq<char>)>),
    Json(Seq<char>),
}

impl View for Content {
    type V = ContentView;

    open spec fn view(&self) -> ContentView {
        match self {
            Content::Empty => ContentView::Empty,
            Content::Form(fields) => ContentView::Form(fields.deep_view()),
            Content::Json(text) => ContentView::Json(text@),
        }
    }
}

/// One upstream request, complete: the driver adds nothing to it.
#[derive(Debug, PartialEq, Eq)]
pub struct Request {
    pub verb: Verb,
    pub url: String,
    pub auth: Auth,
    pub content: Content,
}

/// The view of a [`Request`].
pub struct RequestView {
    pub verb: Verb,
    pub url: Seq<char>,
    pub auth: AuthView,
    pub content: ContentView,
}

impl View for Request {
    type V = RequestView;

    open spec fn view(&self) -> RequestView {
        RequestView { verb: self.verb, url: self.url@, auth: self.auth@, content: self.content@ }
    }
}

impl DeepView for Request {
    type V = RequestView;

    open spec fn deep_view(&self) -> RequestView {
        self.view()
    }
}

/// The refresh-token grant: a POST to the accounts host with the client's
/// id and secret as basic credentials and the grant as form fields.
pub open spec fn token_request(
    client_id: Seq<char>,
    client_secret: Seq<char>,
    refresh_token: Seq<char>,
) -> RequestView {
    RequestView {
        verb: Verb::Post,
        url: "https://accounts.spotify.com/api/token"@,
        auth: AuthView::Basic { user: client_id, password: client_secret },
        content: ContentView::Form(
            seq![("grant_type"@, "refresh_token"@), ("refresh_token"@, refresh_token)],
        ),
    }
}

/// The query for what is playing now.
pub open spec fn current_song_request(token: Seq<char>) -> RequestView {
    RequestView {
        verb: Verb::Get,
        url: "https://api.spotify.com/v1/me/player/currently-playing"@,
        auth: AuthView::Bearer { token },
        content: ContentView::Empty,
    }
}

/// The query for the listener's top tracks: 32 of them, over the short term.
pub open spec fn top_songs_request(token: Seq<char>) -> RequestView {
    RequestView {
        verb: Verb::Get,
        url: "https://api.spotify.com/v1/me/top/tracks?limit=32&time_range=short_term"@,
        auth: AuthView::Bearer { token },
        content: ContentView::Empty,
    }
}

/// A transport command: the verb and the last path segment depend on the
/// command, the body is an empty JSON object.
pub open spec fn player_request(verb: Verb, segment: Seq<char>, token: Seq<char>) -> RequestView {
    RequestView {
        verb,
        url: "https://api.spotify.com/v1/me/player/"@ + segment,
        auth: AuthView::Bearer { token },
        content: ContentView::Json("{}"@),
    }
}

impl Request {
    /// The refresh-token grant under the given credentials.
    pub fn token(client_id: &String, client_secret: &String, refresh_token: &String) -> (request:
        Request)
        ensures
            request@ == token_request(client_id@, client_secret@, refresh_token@),
    {
        let mut fields: Vec<(String, String)> = Vec::new();
        fields.push(("grant_type".to_owned(), "refresh_token".to_owned()));
        fields.push(("refresh_token".to_owned(), refresh_token.clone()));
        assert(fields.deep_view() =~= seq![
            ("grant_type"@, "refresh_token"@),
            ("refresh_token"@, refresh_token@),
        ]);
        Request {
            verb: Verb::Post,
            url: "https://accounts.spotify.com/api/token".to_owned(),
            auth: Auth::Basic { user: client_id.clone(), password: client_secret.clone() },
            content: Content::Form(fields),
        }
    }

    /// The query for what is playing now, under the given access token.
    pub fn current_song(token: &String) -> (request: Request)
        ensures
            request@ == current_song_request(token@),
    {
        Request {
            verb: Verb::Get,
            url: "https://api.spotify.com/v1/me/player/currently-playing".to_owned(),
            auth: Auth::Bearer { token: token.clone() },
            content: Content::Empty,
        }
    }

    /// The query for the top tracks, under the given access token.
    pub fn top_songs(token: &String) -> (request: Request)
        ensures
            request@ == top_songs_request(token@),
    {
        Request {
            verb: Verb::Get,
            url: "https://api.spotify.com/v1/me/top/tracks?limit=32&time_range=short_term".to_owned(),
            auth: Auth::Bearer { token: token.clone() },
            content: Content::Empty,
        }
    }

    /// A transport command with the given verb and last path segment, under
    /// the given access token.
    pub fn player(verb: Verb, segment: &str, token: &String) -> (request: Request)
        ensures
            request@ == player_request(verb, segment@, token@),
    {
        let mut url: String = "https://api.spotify.com/v1/me/player/".to_owned();
        url.append(segment);
        Request {
            verb,
            url,
            auth: Auth::Bearer { token: token.clone() },
            content: Content::Json("{}".to_owned()),
        }
    }
}

/// The body of a reply, as far as the driver could read it.
#[derive(Debug, PartialEq, Eq)]
pub enum Payload<B> {
    /// The connection failed before the body was complete.
    Lost,
    /// The body arrived and is not of the expected shape.
    Malformed,
    /// The body, decoded.
    Parsed(B),
}

impl<B: DeepView> DeepView for Payload<B> {
    type V = Payload<B::V>;

    open spec fn deep_view(&self) -> Payload<B::V> {
        match self {
            Payload::Lost => Payload::Lost,
            Payload::Malformed => Payload::Malformed,
            Payload::Parsed(body) => Payload::Parsed(body.deep_view()),
        }
    }
}

/// What came of one request.
#[derive(Debug, PartialEq, Eq)]
pub enum Reply<B> {
    /// No response: the request failed in transport.
    Unreachable,
    /// A response with its status code and body.
    Answered { status: u16, payload: Payload<B> },
}

impl<B: DeepView> DeepView for Reply<B> {
    type V = Reply<B::V>;

    open spec fn deep_view(&self) -> Reply<B::V> {
        match self {
            Reply::Unreachable => Reply::Unreachable,
            Reply::Answered { status, payload } => Reply::Answered {
                status: *status,
                payload: payload.deep_view(),
            },
        }
    }
}

/// The view of an outcome: that of the value where there is one, the error
/// as it is.
pub open spec fn outcome_view<T: DeepView, E>(outcome: Result<T, E>) -> Result<T::V, E> {
    match outcome {
        Ok(value) => Ok(value.deep_view()),
        Err(error) => Err(error),
    }
}

/// A status in the 2xx class.
pub open spec fn is_success(status: u16) -> bool {
    200 <= status < 300
}

/// Whether a status is in the 2xx class.
pub fn status_is_success(status: u16) -> (yes: bool)
    ensures
        yes == is_success(status),
{
    200 <= status && status < 300
}

/// Why a reply yields no body.
#[derive(Clone, Copy, Debug, PartialEq, Eq, Structural)]
pub enum Fault {
    /// The request or its body was lost in transport.
    Transport,
    /// Upstream answered outside the 2xx class.
    Status,
    /// Upstream answered 204: there is nothing to report.
    NoContent,
    /// The body is not of the expected shape.
    Decode,
}

impl<B> Reply<B> {
    /// Whether upstream answered at all, and within the 2xx class. The body
    /// plays no part.
    pub open spec fn accepted(self) -> bool {
        self matches Reply::Answered { status, .. } && is_success(status)
    }

    /// The decoded body, or the first reason why there is none. The
    /// transport is looked at first, then the status, then the body. With
    /// `empty_is_fault` a 204 counts as a fault of its own, whatever the
    /// body holds.
    pub open spec fn body(self, empty_is_fault: bool) -> Result<B, Fault> {
        match self {
            Reply::Unreachable => Err(Fault::Transport),
            Reply::Answered { status, payload } => if !is_success(status) {
                Err(Fault::Status)
            } else if empty_is_fault && status == 204 {
                Err(Fault::NoContent)
            } else {
                match payload {
                    Payload::Lost => Err(Fault::Transport),
                    Payload::Malformed => Err(Fault::Decode),
                    Payload::Parsed(body) => Ok(body),
                }
            },
        }
    }
}

impl<B: DeepView> Reply<B> {
    /// Whether upstream answered within the 2xx class.
    pub fn is_accepted(&self) -> (yes: bool)
        ensures
            yes == self.deep_view().accepted(),
    {
        match self {
            Reply::Unreachable => false,
            Reply::Answered { status, .. } => status_is_success(*status),
        }
    }

    /// The decoded body where the reply yields one.
    pub fn peek_body(&self, empty_is_fault: bool) -> (body: Option<&B>)
        ensures
            match body {
                Some(b) => self.deep_view().body(empty_is_fault) == Ok::<B::V, Fault>(
                    b.deep_view(),
                ),
                None => self.deep_view().body(empty_is_fault) is Err,
            },
    {
        match self {
            Reply::Answered { status, payload: Payload::Parsed(body) } => {
                if !status_is_success(*status) {
                    None
                } else if empty_is_fault && *status == 204 {
                    None
                } else {
                    Some(body)
                }
            },
            _ => None,
        }
    }

    /// The decoded body, or the first reason why there is none.
    pub fn into_body(self, empty_is_fault: bool) -> (body: Result<B, Fault>)
        ensures
            outcome_view(body) == self.deep_view().body(empty_is_fault),
    {
        match self {
            Reply::Unreachable => Err(Fault::Transport),
            Reply::Answered { status, payload } => {
                if !status_is_success(status) {
                    Err(Fault::Status)
                } else if empty_is_fault && status == 204 {
                    Err(Fault::NoContent)
                } else {
                    match payload {
                        Payload::Lost => Err(Fault::Transport),
                        Payload::Malformed => Err(Fault::Decode),
                        Payload::Parsed(body) => Ok(body),
                    }
                }
            },
        }
    }
}

} // verus!
