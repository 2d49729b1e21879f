//! Decision core of a small service that relays a listener's Spotify playback:
//! what is playing now, the listener's top tracks, and transport commands.
//!
//! The library never touches the network. Each operation is a step function
//! on the client's state ([`Spot`]): given an event, it answers with the
//! request to send next or with the operation's outcome. A driver sends the
//! requests and reports the replies. What the steps do is stated once, over
//! mathematical views of the state, in `current_song`, `top_songs`, `player`
//! and `spot`; `laws` holds what follows for every state.

pub mod cache;
pub mod command;
pub mod current_song;
pub mod laws;
pub mod player;
pub mod spot;
pub mod step;
pub mod surface;
pub mod time;
pub mod token;
pub mod top_songs;
pub mod track;
pub mod wire;

pub use crate::command::MediaState;
pub use crate::spot::Spot;
pub use crate::track::{Album, Artist, CurrentSong, Item, TopItems};
