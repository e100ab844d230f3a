//! What the streaming service reports: the track that plays, access tokens,
//! and the errors of its interface.

use vstd::prelude::*;
use crate::ids::{ImageURL, SpotifyArtistID, SpotifyTrackID};
use crate::strings::str_eq;

verus! {

/// The opaque value that ties a login callback to the login that asked for it.
#[derive(Clone, PartialEq, Eq, PartialOrd, Ord, Debug, Hash)]
pub struct State(pub String);

/// An access or refresh token of the streaming service.
#[derive(Clone, PartialEq, Eq, PartialOrd, Ord, Debug, Hash)]
pub struct SpotifyToken(pub String);

/// The id under which this application is registered with the service.
#[derive(Clone, PartialEq, Eq, PartialOrd, Ord, Debug, Hash)]
pub struct ClientID(pub String);

/// The secret that belongs to the application's id.
#[derive(Clone, PartialEq, Eq, PartialOrd, Ord, Debug, Hash)]
pub struct ClientSecret(pub String);

impl State {
    /// The value as text.
    pub fn to_string(&self) -> (r: String)
        ensures
            r@ == self.0@,
    {
        self.0.clone()
    }

    /// Whether the value that a callback brings is the one that the login
    /// stored. A callback without a stored value never matches.
    pub fn matches(stored: &Option<State>, given: &State) -> (b: bool)
        ensures
            b == match stored {
                Some(s) => s.0@ == given.0@,
                None => false,
            },
    {
        match stored {
            Some(s) => str_eq(s.0.as_str(), given.0.as_str()),
            None => false,
        }
    }
}

impl SpotifyToken {
    /// The token as text.
    pub fn to_string(&self) -> (r: String)
        ensures
            r@ == self.0@,
    {
        self.0.clone()
    }
}

impl ClientID {
    /// The id as text.
    pub fn to_string(&self) -> (r: String)
        ensures
            r@ == self.0@,
    {
        self.0.clone()
    }
}

impl ClientSecret {
    /// The secret as text.
    pub fn to_string(&self) -> (r: String)
        ensures
            r@ == self.0@,
    {
        self.0.clone()
    }
}

/// An artist as the streaming service names one on a track.
#[derive(Clone, Debug)]
pub struct SimplifiedArtist {
    pub id: SpotifyArtistID,
    pub name: String,
}

impl SimplifiedArtist {
    /// A copy of the artist.
    pub fn duplicate(&self) -> (r: SimplifiedArtist)
        ensures
            r == *self,
    {
        SimplifiedArtist { id: self.id.duplicate(), name: self.name.clone() }
    }
}

/// The album of a track, with its cover images.
#[derive(Clone, Debug)]
pub struct Album {
    pub name: String,
    pub images: Vec<ImageURL>,
}

/// A track of the streaming service.
#[derive(Clone, Debug)]
pub struct TrackObject {
    pub album: Album,
    pub artists: Vec<SimplifiedArtist>,
    pub id: SpotifyTrackID,
    pub name: String,
}

/// What a playback report holds: a track, or a podcast episode.
#[derive(Clone, Debug)]
pub enum Item {
    TrackObject(TrackObject),
    EpisodeObject,
}

/// The body of a playback report.
#[derive(Clone, Debug)]
pub struct Response {
    pub item: Item,
}

/// What a user's session plays: a track, a podcast episode, or nothing. Only
/// a track is looked up in the catalog.
#[derive(Clone, Debug)]
pub enum CurrentlyPlaying {
    Track(TrackObject),
    Episode,
    Nothing,
}

/// The tokens that the service hands out. `expires_in` is the lifetime in
/// seconds as the service sends it, and the time of expiry in seconds since
/// the epoch once the session has stored the tokens.
#[derive(Clone, Debug)]
pub struct TokenResponse {
    pub access_token: SpotifyToken,
    pub refresh_token: Option<SpotifyToken>,
    pub expires_in: u64,
}

/// An error as the streaming service describes it.
#[derive(Clone, Debug)]
pub struct SpotifyError {
    pub status: u16,
    pub message: String,
}

/// What can go wrong when the streaming service is asked.
#[derive(Clone, Debug)]
pub enum Error {
    /// The service described the error itself.
    SpotifyError(SpotifyError),
    /// An answer could not be read.
    ParseError(String),
    /// Status 429: too many requests.
    RateLimited,
    /// Status 403.
    Forbidden,
    /// Status 401.
    UnAuthorized,
    /// A success status where none was expected.
    UnrecognisedSuccess,
}

/// Whether `status` is one of the success codes 200 to 299.
pub open spec fn is_success(status: u16) -> bool {
    200 <= status < 300
}

/// What the status of a playback report asks for.
#[derive(Clone, Copy, Debug, PartialEq, Eq, Structural)]
pub enum PlaybackStatus {
    /// Status 204: nothing plays.
    Nothing,
    /// Status 200: the body names what plays.
    ReadItem,
    /// Any other status: an error.
    Failed,
}

/// Sorts the status of a playback report.
pub fn playback_status(status: u16) -> (r: PlaybackStatus)
    ensures
        r == if status == 204 {
            PlaybackStatus::Nothing
        } else if status == 200 {
            PlaybackStatus::ReadItem
        } else {
            PlaybackStatus::Failed
        },
{
    if status == 204 {
        PlaybackStatus::Nothing
    } else if status == 200 {
        PlaybackStatus::ReadItem
    } else {
        PlaybackStatus::Failed
    }
}

/// What a session plays, by the item of its playback report.
pub fn currently_playing(item: Item) -> (r: CurrentlyPlaying)
    ensures
        r == match item {
            Item::TrackObject(t) => CurrentlyPlaying::Track(t),
            Item::EpisodeObject => CurrentlyPlaying::Episode,
        },
{
    match item {
        Item::TrackObject(t) => CurrentlyPlaying::Track(t),
        Item::EpisodeObject => CurrentlyPlaying::Episode,
    }
}

/// The error that a failed request stands for. The statuses 429, 403 and 401
/// have errors of their own, a success status is an unrecognised success,
/// and any other status carries the service's description, or a description
/// made up from the status where the service sent none that could be read.
pub fn handle_error_status(status: u16, described: Option<SpotifyError>) -> (r: Error)
    ensures
        status == 429 ==> r is RateLimited,
        status == 403 ==> r is Forbidden,
        status == 401 ==> r is UnAuthorized,
        is_success(status) ==> r is UnrecognisedSuccess,
        status != 429 && status != 403 && status != 401 && !is_success(status) ==> r is SpotifyError
            && match described {
            Some(e) => r->SpotifyError_0 == e,
            None => r->SpotifyError_0.status == status && r->SpotifyError_0.message@
                == "Couldn't parse spotify Error"@,
        },
{
    if status == 429 {
        Error::RateLimited
    } else if status == 403 {
        Error::Forbidden
    } else if status == 401 {
        Error::UnAuthorized
    } else if 200 <= status && status < 300 {
        Error::UnrecognisedSuccess
    } else {
        match described {
            Some(e) => Error::SpotifyError(e),
            None => Error::SpotifyError(
                SpotifyError { status, message: "Couldn't parse spotify Error".to_owned() },
            ),
        }
    }
}

/// The time at which tokens expire that were received at `now` with a
/// lifetime of `lifetime` seconds. A time beyond the range of the clock
/// stands for never.
pub fn expiry_time(now: u64, lifetime: u64) -> (r: u64)
    ensures
        r == if now + lifetime <= u64::MAX {
            (now + lifetime) as u64
        } else {
            u64::MAX
        },
{
    if lifetime <= u64::MAX - now {
        now + lifetime
    } else {
        u64::MAX
    }
}

/// What to do with the tokens of a session before a protected call.
#[derive(Clone, Debug)]
pub enum TokenDecision {
    /// No tokens are stored: the user has to log in.
    LoginRequired,
    /// The stored tokens are to be used as they are.
    Use(TokenResponse),
    /// The access token has expired: ask for a new one with this refresh
    /// token, once.
    Refresh(SpotifyToken),
}

/// Decides what to do with the stored tokens at the time `now`. Tokens that
/// have not expired are used; expired tokens are refreshed where a refresh
/// token is stored, and used as they are where none is.
pub fn check_token(stored: Option<TokenResponse>, now: u64) -> (r: TokenDecision)
    ensures
        match stored {
            None => r is LoginRequired,
            Some(t) => if t.expires_in < now && t.refresh_token is Some {
                r == TokenDecision::Refresh(t.refresh_token->0)
            } else {
                r == TokenDecision::Use(t)
            },
        },
{
    match stored {
        None => TokenDecision::LoginRequired,
        Some(t) => {
            if t.expires_in < now {
                match t.refresh_token {
                    Some(refresh) => TokenDecision::Refresh(refresh),
                    None => TokenDecision::Use(
                        TokenResponse {
                            access_token: t.access_token,
                            refresh_token: None,
                            expires_in: t.expires_in,
                        },
                    ),
                }
            } else {
                TokenDecision::Use(t)
            }
        },
    }
}

} // verus!
