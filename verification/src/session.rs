//! What a listener's session goes through: the login at the streaming
//! service, and the requests that the listener sends.

use vstd::prelude::*;
use vstd::string::StringExecFns;
use crate::ids::{SongAnnId, SongID, SpotifyTrackID};
use crate::spotify::{ClientID, ClientSecret, SpotifyToken, State};
use crate::strings::push_char;

verus! {

/// The query of a request for what plays.
#[derive(Debug, Clone, Copy)]
pub struct UpdateParams {
    /// Set to ask for an answer even where the track has not changed.
    pub refresh: Option<bool>,
}

/// The query with which the streaming service calls back after a login.
#[derive(Debug, Clone)]
pub struct CallbackParams {
    pub code: String,
    pub state: State,
}

/// The body of a listener's confirmation that a track is a song.
#[derive(Debug, Clone)]
pub struct ConfirmationParams {
    pub song_id: SongID,
    pub spotify_song_id: SpotifyTrackID,
}

/// The body of a listener's report of a wrong match.
#[derive(Debug, Clone)]
pub struct ReportParams {
    pub track_id: Option<SpotifyTrackID>,
    pub ann_song_id: Option<SongAnnId>,
    pub message: String,
}

/// What the application asks the listener to allow.
pub open spec fn scope() -> Seq<char> {
    "user-read-private user-read-email user-read-playback-state user-read-currently-playing"@
}

/// What the application asks the listener to allow.
pub fn login_scope() -> (r: &'static str)
    ensures
        r@ == scope(),
{
    "user-read-private user-read-email user-read-playback-state user-read-currently-playing"
}

/// The hexadecimal digit for a number below 16, in lower case.
pub open spec fn hex_digit(n: int) -> char {
    if n == 0 {
        '0'
    } else if n == 1 {
        '1'
    } else if n == 2 {
        '2'
    } else if n == 3 {
        '3'
    } else if n == 4 {
        '4'
    } else if n == 5 {
        '5'
    } else if n == 6 {
        '6'
    } else if n == 7 {
        '7'
    } else if n == 8 {
        '8'
    } else if n == 9 {
        '9'
    } else if n == 10 {
        'a'
    } else if n == 11 {
        'b'
    } else if n == 12 {
        'c'
    } else if n == 13 {
        'd'
    } else if n == 14 {
        'e'
    } else {
        'f'
    }
}

/// Some bytes in hexadecimal notation: two digits for each byte, the high
/// half first.
pub open spec fn hex_text(bytes: Seq<u8>) -> Seq<char>
    decreases bytes.len(),
{
    if bytes.len() == 0 {
        Seq::empty()
    } else {
        hex_text(bytes.drop_last()) + seq![
            hex_digit(bytes.last() as int / 16),
            hex_digit(bytes.last() as int % 16),
        ]
    }
}

/// The base64 form, with padding, that the base64 crate gives the UTF-8
/// bytes of a text.
pub uninterp spec fn base64_of(text: Seq<char>) -> Seq<char>;

/// Calls `hex::encode`, which writes each byte as two hexadecimal digits in
/// lower case.
#[verifier::external_body]
fn hex_encode(bytes: &Vec<u8>) -> (r: String)
    ensures
        r@ == hex_text(bytes@),
{
    hex::encode(bytes)
}

/// Calls `Engine::encode` of the base64 crate on its standard engine. The
/// result is named by [`base64_of`].
#[verifier::external_body]
fn base64_encode(text: &str) -> (r: String)
    ensures
        r@ == base64_of(text@),
{
    base64::Engine::encode(&base64::engine::general_purpose::STANDARD, text)
}

/// The value that ties a login to its callback: the random bytes that the
/// caller drew, in hexadecimal notation.
pub fn login_state(random_bytes: &Vec<u8>) -> (r: State)
    ensures
        r.0@ == hex_text(random_bytes@),
{
    State(hex_encode(random_bytes))
}

/// The text that the application's credentials are encoded from: the id, a
/// colon, and the secret.
pub open spec fn credentials(id: Seq<char>, secret: Seq<char>) -> Seq<char> {
    id + seq![':'] + secret
}

/// The authorization header by which the application shows its credentials
/// when it asks for tokens.
pub fn basic_authorization(client_id: &ClientID, client_secret: &ClientSecret) -> (r: String)
    ensures
        r@ == "Basic "@ + base64_of(credentials(client_id.0@, client_secret.0@)),
{
    let mut plain = client_id.0.clone();
    push_char(&mut plain, ':');
    plain.append(client_secret.0.as_str());
    proof {
        assert(plain@ =~= credentials(client_id.0@, client_secret.0@));
    }
    let mut header = "Basic ".to_owned();
    header.append(base64_encode(plain.as_str()).as_str());
    header
}

/// The authorization header by which a request shows a listener's token.
pub fn bearer_authorization(token: &SpotifyToken) -> (r: String)
    ensures
        r@ == "Bearer "@ + token.0@,
{
    let mut header = "Bearer ".to_owned();
    header.append(token.0.as_str());
    header
}

/// The parameters of the address to which a listener is sent to log in, as
/// names and values in their order.
pub fn login_params(client_id: &ClientID, redirect_uri: &str, state: &State) -> (r: Vec<
    (&'static str, String),
>)
    ensures
        r@.len() == 5,
        r@[0].0@ == "client_id"@ && r@[0].1@ == client_id.0@,
        r@[1].0@ == "response_type"@ && r@[1].1@ == "code"@,
        r@[2].0@ == "redirect_uri"@ && r@[2].1@ == redirect_uri@,
        r@[3].0@ == "state"@ && r@[3].1@ == state.0@,
        r@[4].0@ == "scope"@ && r@[4].1@ == scope(),
{
    let mut params: Vec<(&'static str, String)> = Vec::new();
    params.push(("client_id", client_id.0.clone()));
    params.push(("response_type", "code".to_owned()));
    params.push(("redirect_uri", redirect_uri.to_owned()));
    params.push(("state", state.0.clone()));
    params.push(("scope", login_scope().to_owned()));
    params
}

} // verus!
