//! Identifiers and small values shared by every part of the catalog. Each
//! kind of identifier is a type of its own, so that an internal song id, a
//! song id of the song database and a streaming track id cannot be confused.

use vstd::prelude::*;
use crate::strings::str_eq;

verus! {

/// Identifies an anime in the anime graph.
#[derive(Clone, Copy, PartialEq, Eq, PartialOrd, Ord, Debug, Hash)]
pub struct AnilistAnimeID(pub i32);

/// Identifies an anime on MyAnimeList.
#[derive(Clone, Copy, PartialEq, Eq, PartialOrd, Ord, Debug, Hash)]
pub struct MyAnimeListAnimeID(pub i32);

/// Identifies an anime on AniDB.
#[derive(Clone, Copy, PartialEq, Eq, PartialOrd, Ord, Debug, Hash)]
pub struct AniDBAnimeID(pub i32);

/// Identifies an anime on Kitsu.
#[derive(Clone, Copy, PartialEq, Eq, PartialOrd, Ord, Debug, Hash)]
pub struct KitsuAnimeID(pub i32);

/// Identifies an anime on Anime News Network: the key of the catalog's anime.
#[derive(Clone, Copy, PartialEq, Eq, PartialOrd, Ord, Debug, Hash)]
pub struct AnnAnimeID(pub i32);

/// Identifies an artist in the song database.
#[derive(Clone, Copy, PartialEq, Eq, PartialOrd, Ord, Debug, Hash)]
pub struct AnisongArtistID(pub i32);

/// Identifies a song in the song database; not the catalog's own song id.
#[derive(Clone, Copy, PartialEq, Eq, PartialOrd, Ord, Debug, Hash)]
pub struct SongAnnId(pub i32);

/// The catalog's own song id, allocated when a song is first stored.
#[derive(Clone, Copy, PartialEq, Eq, PartialOrd, Ord, Debug, Hash)]
pub struct SongID(pub i32);

/// Identifies a tag of the anime graph.
#[derive(Clone, Copy, PartialEq, Eq, PartialOrd, Ord, Debug, Hash)]
pub struct TagID(pub i32);

/// Identifies a track of the streaming service.
#[derive(Clone, PartialEq, Eq, PartialOrd, Ord, Debug, Hash)]
pub struct SpotifyTrackID(pub String);

/// Identifies an artist of the streaming service.
#[derive(Clone, PartialEq, Eq, PartialOrd, Ord, Debug, Hash)]
pub struct SpotifyArtistID(pub String);

/// Identifies a user of the streaming service.
#[derive(Clone, PartialEq, Eq, PartialOrd, Ord, Debug, Hash)]
pub struct SpotifyUserID(pub String);

/// A web address.
#[derive(Clone, PartialEq, Eq, PartialOrd, Ord, Debug, Hash)]
pub struct URL(pub String);

/// The web address of an image.
#[derive(Clone, PartialEq, Eq, PartialOrd, Ord, Debug, Hash)]
pub struct ImageURL(pub URL);

/// A colour in hexadecimal notation.
#[derive(Clone, PartialEq, Eq, PartialOrd, Ord, Debug, Hash)]
pub struct HexColor(pub String);

/// A number with a fractional part, carried as the 64 bits of its IEEE 754
/// binary form. The catalog stores and hands on such values and never
/// computes with them.
#[derive(Clone, Copy, PartialEq, Eq, Debug, Hash)]
pub struct Fraction(pub u64);

/// A user of the streaming service.
#[derive(Debug, Clone)]
pub struct SpotifyUser {
    pub display_name: Option<String>,
    pub email: Option<String>,
    pub id: SpotifyUserID,
}

impl SpotifyTrackID {
    /// The identifier as text.
    pub fn to_string(&self) -> (r: String)
        ensures
            r@ == self.0@,
    {
        self.0.clone()
    }

    /// Whether two identifiers name the same track.
    pub fn same(&self, other: &SpotifyTrackID) -> (b: bool)
        ensures
            b == (self.0@ == other.0@),
    {
        str_eq(self.0.as_str(), other.0.as_str())
    }

    /// A copy of the identifier.
    pub fn duplicate(&self) -> (r: SpotifyTrackID)
        ensures
            r == *self,
    {
        SpotifyTrackID(self.0.clone())
    }
}

impl SpotifyArtistID {
    /// Whether two identifiers name the same artist.
    pub fn same(&self, other: &SpotifyArtistID) -> (b: bool)
        ensures
            b == (self.0@ == other.0@),
    {
        str_eq(self.0.as_str(), other.0.as_str())
    }

    /// A copy of the identifier.
    pub fn duplicate(&self) -> (r: SpotifyArtistID)
        ensures
            r == *self,
    {
        SpotifyArtistID(self.0.clone())
    }
}

impl URL {
    /// A copy of the address.
    pub fn duplicate(&self) -> (r: URL)
        ensures
            r == *self,
    {
        URL(self.0.clone())
    }
}

impl ImageURL {
    /// A copy of the address.
    pub fn duplicate(&self) -> (r: ImageURL)
        ensures
            r == *self,
    {
        ImageURL(self.0.duplicate())
    }
}

impl HexColor {
    /// A copy of the colour.
    pub fn duplicate(&self) -> (r: HexColor)
        ensures
            r == *self,
    {
        HexColor(self.0.clone())
    }
}

/// A copy of an optional string.
pub fn duplicate_text(s: &Option<String>) -> (r: Option<String>)
    ensures
        r == *s,
{
    match s {
        Some(t) => Some(t.clone()),
        None => None,
    }
}

/// A copy of an optional image address.
pub fn duplicate_image(s: &Option<ImageURL>) -> (r: Option<ImageURL>)
    ensures
        r == *s,
{
    match s {
        Some(t) => Some(t.duplicate()),
        None => None,
    }
}

} // verus!
