//! The records of the song database: an anime, a song and the bind between
//! them, with the artists who perform, compose and arrange.

use vstd::prelude::*;
use crate::error::Error;
use crate::ids::{
    AniDBAnimeID, AnilistAnimeID, AnisongArtistID, AnnAnimeID, Fraction, KitsuAnimeID,
    MyAnimeListAnimeID, SongAnnId,
};
use crate::grammar::{
    int_from_str, parsed_i32, split_entry, split_entry_string, split_number, split_string,
};
use crate::season::{Release, ReleaseSeason};
use crate::strings::str_eq;

verus! {

/// The release form of an anime, as the song database files it.
#[derive(Debug, Clone, Copy, PartialEq, Eq, Structural)]
pub enum AnimeType {
    TV,
    Movie,
    OVA,
    ONA,
    Special,
    Unknown,
}

impl AnimeType {
    /// The name under which the catalog stores the value.
    pub open spec fn stored_name(self) -> Seq<char> {
        match self {
            AnimeType::TV => "tv"@,
            AnimeType::Movie => "movie"@,
            AnimeType::OVA => "ova"@,
            AnimeType::ONA => "ona"@,
            AnimeType::Special => "special"@,
            AnimeType::Unknown => "unknown"@,
        }
    }

    /// The value that a stored name stands for.
    pub open spec fn of_stored_name(s: Seq<char>) -> Option<AnimeType> {
        if s == "tv"@ {
            Some(AnimeType::TV)
        }         else if s == "movie"@ {
            Some(AnimeType::Movie)
        }         else if s == "ova"@ {
            Some(AnimeType::OVA)
        }         else if s == "ona"@ {
            Some(AnimeType::ONA)
        }         else if s == "special"@ {
            Some(AnimeType::Special)
        } else {
            Some(AnimeType::Unknown)
        }
    }

    /// The name of the catalog's column type for this kind of value.
    pub fn type_info() -> (r: &'static str)
        ensures
            r@ == "anime_type"@,
    {
        "anime_type"
    }

    /// Gives the name under which the catalog stores the value.
    pub fn encode_by_ref(&self) -> (r: &'static str)
        ensures
            r@ == self.stored_name(),
    {
        match self {
            AnimeType::TV => "tv",
            AnimeType::Movie => "movie",
            AnimeType::OVA => "ova",
            AnimeType::ONA => "ona",
            AnimeType::Special => "special",
            AnimeType::Unknown => "unknown",
        }
    }

    /// Reads a stored name; a name that the catalog does not know reads as
    /// `Unknown`.
    pub fn decode(s: &str) -> (r: AnimeType)
        ensures
            Some(r) == Self::of_stored_name(s@),
    {
        if str_eq(s, "tv") {
            AnimeType::TV
        }         else if str_eq(s, "movie") {
            AnimeType::Movie
        }         else if str_eq(s, "ova") {
            AnimeType::OVA
        }         else if str_eq(s, "ona") {
            AnimeType::ONA
        }         else if str_eq(s, "special") {
            AnimeType::Special
        } else {
            AnimeType::Unknown
        }
    }

    /// Reading the stored name of a value gives the value back.
    pub proof fn lemma_stored_name_round_trip(value: AnimeType)
        ensures
            Self::of_stored_name(value.stored_name()) == Some(value),
    {
        reveal_strlit("tv");
        assert("tv"@.len() == 2 && "tv"@[0] == 't' && "tv"@[1] == 'v');
        reveal_strlit("movie");
        assert("movie"@.len() == 5 && "movie"@[0] == 'm' && "movie"@[1] == 'o' &&
            "movie"@[2] == 'v' && "movie"@[3] == 'i' && "movie"@[4] == 'e');
        reveal_strlit("ova");
        assert("ova"@.len() == 3 && "ova"@[0] == 'o' && "ova"@[1] == 'v' && "ova"@[2] == 'a');
        reveal_strlit("ona");
        assert("ona"@.len() == 3 && "ona"@[0] == 'o' && "ona"@[1] == 'n' && "ona"@[2] == 'a');
        reveal_strlit("special");
        assert("special"@.len() == 7 && "special"@[0] == 's' && "special"@[1] == 'p' &&
            "special"@[2] == 'e' && "special"@[3] == 'c' && "special"@[4] == 'i' &&
            "special"@[5] == 'a' && "special"@[6] == 'l');
        reveal_strlit("unknown");
        assert("unknown"@.len() == 7 && "unknown"@[0] == 'u' && "unknown"@[1] == 'n' &&
            "unknown"@[2] == 'k' && "unknown"@[3] == 'n' && "unknown"@[4] == 'o' &&
            "unknown"@[5] == 'w' && "unknown"@[6] == 'n');
    }
}

/// The kind of entry that an anime is within its franchise. The catalog has
/// always stored `OVA` under the name `ona` and `ONA` under the name `ova`;
/// reading and writing agree on that.
#[derive(Debug, Clone, Copy, PartialEq, Eq, Structural)]
pub enum AnimeIndexType {
    Season,
    Movie,
    ONA,
    OVA,
    TVSpecial,
    Special,
    MusicVideo,
    Unknown,
}

impl AnimeIndexType {
    /// The name under which the catalog stores the value.
    pub open spec fn stored_name(self) -> Seq<char> {
        match self {
            AnimeIndexType::Season => "season"@,
            AnimeIndexType::Movie => "movie"@,
            AnimeIndexType::OVA => "ona"@,
            AnimeIndexType::ONA => "ova"@,
            AnimeIndexType::TVSpecial => "tv_special"@,
            AnimeIndexType::Special => "special"@,
            AnimeIndexType::MusicVideo => "music_video"@,
            AnimeIndexType::Unknown => "unknown"@,
        }
    }

    /// The value that a stored name stands for.
    pub open spec fn of_stored_name(s: Seq<char>) -> Option<AnimeIndexType> {
        if s == "season"@ {
            Some(AnimeIndexType::Season)
        }         else if s == "movie"@ {
            Some(AnimeIndexType::Movie)
        }         else if s == "ona"@ {
            Some(AnimeIndexType::OVA)
        }         else if s == "ova"@ {
            Some(AnimeIndexType::ONA)
        }         else if s == "tv_special"@ {
            Some(AnimeIndexType::TVSpecial)
        }         else if s == "special"@ {
            Some(AnimeIndexType::Special)
        }         else if s == "music_video"@ {
            Some(AnimeIndexType::MusicVideo)
        } else {
            Some(AnimeIndexType::Unknown)
        }
    }

    /// The name of the catalog's column type for this kind of value.
    pub fn type_info() -> (r: &'static str)
        ensures
            r@ == "anime_index_type"@,
    {
        "anime_index_type"
    }

    /// Gives the name under which the catalog stores the value.
    pub fn encode_by_ref(&self) -> (r: &'static str)
        ensures
            r@ == self.stored_name(),
    {
        match self {
            AnimeIndexType::Season => "season",
            AnimeIndexType::Movie => "movie",
            AnimeIndexType::OVA => "ona",
            AnimeIndexType::ONA => "ova",
            AnimeIndexType::TVSpecial => "tv_special",
            AnimeIndexType::Special => "special",
            AnimeIndexType::MusicVideo => "music_video",
            AnimeIndexType::Unknown => "unknown",
        }
    }

    /// Reads a stored name; a name that the catalog does not know reads as
    /// `Unknown`.
    pub fn decode(s: &str) -> (r: AnimeIndexType)
        ensures
            Some(r) == Self::of_stored_name(s@),
    {
        if str_eq(s, "season") {
            AnimeIndexType::Season
        }         else if str_eq(s, "movie") {
            AnimeIndexType::Movie
        }         else if str_eq(s, "ona") {
            AnimeIndexType::OVA
        }         else if str_eq(s, "ova") {
            AnimeIndexType::ONA
        }         else if str_eq(s, "tv_special") {
            AnimeIndexType::TVSpecial
        }         else if str_eq(s, "special") {
            AnimeIndexType::Special
        }         else if str_eq(s, "music_video") {
            AnimeIndexType::MusicVideo
        } else {
            AnimeIndexType::Unknown
        }
    }

    /// Reading the stored name of a value gives the value back.
    pub proof fn lemma_stored_name_round_trip(value: AnimeIndexType)
        ensures
            Self::of_stored_name(value.stored_name()) == Some(value),
    {
        reveal_strlit("season");
        assert("season"@.len() == 6 && "season"@[0] == 's' && "season"@[1] == 'e' &&
            "season"@[2] == 'a' && "season"@[3] == 's' && "season"@[4] == 'o' &&
            "season"@[5] == 'n');
        reveal_strlit("movie");
        assert("movie"@.len() == 5 && "movie"@[0] == 'm' && "movie"@[1] == 'o' &&
            "movie"@[2] == 'v' && "movie"@[3] == 'i' && "movie"@[4] == 'e');
        reveal_strlit("ona");
        assert("ona"@.len() == 3 && "ona"@[0] == 'o' && "ona"@[1] == 'n' && "ona"@[2] == 'a');
        reveal_strlit("ova");
        assert("ova"@.len() == 3 && "ova"@[0] == 'o' && "ova"@[1] == 'v' && "ova"@[2] == 'a');
        reveal_strlit("tv_special");
        assert("tv_special"@.len() == 10 && "tv_special"@[0] == 't' && "tv_special"@[1] == 'v' &&
            "tv_special"@[2] == '_' && "tv_special"@[3] == 's' && "tv_special"@[4] == 'p' &&
            "tv_special"@[5] == 'e' && "tv_special"@[6] == 'c' && "tv_special"@[7] == 'i' &&
            "tv_special"@[8] == 'a' && "tv_special"@[9] == 'l');
        reveal_strlit("special");
        assert("special"@.len() == 7 && "special"@[0] == 's' && "special"@[1] == 'p' &&
            "special"@[2] == 'e' && "special"@[3] == 'c' && "special"@[4] == 'i' &&
            "special"@[5] == 'a' && "special"@[6] == 'l');
        reveal_strlit("music_video");
        assert("music_video"@.len() == 11 && "music_video"@[0] == 'm' &&
            "music_video"@[1] == 'u' && "music_video"@[2] == 's' && "music_video"@[3] == 'i' &&
            "music_video"@[4] == 'c' && "music_video"@[5] == '_' && "music_video"@[6] == 'v' &&
            "music_video"@[7] == 'i' && "music_video"@[8] == 'd' && "music_video"@[9] == 'e' &&
            "music_video"@[10] == 'o');
        reveal_strlit("unknown");
        assert("unknown"@.len() == 7 && "unknown"@[0] == 'u' && "unknown"@[1] == 'n' &&
            "unknown"@[2] == 'k' && "unknown"@[3] == 'n' && "unknown"@[4] == 'o' &&
            "unknown"@[5] == 'w' && "unknown"@[6] == 'n');
    }

    /// The kind that a name of the song database stands for; `Unknown` for
    /// any other text.
    pub open spec fn of_feed_name(s: Seq<char>) -> AnimeIndexType {
        if s == "TV"@ || s == "Season"@ {
            AnimeIndexType::Season
        } else if s == "Movie"@ {
            AnimeIndexType::Movie
        } else if s == "ONA"@ {
            AnimeIndexType::ONA
        } else if s == "OVA"@ {
            AnimeIndexType::OVA
        } else if s == "TV Special"@ {
            AnimeIndexType::TVSpecial
        } else if s == "Special"@ {
            AnimeIndexType::Special
        } else if s == "Music Video"@ {
            AnimeIndexType::MusicVideo
        } else {
            AnimeIndexType::Unknown
        }
    }

    /// Reads a kind as the song database names it; any other text reads as
    /// `Unknown`.
    pub fn from_str(s: &str) -> (r: AnimeIndexType)
        ensures
            r == Self::of_feed_name(s@),
    {
        if str_eq(s, "TV") || str_eq(s, "Season") {
            AnimeIndexType::Season
        } else if str_eq(s, "Movie") {
            AnimeIndexType::Movie
        } else if str_eq(s, "ONA") {
            AnimeIndexType::ONA
        } else if str_eq(s, "OVA") {
            AnimeIndexType::OVA
        } else if str_eq(s, "TV Special") {
            AnimeIndexType::TVSpecial
        } else if str_eq(s, "Special") {
            AnimeIndexType::Special
        } else if str_eq(s, "Music Video") {
            AnimeIndexType::MusicVideo
        } else {
            AnimeIndexType::Unknown
        }
    }
}

/// The role of a song in an anime.
#[derive(Debug, Clone, Copy, PartialEq, Eq, Structural)]
pub enum SongIndexType {
    Opening,
    Insert,
    Ending,
}

impl SongIndexType {
    /// The name under which the catalog stores the value.
    pub open spec fn stored_name(self) -> Seq<char> {
        match self {
            SongIndexType::Opening => "opening"@,
            SongIndexType::Insert => "insert"@,
            SongIndexType::Ending => "ending"@,
        }
    }

    /// The value that a stored name stands for.
    pub open spec fn of_stored_name(s: Seq<char>) -> Option<SongIndexType> {
        if s == "opening"@ {
            Some(SongIndexType::Opening)
        }         else if s == "insert"@ {
            Some(SongIndexType::Insert)
        }         else if s == "ending"@ {
            Some(SongIndexType::Ending)
        } else {
            None
        }
    }

    /// The name of the catalog's column type for this kind of value.
    pub fn type_info() -> (r: &'static str)
        ensures
            r@ == "song_index_type"@,
    {
        "song_index_type"
    }

    /// Gives the name under which the catalog stores the value.
    pub fn encode_by_ref(&self) -> (r: &'static str)
        ensures
            r@ == self.stored_name(),
    {
        match self {
            SongIndexType::Opening => "opening",
            SongIndexType::Insert => "insert",
            SongIndexType::Ending => "ending",
        }
    }

    /// Reads a stored name; a name that the catalog does not know is an error
    /// that carries the name.
    pub fn decode(s: &str) -> (r: Result<SongIndexType, Error>)
        ensures
            r is Ok <==> Self::of_stored_name(s@) is Some,
            r is Ok ==> Some(r->Ok_0) == Self::of_stored_name(s@),
            r is Err ==> r->Err_0.is_parse_error_of(s@),
    {
        if str_eq(s, "opening") {
            Ok(SongIndexType::Opening)
        }         else if str_eq(s, "insert") {
            Ok(SongIndexType::Insert)
        }         else if str_eq(s, "ending") {
            Ok(SongIndexType::Ending)
        } else {
            Err(Error::ParseError(s.to_owned()))
        }
    }

    /// Reading the stored name of a value gives the value back.
    pub proof fn lemma_stored_name_round_trip(value: SongIndexType)
        ensures
            Self::of_stored_name(value.stored_name()) == Some(value),
    {
        reveal_strlit("opening");
        assert("opening"@.len() == 7 && "opening"@[0] == 'o' && "opening"@[1] == 'p' &&
            "opening"@[2] == 'e' && "opening"@[3] == 'n' && "opening"@[4] == 'i' &&
            "opening"@[5] == 'n' && "opening"@[6] == 'g');
        reveal_strlit("insert");
        assert("insert"@.len() == 6 && "insert"@[0] == 'i' && "insert"@[1] == 'n' &&
            "insert"@[2] == 's' && "insert"@[3] == 'e' && "insert"@[4] == 'r' &&
            "insert"@[5] == 't');
        reveal_strlit("ending");
        assert("ending"@.len() == 6 && "ending"@[0] == 'e' && "ending"@[1] == 'n' &&
            "ending"@[2] == 'd' && "ending"@[3] == 'i' && "ending"@[4] == 'n' &&
            "ending"@[5] == 'g');
    }

    /// The role that a name of the song database stands for.
    pub open spec fn of_feed_name(s: Seq<char>) -> Option<SongIndexType> {
        if s == "Opening"@ {
            Some(SongIndexType::Opening)
        } else if s == "Insert Song"@ {
            Some(SongIndexType::Insert)
        } else if s == "Ending"@ {
            Some(SongIndexType::Ending)
        } else {
            None
        }
    }

    /// Reads a role as the song database names it; any other text is a parse
    /// error that carries the text.
    pub fn from_str(s: &str) -> (r: Result<SongIndexType, Error>)
        ensures
            r is Ok <==> Self::of_feed_name(s@) is Some,
            r is Ok ==> Some(r->Ok_0) == Self::of_feed_name(s@),
            r is Err ==> r->Err_0.is_parse_error_of(s@),
    {
        if str_eq(s, "Opening") {
            Ok(SongIndexType::Opening)
        } else if str_eq(s, "Insert Song") {
            Ok(SongIndexType::Insert)
        } else if str_eq(s, "Ending") {
            Ok(SongIndexType::Ending)
        } else {
            Err(Error::ParseError(s.to_owned()))
        }
    }
}

/// The category of a song.
#[derive(Debug, Clone, Copy, PartialEq, Eq, Structural)]
pub enum SongCategory {
    Standard,
    Character,
    Chanting,
    Instrumental,
    NoCategory,
}

impl SongCategory {
    /// The name under which the catalog stores the value.
    pub open spec fn stored_name(self) -> Seq<char> {
        match self {
            SongCategory::Standard => "standard"@,
            SongCategory::Character => "character"@,
            SongCategory::Chanting => "chanting"@,
            SongCategory::Instrumental => "instrumental"@,
            SongCategory::NoCategory => "no_category"@,
        }
    }

    /// The value that a stored name stands for.
    pub open spec fn of_stored_name(s: Seq<char>) -> Option<SongCategory> {
        if s == "standard"@ {
            Some(SongCategory::Standard)
        }         else if s == "character"@ {
            Some(SongCategory::Character)
        }         else if s == "chanting"@ {
            Some(SongCategory::Chanting)
        }         else if s == "instrumental"@ {
            Some(SongCategory::Instrumental)
        } else {
            Some(SongCategory::NoCategory)
        }
    }

    /// The name of the catalog's column type for this kind of value.
    pub fn type_info() -> (r: &'static str)
        ensures
            r@ == "song_category"@,
    {
        "song_category"
    }

    /// Gives the name under which the catalog stores the value.
    pub fn encode_by_ref(&self) -> (r: &'static str)
        ensures
            r@ == self.stored_name(),
    {
        match self {
            SongCategory::Standard => "standard",
            SongCategory::Character => "character",
            SongCategory::Chanting => "chanting",
            SongCategory::Instrumental => "instrumental",
            SongCategory::NoCategory => "no_category",
        }
    }

    /// Reads a stored name; a name that the catalog does not know reads as
    /// `NoCategory`.
    pub fn decode(s: &str) -> (r: SongCategory)
        ensures
            Some(r) == Self::of_stored_name(s@),
    {
        if str_eq(s, "standard") {
            SongCategory::Standard
        }         else if str_eq(s, "character") {
            SongCategory::Character
        }         else if str_eq(s, "chanting") {
            SongCategory::Chanting
        }         else if str_eq(s, "instrumental") {
            SongCategory::Instrumental
        } else {
            SongCategory::NoCategory
        }
    }

    /// Reading the stored name of a value gives the value back.
    pub proof fn lemma_stored_name_round_trip(value: SongCategory)
        ensures
            Self::of_stored_name(value.stored_name()) == Some(value),
    {
        reveal_strlit("standard");
        assert("standard"@.len() == 8 && "standard"@[0] == 's' && "standard"@[1] == 't' &&
            "standard"@[2] == 'a' && "standard"@[3] == 'n' && "standard"@[4] == 'd' &&
            "standard"@[5] == 'a' && "standard"@[6] == 'r' && "standard"@[7] == 'd');
        reveal_strlit("character");
        assert("character"@.len() == 9 && "character"@[0] == 'c' && "character"@[1] == 'h' &&
            "character"@[2] == 'a' && "character"@[3] == 'r' && "character"@[4] == 'a' &&
            "character"@[5] == 'c' && "character"@[6] == 't' && "character"@[7] == 'e' &&
            "character"@[8] == 'r');
        reveal_strlit("chanting");
        assert("chanting"@.len() == 8 && "chanting"@[0] == 'c' && "chanting"@[1] == 'h' &&
            "chanting"@[2] == 'a' && "chanting"@[3] == 'n' && "chanting"@[4] == 't' &&
            "chanting"@[5] == 'i' && "chanting"@[6] == 'n' && "chanting"@[7] == 'g');
        reveal_strlit("instrumental");
        assert("instrumental"@.len() == 12 && "instrumental"@[0] == 'i' &&
            "instrumental"@[1] == 'n' && "instrumental"@[2] == 's' &&
            "instrumental"@[3] == 't' && "instrumental"@[4] == 'r' &&
            "instrumental"@[5] == 'u' && "instrumental"@[6] == 'm' &&
            "instrumental"@[7] == 'e' && "instrumental"@[8] == 'n' &&
            "instrumental"@[9] == 't' && "instrumental"@[10] == 'a' &&
            "instrumental"@[11] == 'l');
        reveal_strlit("no_category");
        assert("no_category"@.len() == 11 && "no_category"@[0] == 'n' &&
            "no_category"@[1] == 'o' && "no_category"@[2] == '_' && "no_category"@[3] == 'c' &&
            "no_category"@[4] == 'a' && "no_category"@[5] == 't' && "no_category"@[6] == 'e' &&
            "no_category"@[7] == 'g' && "no_category"@[8] == 'o' && "no_category"@[9] == 'r' &&
            "no_category"@[10] == 'y');
    }

    /// The category that a capitalised name of the song database stands for;
    /// `NoCategory` for any other text.
    pub open spec fn of_feed_name(s: Seq<char>) -> SongCategory {
        if s == "Standard"@ {
            SongCategory::Standard
        } else if s == "Character"@ {
            SongCategory::Character
        } else if s == "Chanting"@ {
            SongCategory::Chanting
        } else if s == "Instrumental"@ {
            SongCategory::Instrumental
        } else {
            SongCategory::NoCategory
        }
    }

    /// Reads a category as the song database names it. A missing or unknown
    /// name reads as `NoCategory`.
    pub fn from_feed(name: Option<&str>) -> (r: SongCategory)
        ensures
            r == match name {
                Some(s) => Self::of_feed_name(s@),
                None => SongCategory::NoCategory,
            },
    {
        match name {
            Some(s) => {
                if str_eq(s, "Standard") {
                    SongCategory::Standard
                } else if str_eq(s, "Character") {
                    SongCategory::Character
                } else if str_eq(s, "Chanting") {
                    SongCategory::Chanting
                } else if str_eq(s, "Instrumental") {
                    SongCategory::Instrumental
                } else {
                    SongCategory::NoCategory
                }
            },
            None => SongCategory::NoCategory,
        }
    }

    /// Reads a category from its stored name. This never fails: an unknown
    /// name reads as `NoCategory`.
    pub fn from_str(s: &str) -> (r: Result<SongCategory, Error>)
        ensures
            r is Ok,
            Some(r->Ok_0) == Self::of_stored_name(s@),
    {
        Ok(Self::decode(s))
    }
}

/// The ids under which other sites list an anime.
#[derive(Debug, Clone, Copy, PartialEq, Eq)]
pub struct AnimeListLinks {
    pub myanimelist: Option<MyAnimeListAnimeID>,
    pub anidb: Option<AniDBAnimeID>,
    pub anilist: Option<AnilistAnimeID>,
    pub kitsu: Option<KitsuAnimeID>,
}

/// The place of an anime within its franchise: the kind of entry, its
/// number, and which part of a split entry it is.
#[derive(Debug, Clone, Copy, PartialEq, Eq)]
pub struct AnimeIndex {
    pub index_type: AnimeIndexType,
    pub number: i32,
    pub part: i16,
}

/// The place of a song within an anime: its role and its number.
#[derive(Debug, Clone, Copy, PartialEq, Eq)]
pub struct SongIndex {
    pub index_type: SongIndexType,
    pub number: i32,
}

/// An anime as the song database describes it.
#[derive(Debug, Clone)]
pub struct AnisongAnime {
    pub ann_id: AnnAnimeID,
    pub eng_name: String,
    pub jpn_name: String,
    pub alt_name: Vec<String>,
    pub vintage: Option<Release>,
    pub linked_ids: AnimeListLinks,
    pub anime_type: Option<AnimeType>,
    pub anime_index: AnimeIndex,
}

/// An artist as another artist's record embeds it: a group that the artist
/// belongs to, or a member of the artist. The embedding goes one level deep.
#[derive(Debug, Clone)]
pub struct RelatedArtist {
    pub id: AnisongArtistID,
    pub names: Vec<String>,
    pub line_up_id: Option<i32>,
}

/// An artist of the song database, with the groups that the artist belongs
/// to and, for a group, its members.
#[derive(Debug, Clone)]
pub struct Artist {
    pub id: AnisongArtistID,
    pub names: Vec<String>,
    pub line_up_id: Option<i32>,
    pub groups: Vec<RelatedArtist>,
    pub members: Vec<RelatedArtist>,
}

/// A song as the song database describes it.
#[derive(Debug, Clone)]
pub struct AnisongSong {
    pub name: String,
    pub artist_name: String,
    pub composer_name: String,
    pub arranger_name: String,
    pub category: SongCategory,
    pub length: Option<Fraction>,
    pub is_dub: bool,
    pub hq: Option<String>,
    pub mq: Option<String>,
    pub audio: Option<String>,
    pub artists: Vec<Artist>,
    pub composers: Vec<Artist>,
    pub arrangers: Vec<Artist>,
}

/// The use of one song in one anime, as the song database describes it.
#[derive(Debug, Clone, Copy)]
pub struct AnisongBind {
    pub song_ann_id: SongAnnId,
    pub anime_ann_id: AnnAnimeID,
    pub difficulty: Option<Fraction>,
    pub song_type: SongIndex,
    pub is_rebroadcast: bool,
}

/// One record of the song database: a song, the anime it is used in, and
/// how it is used there.
#[derive(Debug, Clone)]
pub struct Anisong {
    pub anime: AnisongAnime,
    pub song: AnisongSong,
    pub anisong_bind: AnisongBind,
}

impl AnimeIndex {
    /// The place in its franchise that a text of the song database stands
    /// for. The text names the kind of entry and may end in the entry's
    /// number; without a number the entry is the first, in one part.
    pub open spec fn of_text(s: Seq<char>) -> AnimeIndex {
        let (kind, entry) = split_entry(s);
        AnimeIndex {
            index_type: AnimeIndexType::of_feed_name(kind),
            number: match entry {
                Some(e) => e.0,
                None => 1,
            },
            part: match entry {
                Some(e) => e.1,
                None => 1,
            },
        }
    }

    /// Reads the place of an anime in its franchise from a text such as
    /// `TV 2` or `OVA 1.5`.
    pub fn parse(s: &str) -> (r: AnimeIndex)
        ensures
            r == Self::of_text(s@),
    {
        let (kind, entry) = split_entry_string(s);
        let index_type = AnimeIndexType::from_str(kind.as_str());
        match entry {
            Some(e) => AnimeIndex { index_type, number: e.0, part: e.1 },
            None => AnimeIndex { index_type, number: 1, part: 1 },
        }
    }
}

impl SongIndex {
    /// The place in an anime that a text of the song database stands for.
    /// The text names the role and may end in the song's number; without a
    /// number an insert song has the number 0 and any other song the
    /// number 1. A text that names no role stands for none.
    pub open spec fn of_text(s: Seq<char>) -> Option<SongIndex> {
        let (role, number) = split_number(s);
        match SongIndexType::of_feed_name(role) {
            Some(index_type) => Some(
                SongIndex {
                    index_type,
                    number: match number {
                        Some(n) => n,
                        None => if index_type == SongIndexType::Insert {
                            0
                        } else {
                            1
                        },
                    },
                },
            ),
            None => None,
        }
    }

    /// Reads the place of a song in an anime from a text such as
    /// `Opening 2` or `Insert Song`. A text that names no role is a parse
    /// error that carries the name it has in place of a role.
    pub fn parse(s: &str) -> (r: Result<SongIndex, Error>)
        ensures
            r is Ok <==> Self::of_text(s@) is Some,
            r is Ok ==> Some(r->Ok_0) == Self::of_text(s@),
            r is Err ==> r->Err_0.is_parse_error_of(split_number(s@).0),
    {
        let (role, number) = split_string(s);
        match SongIndexType::from_str(role.as_str()) {
            Ok(index_type) => {
                let fallback = match index_type {
                    SongIndexType::Insert => 0,
                    _ => 1,
                };
                Ok(
                    SongIndex {
                        index_type,
                        number: match number {
                            Some(n) => n,
                            None => fallback,
                        },
                    },
                )
            },
            Err(e) => Err(e),
        }
    }
}

impl Release {
    /// The release that a text of the song database stands for: the name of
    /// a season and a year.
    pub open spec fn of_text(s: Seq<char>) -> Option<Release> {
        let (season, year) = split_number(s);
        match (ReleaseSeason::of_name(season), year) {
            (Some(season), Some(year)) => Some(Release { season, year }),
            _ => None,
        }
    }

    /// Reads a release from a text such as `Fall 2000`. Any other text is a
    /// parse error that carries the text.
    pub fn parse(s: &str) -> (r: Result<Release, Error>)
        ensures
            r is Ok <==> Self::of_text(s@) is Some,
            r is Ok ==> Some(r->Ok_0) == Self::of_text(s@),
            r is Err ==> r->Err_0.is_parse_error_of(s@),
    {
        let (season, year) = split_string(s);
        match (ReleaseSeason::from_str(season.as_str()), year) {
            (Ok(season), Some(year)) => Ok(Release { season, year }),
            _ => Err(Error::ParseError(s.to_owned())),
        }
    }
}

impl AnisongArtistID {
    /// Reads an artist id from its decimal form. Any other text is a parse
    /// error that carries the text.
    pub fn from_str(s: &str) -> (r: Result<AnisongArtistID, Error>)
        ensures
            r is Ok <==> parsed_i32(s@) is Some,
            r is Ok ==> Some(r->Ok_0.0) == parsed_i32(s@),
            r is Err ==> r->Err_0.is_parse_error_of(s@),
    {
        match int_from_str(s) {
            Some(id) => Ok(AnisongArtistID(id)),
            None => Err(Error::ParseError(s.to_owned())),
        }
    }
}

/// Reads a truth value that the song database writes as a number: 0 is
/// false, 1 is true, and any other number is none.
pub fn bool_from_int(v: i64) -> (r: Option<bool>)
    ensures
        r == if v == 0 {
            Some(false)
        } else if v == 1 {
            Some(true)
        } else {
            None::<bool>
        },
{
    if v == 0 {
        Some(false)
    } else if v == 1 {
        Some(true)
    } else {
        None
    }
}

/// Reads a list that the song database may leave out: a missing list is the
/// empty list.
pub fn empty_vec_if_null<T>(list: Option<Vec<T>>) -> (r: Vec<T>)
    ensures
        r@ == match list {
            Some(v) => v@,
            None => Seq::<T>::empty(),
        },
{
    match list {
        Some(v) => v,
        None => Vec::new(),
    }
}

} // verus!
