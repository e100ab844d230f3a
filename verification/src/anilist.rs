//! What the anime graph knows of an anime: scores, images, studios, tags.

use vstd::prelude::*;
use crate::error::Error;
use crate::ids::{duplicate_image, AnilistAnimeID, HexColor, ImageURL, TagID, URL};
use crate::season::ReleaseSeason;
use crate::strings::str_eq;

verus! {

/// The titles of a work in its three common spellings.
#[derive(Debug, Clone)]
pub struct MediaTitle {
    pub romaji: Option<String>,
    pub english: Option<String>,
    pub native: Option<String>,
}

/// The cover of a work in several sizes, with its dominant colour.
#[derive(Debug, Clone)]
pub struct CoverImage {
    pub color: Option<HexColor>,
    pub medium: Option<ImageURL>,
    pub large: Option<ImageURL>,
    pub extra_large: Option<ImageURL>,
}

impl CoverImage {
    /// The cover of which nothing is known.
    pub open spec fn unknown() -> CoverImage {
        CoverImage { color: None, medium: None, large: None, extra_large: None }
    }

    /// The cover of which nothing is known.
    pub fn default() -> (r: CoverImage)
        ensures
            r == Self::unknown(),
    {
        CoverImage { color: None, medium: None, large: None, extra_large: None }
    }

    /// A copy of the cover.
    pub fn duplicate(&self) -> (r: CoverImage)
        ensures
            r == *self,
    {
        CoverImage {
            color: match &self.color {
                Some(c) => Some(c.duplicate()),
                None => None,
            },
            medium: duplicate_image(&self.medium),
            large: duplicate_image(&self.large),
            extra_large: duplicate_image(&self.extra_large),
        }
    }
}

/// The format in which the anime graph files a work.
#[derive(Debug, Clone, Copy, PartialEq, Eq, Structural)]
pub enum MediaFormat {
    Tv,
    TvShort,
    Movie,
    Special,
    Ova,
    Ona,
    Music,
    Manga,
    Novel,
    OneShot,
}

impl MediaFormat {
    /// The name under which the catalog stores the value.
    pub open spec fn stored_name(self) -> Seq<char> {
        match self {
            MediaFormat::Tv => "tv"@,
            MediaFormat::TvShort => "tv_short"@,
            MediaFormat::Movie => "movie"@,
            MediaFormat::Special => "special"@,
            MediaFormat::Ova => "ova"@,
            MediaFormat::Ona => "ona"@,
            MediaFormat::Music => "music"@,
            MediaFormat::Manga => "manga"@,
            MediaFormat::Novel => "novel"@,
            MediaFormat::OneShot => "one_shot"@,
        }
    }

    /// The value that a stored name stands for.
    pub open spec fn of_stored_name(s: Seq<char>) -> Option<MediaFormat> {
        if s == "tv"@ {
            Some(MediaFormat::Tv)
        }         else if s == "tv_short"@ {
            Some(MediaFormat::TvShort)
        }         else if s == "movie"@ {
            Some(MediaFormat::Movie)
        }         else if s == "special"@ {
            Some(MediaFormat::Special)
        }         else if s == "ova"@ {
            Some(MediaFormat::Ova)
        }         else if s == "ona"@ {
            Some(MediaFormat::Ona)
        }         else if s == "music"@ {
            Some(MediaFormat::Music)
        }         else if s == "manga"@ {
            Some(MediaFormat::Manga)
        }         else if s == "novel"@ {
            Some(MediaFormat::Novel)
        }         else if s == "one_shot"@ {
            Some(MediaFormat::OneShot)
        } else {
            None
        }
    }

    /// The name of the catalog's column type for this kind of value.
    pub fn type_info() -> (r: &'static str)
        ensures
            r@ == "media_format"@,
    {
        "media_format"
    }

    /// Gives the name under which the catalog stores the value.
    pub fn encode_by_ref(&self) -> (r: &'static str)
        ensures
            r@ == self.stored_name(),
    {
        match self {
            MediaFormat::Tv => "tv",
            MediaFormat::TvShort => "tv_short",
            MediaFormat::Movie => "movie",
            MediaFormat::Special => "special",
            MediaFormat::Ova => "ova",
            MediaFormat::Ona => "ona",
            MediaFormat::Music => "music",
            MediaFormat::Manga => "manga",
            MediaFormat::Novel => "novel",
            MediaFormat::OneShot => "one_shot",
        }
    }

    /// Reads a stored name; a name that the catalog does not know is an error
    /// that carries the name.
    pub fn decode(s: &str) -> (r: Result<MediaFormat, Error>)
        ensures
            r is Ok <==> Self::of_stored_name(s@) is Some,
            r is Ok ==> Some(r->Ok_0) == Self::of_stored_name(s@),
            r is Err ==> r->Err_0.is_parse_error_of(s@),
    {
        if str_eq(s, "tv") {
            Ok(MediaFormat::Tv)
        }         else if str_eq(s, "tv_short") {
            Ok(MediaFormat::TvShort)
        }         else if str_eq(s, "movie") {
            Ok(MediaFormat::Movie)
        }         else if str_eq(s, "special") {
            Ok(MediaFormat::Special)
        }         else if str_eq(s, "ova") {
            Ok(MediaFormat::Ova)
        }         else if str_eq(s, "ona") {
            Ok(MediaFormat::Ona)
        }         else if str_eq(s, "music") {
            Ok(MediaFormat::Music)
        }         else if str_eq(s, "manga") {
            Ok(MediaFormat::Manga)
        }         else if str_eq(s, "novel") {
            Ok(MediaFormat::Novel)
        }         else if str_eq(s, "one_shot") {
            Ok(MediaFormat::OneShot)
        } else {
            Err(Error::ParseError(s.to_owned()))
        }
    }

    /// Reading the stored name of a value gives the value back.
    pub proof fn lemma_stored_name_round_trip(value: MediaFormat)
        ensures
            Self::of_stored_name(value.stored_name()) == Some(value),
    {
        reveal_strlit("tv");
        assert("tv"@.len() == 2 && "tv"@[0] == 't' && "tv"@[1] == 'v');
        reveal_strlit("tv_short");
        assert("tv_short"@.len() == 8 && "tv_short"@[0] == 't' && "tv_short"@[1] == 'v' &&
            "tv_short"@[2] == '_' && "tv_short"@[3] == 's' && "tv_short"@[4] == 'h' &&
            "tv_short"@[5] == 'o' && "tv_short"@[6] == 'r' && "tv_short"@[7] == 't');
        reveal_strlit("movie");
        assert("movie"@.len() == 5 && "movie"@[0] == 'm' && "movie"@[1] == 'o' &&
            "movie"@[2] == 'v' && "movie"@[3] == 'i' && "movie"@[4] == 'e');
        reveal_strlit("special");
        assert("special"@.len() == 7 && "special"@[0] == 's' && "special"@[1] == 'p' &&
            "special"@[2] == 'e' && "special"@[3] == 'c' && "special"@[4] == 'i' &&
            "special"@[5] == 'a' && "special"@[6] == 'l');
        reveal_strlit("ova");
        assert("ova"@.len() == 3 && "ova"@[0] == 'o' && "ova"@[1] == 'v' && "ova"@[2] == 'a');
        reveal_strlit("ona");
        assert("ona"@.len() == 3 && "ona"@[0] == 'o' && "ona"@[1] == 'n' && "ona"@[2] == 'a');
        reveal_strlit("music");
        assert("music"@.len() == 5 && "music"@[0] == 'm' && "music"@[1] == 'u' &&
            "music"@[2] == 's' && "music"@[3] == 'i' && "music"@[4] == 'c');
        reveal_strlit("manga");
        assert("manga"@.len() == 5 && "manga"@[0] == 'm' && "manga"@[1] == 'a' &&
            "manga"@[2] == 'n' && "manga"@[3] == 'g' && "manga"@[4] == 'a');
        reveal_strlit("novel");
        assert("novel"@.len() == 5 && "novel"@[0] == 'n' && "novel"@[1] == 'o' &&
            "novel"@[2] == 'v' && "novel"@[3] == 'e' && "novel"@[4] == 'l');
        reveal_strlit("one_shot");
        assert("one_shot"@.len() == 8 && "one_shot"@[0] == 'o' && "one_shot"@[1] == 'n' &&
            "one_shot"@[2] == 'e' && "one_shot"@[3] == '_' && "one_shot"@[4] == 's' &&
            "one_shot"@[5] == 'h' && "one_shot"@[6] == 'o' && "one_shot"@[7] == 't');
    }
}

/// The kind of material that a work was adapted from.
#[derive(Debug, Clone, Copy, PartialEq, Eq, Structural)]
pub enum MediaSource {
    Original,
    Manga,
    LightNovel,
    VisualNovel,
    VideoGame,
    Other,
    Novel,
    Doujinshi,
    Anime,
    WebNovel,
    LiveAction,
    Game,
    Comic,
    MultimediaProject,
    PictureBook,
}

impl MediaSource {
    /// The name under which the catalog stores the value.
    pub open spec fn stored_name(self) -> Seq<char> {
        match self {
            MediaSource::Original => "original"@,
            MediaSource::Manga => "manga"@,
            MediaSource::LightNovel => "light_novel"@,
            MediaSource::VisualNovel => "visual_novel"@,
            MediaSource::VideoGame => "video_game"@,
            MediaSource::Other => "other"@,
            MediaSource::Novel => "novel"@,
            MediaSource::Doujinshi => "doujinshi"@,
            MediaSource::Anime => "anime"@,
            MediaSource::WebNovel => "web_novel"@,
            MediaSource::LiveAction => "live_action"@,
            MediaSource::Game => "game"@,
            MediaSource::Comic => "comic"@,
            MediaSource::MultimediaProject => "multi_media_project"@,
            MediaSource::PictureBook => "picture_book"@,
        }
    }

    /// The value that a stored name stands for.
    pub open spec fn of_stored_name(s: Seq<char>) -> Option<MediaSource> {
        if s == "original"@ {
            Some(MediaSource::Original)
        }         else if s == "manga"@ {
            Some(MediaSource::Manga)
        }         else if s == "light_novel"@ {
            Some(MediaSource::LightNovel)
        }         else if s == "visual_novel"@ {
            Some(MediaSource::VisualNovel)
        }         else if s == "video_game"@ {
            Some(MediaSource::VideoGame)
        }         else if s == "other"@ {
            Some(MediaSource::Other)
        }         else if s == "novel"@ {
            Some(MediaSource::Novel)
        }         else if s == "doujinshi"@ {
            Some(MediaSource::Doujinshi)
        }         else if s == "anime"@ {
            Some(MediaSource::Anime)
        }         else if s == "web_novel"@ {
            Some(MediaSource::WebNovel)
        }         else if s == "live_action"@ {
            Some(MediaSource::LiveAction)
        }         else if s == "game"@ {
            Some(MediaSource::Game)
        }         else if s == "comic"@ {
            Some(MediaSource::Comic)
        }         else if s == "multi_media_project"@ {
            Some(MediaSource::MultimediaProject)
        }         else if s == "picture_book"@ {
            Some(MediaSource::PictureBook)
        } else {
            None
        }
    }

    /// The name of the catalog's column type for this kind of value.
    pub fn type_info() -> (r: &'static str)
        ensures
            r@ == "media_source"@,
    {
        "media_source"
    }

    /// Gives the name under which the catalog stores the value.
    pub fn encode_by_ref(&self) -> (r: &'static str)
        ensures
            r@ == self.stored_name(),
    {
        match self {
            MediaSource::Original => "original",
            MediaSource::Manga => "manga",
            MediaSource::LightNovel => "light_novel",
            MediaSource::VisualNovel => "visual_novel",
            MediaSource::VideoGame => "video_game",
            MediaSource::Other => "other",
            MediaSource::Novel => "novel",
            MediaSource::Doujinshi => "doujinshi",
            MediaSource::Anime => "anime",
            MediaSource::WebNovel => "web_novel",
            MediaSource::LiveAction => "live_action",
            MediaSource::Game => "game",
            MediaSource::Comic => "comic",
            MediaSource::MultimediaProject => "multi_media_project",
            MediaSource::PictureBook => "picture_book",
        }
    }

    /// Reads a stored name; a name that the catalog does not know is an error
    /// that carries the name.
    pub fn decode(s: &str) -> (r: Result<MediaSource, Error>)
        ensures
            r is Ok <==> Self::of_stored_name(s@) is Some,
            r is Ok ==> Some(r->Ok_0) == Self::of_stored_name(s@),
            r is Err ==> r->Err_0.is_parse_error_of(s@),
    {
        if str_eq(s, "original") {
            Ok(MediaSource::Original)
        }         else if str_eq(s, "manga") {
            Ok(MediaSource::Manga)
        }         else if str_eq(s, "light_novel") {
            Ok(MediaSource::LightNovel)
        }         else if str_eq(s, "visual_novel") {
            Ok(MediaSource::VisualNovel)
        }         else if str_eq(s, "video_game") {
            Ok(MediaSource::VideoGame)
        }         else if str_eq(s, "other") {
            Ok(MediaSource::Other)
        }         else if str_eq(s, "novel") {
            Ok(MediaSource::Novel)
        }         else if str_eq(s, "doujinshi") {
            Ok(MediaSource::Doujinshi)
        }         else if str_eq(s, "anime") {
            Ok(MediaSource::Anime)
        }         else if str_eq(s, "web_novel") {
            Ok(MediaSource::WebNovel)
        }         else if str_eq(s, "live_action") {
            Ok(MediaSource::LiveAction)
        }         else if str_eq(s, "game") {
            Ok(MediaSource::Game)
        }         else if str_eq(s, "comic") {
            Ok(MediaSource::Comic)
        }         else if str_eq(s, "multi_media_project") {
            Ok(MediaSource::MultimediaProject)
        }         else if str_eq(s, "picture_book") {
            Ok(MediaSource::PictureBook)
        } else {
            Err(Error::ParseError(s.to_owned()))
        }
    }

    /// Reading the stored name of a value gives the value back.
    pub proof fn lemma_stored_name_round_trip(value: MediaSource)
        ensures
            Self::of_stored_name(value.stored_name()) == Some(value),
    {
        reveal_strlit("original");
        assert("original"@.len() == 8 && "original"@[0] == 'o' && "original"@[1] == 'r' &&
            "original"@[2] == 'i' && "original"@[3] == 'g' && "original"@[4] == 'i' &&
            "original"@[5] == 'n' && "original"@[6] == 'a' && "original"@[7] == 'l');
        reveal_strlit("manga");
        assert("manga"@.len() == 5 && "manga"@[0] == 'm' && "manga"@[1] == 'a' &&
            "manga"@[2] == 'n' && "manga"@[3] == 'g' && "manga"@[4] == 'a');
        reveal_strlit("light_novel");
        assert("light_novel"@.len() == 11 && "light_novel"@[0] == 'l' &&
            "light_novel"@[1] == 'i' && "light_novel"@[2] == 'g' && "light_novel"@[3] == 'h' &&
            "light_novel"@[4] == 't' && "light_novel"@[5] == '_' && "light_novel"@[6] == 'n' &&
            "light_novel"@[7] == 'o' && "light_novel"@[8] == 'v' && "light_novel"@[9] == 'e' &&
            "light_novel"@[10] == 'l');
        reveal_strlit("visual_novel");
        assert("visual_novel"@.len() == 12 && "visual_novel"@[0] == 'v' &&
            "visual_novel"@[1] == 'i' && "visual_novel"@[2] == 's' &&
            "visual_novel"@[3] == 'u' && "visual_novel"@[4] == 'a' &&
            "visual_novel"@[5] == 'l' && "visual_novel"@[6] == '_' &&
            "visual_novel"@[7] == 'n' && "visual_novel"@[8] == 'o' &&
            "visual_novel"@[9] == 'v' && "visual_novel"@[10] == 'e' &&
            "visual_novel"@[11] == 'l');
        reveal_strlit("video_game");
        assert("video_game"@.len() == 10 && "video_game"@[0] == 'v' && "video_game"@[1] == 'i' &&
            "video_game"@[2] == 'd' && "video_game"@[3] == 'e' && "video_game"@[4] == 'o' &&
            "video_game"@[5] == '_' && "video_game"@[6] == 'g' && "video_game"@[7] == 'a' &&
            "video_game"@[8] == 'm' && "video_game"@[9] == 'e');
        reveal_strlit("other");
        assert("other"@.len() == 5 && "other"@[0] == 'o' && "other"@[1] == 't' &&
            "other"@[2] == 'h' && "other"@[3] == 'e' && "other"@[4] == 'r');
        reveal_strlit("novel");
        assert("novel"@.len() == 5 && "novel"@[0] == 'n' && "novel"@[1] == 'o' &&
            "novel"@[2] == 'v' && "novel"@[3] == 'e' && "novel"@[4] == 'l');
        reveal_strlit("doujinshi");
        assert("doujinshi"@.len() == 9 && "doujinshi"@[0] == 'd' && "doujinshi"@[1] == 'o' &&
            "doujinshi"@[2] == 'u' && "doujinshi"@[3] == 'j' && "doujinshi"@[4] == 'i' &&
            "doujinshi"@[5] == 'n' && "doujinshi"@[6] == 's' && "doujinshi"@[7] == 'h' &&
            "doujinshi"@[8] == 'i');
        reveal_strlit("anime");
        assert("anime"@.len() == 5 && "anime"@[0] == 'a' && "anime"@[1] == 'n' &&
            "anime"@[2] == 'i' && "anime"@[3] == 'm' && "anime"@[4] == 'e');
        reveal_strlit("web_novel");
        assert("web_novel"@.len() == 9 && "web_novel"@[0] == 'w' && "web_novel"@[1] == 'e' &&
            "web_novel"@[2] == 'b' && "web_novel"@[3] == '_' && "web_novel"@[4] == 'n' &&
            "web_novel"@[5] == 'o' && "web_novel"@[6] == 'v' && "web_novel"@[7] == 'e' &&
            "web_novel"@[8] == 'l');
        reveal_strlit("live_action");
        assert("live_action"@.len() == 11 && "live_action"@[0] == 'l' &&
            "live_action"@[1] == 'i' && "live_action"@[2] == 'v' && "live_action"@[3] == 'e' &&
            "live_action"@[4] == '_' && "live_action"@[5] == 'a' && "live_action"@[6] == 'c' &&
            "live_action"@[7] == 't' && "live_action"@[8] == 'i' && "live_action"@[9] == 'o' &&
            "live_action"@[10] == 'n');
        reveal_strlit("game");
        assert("game"@.len() == 4 && "game"@[0] == 'g' && "game"@[1] == 'a' &&
            "game"@[2] == 'm' && "game"@[3] == 'e');
        reveal_strlit("comic");
        assert("comic"@.len() == 5 && "comic"@[0] == 'c' && "comic"@[1] == 'o' &&
            "comic"@[2] == 'm' && "comic"@[3] == 'i' && "comic"@[4] == 'c');
        reveal_strlit("multi_media_project");
        assert("multi_media_project"@.len() == 19 && "multi_media_project"@[0] == 'm' &&
            "multi_media_project"@[1] == 'u' && "multi_media_project"@[2] == 'l' &&
            "multi_media_project"@[3] == 't' && "multi_media_project"@[4] == 'i' &&
            "multi_media_project"@[5] == '_' && "multi_media_project"@[6] == 'm' &&
            "multi_media_project"@[7] == 'e' && "multi_media_project"@[8] == 'd' &&
            "multi_media_project"@[9] == 'i' && "multi_media_project"@[10] == 'a' &&
            "multi_media_project"@[11] == '_' && "multi_media_project"@[12] == 'p' &&
            "multi_media_project"@[13] == 'r' && "multi_media_project"@[14] == 'o' &&
            "multi_media_project"@[15] == 'j' && "multi_media_project"@[16] == 'e' &&
            "multi_media_project"@[17] == 'c' && "multi_media_project"@[18] == 't');
        reveal_strlit("picture_book");
        assert("picture_book"@.len() == 12 && "picture_book"@[0] == 'p' &&
            "picture_book"@[1] == 'i' && "picture_book"@[2] == 'c' &&
            "picture_book"@[3] == 't' && "picture_book"@[4] == 'u' &&
            "picture_book"@[5] == 'r' && "picture_book"@[6] == 'e' &&
            "picture_book"@[7] == '_' && "picture_book"@[8] == 'b' &&
            "picture_book"@[9] == 'o' && "picture_book"@[10] == 'o' &&
            "picture_book"@[11] == 'k');
    }
}

/// A studio that worked on an anime.
#[derive(Debug, Clone)]
pub struct Studio {
    pub id: i32,
    pub name: String,
    pub site_url: Option<URL>,
}

impl Studio {
    /// A copy of the studio.
    pub fn duplicate(&self) -> (r: Studio)
        ensures
            r == *self,
    {
        Studio {
            id: self.id,
            name: self.name.clone(),
            site_url: match &self.site_url {
                Some(u) => Some(u.duplicate()),
                None => None,
            },
        }
    }
}

/// The studios of an anime, in the order of the anime graph.
#[derive(Debug, Clone)]
pub struct StudioConnection {
    pub nodes: Vec<Studio>,
}

impl StudioConnection {
    /// No studios.
    pub fn default() -> (r: StudioConnection)
        ensures
            r.nodes@ == Seq::<Studio>::empty(),
    {
        StudioConnection { nodes: Vec::new() }
    }

    /// A copy of the studios, in the same order.
    pub fn duplicate(&self) -> (r: StudioConnection)
        ensures
            r.nodes@ == self.nodes@,
    {
        let mut nodes: Vec<Studio> = Vec::new();
        let mut i: usize = 0;
        while i < self.nodes.len()
            invariant
                i <= self.nodes.len(),
                nodes@ == self.nodes@.take(i as int),
            decreases self.nodes.len() - i,
        {
            nodes.push(self.nodes[i].duplicate());
            proof {
                assert(self.nodes@.take(i as int + 1) == self.nodes@.take(i as int).push(
                    self.nodes@[i as int],
                ));
            }
            i += 1;
        }
        proof {
            assert(self.nodes@.take(self.nodes.len() as int) == self.nodes@);
        }
        StudioConnection { nodes }
    }
}

/// A tag that the anime graph gives a work.
#[derive(Debug, Clone)]
pub struct MediaTag {
    pub id: TagID,
    pub name: String,
}

impl MediaTag {
    /// A copy of the tag.
    pub fn duplicate(&self) -> (r: MediaTag)
        ensures
            r == *self,
    {
        MediaTag { id: self.id, name: self.name.clone() }
    }
}

/// Where the trailer of a work can be watched.
#[derive(Debug, Clone)]
pub struct MediaTrailer {
    pub id: String,
    pub site: String,
    pub thumbnail: ImageURL,
}

impl MediaTrailer {
    /// A copy of the trailer reference.
    pub fn duplicate(&self) -> (r: MediaTrailer)
        ensures
            r == *self,
    {
        MediaTrailer {
            id: self.id.clone(),
            site: self.site.clone(),
            thumbnail: self.thumbnail.duplicate(),
        }
    }
}

/// A copy of a list of strings, in the same order.
pub fn duplicate_texts(v: &Vec<String>) -> (r: Vec<String>)
    ensures
        r@ == v@,
{
    let mut r: Vec<String> = Vec::new();
    let mut i: usize = 0;
    while i < v.len()
        invariant
            i <= v.len(),
            r@ == v@.take(i as int),
        decreases v.len() - i,
    {
        r.push(v[i].clone());
        proof {
            assert(v@.take(i as int + 1) == v@.take(i as int).push(v@[i as int]));
        }
        i += 1;
    }
    proof {
        assert(v@.take(v.len() as int) == v@);
    }
    r
}

/// A copy of a list of tags, in the same order.
pub fn duplicate_tags(v: &Vec<MediaTag>) -> (r: Vec<MediaTag>)
    ensures
        r@ == v@,
{
    let mut r: Vec<MediaTag> = Vec::new();
    let mut i: usize = 0;
    while i < v.len()
        invariant
            i <= v.len(),
            r@ == v@.take(i as int),
        decreases v.len() - i,
    {
        r.push(v[i].duplicate());
        proof {
            assert(v@.take(i as int + 1) == v@.take(i as int).push(v@[i as int]));
        }
        i += 1;
    }
    proof {
        assert(v@.take(v.len() as int) == v@);
    }
    r
}

/// One anime as the anime graph describes it.
#[derive(Debug, Clone)]
pub struct Media {
    pub id: AnilistAnimeID,
    pub mean_score: Option<i32>,
    pub banner_image: Option<ImageURL>,
    pub cover_image: CoverImage,
    pub format: Option<MediaFormat>,
    pub genres: Vec<String>,
    pub source: Option<MediaSource>,
    pub studios: StudioConnection,
    pub tags: Vec<MediaTag>,
    pub trailer: Option<MediaTrailer>,
    pub episodes: Option<i32>,
    pub season: Option<ReleaseSeason>,
    pub season_year: Option<i32>,
}

/// What the anime graph adds to an anime of the catalog, with every list
/// as the sequence of its items.
pub struct Enrichment {
    pub mean_score: Option<i32>,
    pub banner_image: Option<ImageURL>,
    pub cover_image: CoverImage,
    pub format: Option<MediaFormat>,
    pub genres: Seq<String>,
    pub source: Option<MediaSource>,
    pub studios: Seq<Studio>,
    pub tags: Seq<MediaTag>,
    pub trailer: Option<MediaTrailer>,
    pub episodes: Option<i32>,
    pub season: Option<ReleaseSeason>,
    pub season_year: Option<i32>,
}

impl Enrichment {
    /// The enrichment of an anime that the anime graph does not know: no
    /// score, no images, empty lists.
    pub open spec fn absent() -> Enrichment {
        Enrichment {
            mean_score: None,
            banner_image: None,
            cover_image: CoverImage::unknown(),
            format: None,
            genres: Seq::empty(),
            source: None,
            studios: Seq::empty(),
            tags: Seq::empty(),
            trailer: None,
            episodes: None,
            season: None,
            season_year: None,
        }
    }
}

impl Media {
    /// What this entry adds to an anime of the catalog.
    pub open spec fn enrichment(self) -> Enrichment {
        Enrichment {
            mean_score: self.mean_score,
            banner_image: self.banner_image,
            cover_image: self.cover_image,
            format: self.format,
            genres: self.genres@,
            source: self.source,
            studios: self.studios.nodes@,
            tags: self.tags@,
            trailer: self.trailer,
            episodes: self.episodes,
            season: self.season,
            season_year: self.season_year,
        }
    }

    /// A copy of the entry: the same id and the same enrichment.
    pub fn duplicate(&self) -> (r: Media)
        ensures
            r.id == self.id,
            r.enrichment() == self.enrichment(),
    {
        Media {
            id: self.id,
            mean_score: self.mean_score,
            banner_image: duplicate_image(&self.banner_image),
            cover_image: self.cover_image.duplicate(),
            format: self.format,
            genres: duplicate_texts(&self.genres),
            source: self.source,
            studios: self.studios.duplicate(),
            tags: duplicate_tags(&self.tags),
            trailer: match &self.trailer {
                Some(t) => Some(t.duplicate()),
                None => None,
            },
            episodes: self.episodes,
            season: self.season,
            season_year: self.season_year,
        }
    }
}

} // verus!
