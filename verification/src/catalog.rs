//! The records of the catalog, and the rules by which the records of the two
//! feeds are merged into them.

use vstd::prelude::*;
use crate::anilist::{
    duplicate_texts, CoverImage, Enrichment, Media, MediaFormat, MediaSource, MediaTag,
    MediaTrailer, StudioConnection,
};
use crate::anisong::{AnimeIndex, AnimeListLinks, AnimeType, AnisongAnime, SongIndex};
use crate::ids::{
    AnilistAnimeID, AnnAnimeID, Fraction, ImageURL, SongAnnId, SongID, SpotifyTrackID,
    SpotifyUser, SpotifyUserID,
};
use crate::ordering::{
    ascending, insert_by_key, key_values, lemma_first_match, lemma_insert_at, lemma_no_match,
    lemma_sorted_ascending, lemma_sorted_len, lemma_sorted_stable, ordered_by,
};
use crate::error::Error;
use crate::season::{Release, ReleaseSeason};
use crate::songs::SimplifiedAnisongSong;
use crate::strings::str_eq;

verus! {

/// An anime of the catalog: what the song database says of it, and what the
/// anime graph adds.
#[derive(Debug, Clone)]
pub struct DBAnime {
    pub ann_id: AnnAnimeID,
    pub eng_name: String,
    pub jpn_name: String,
    pub alt_name: Vec<String>,
    pub vintage: Option<Release>,
    pub linked_ids: AnimeListLinks,
    pub anime_type: Option<AnimeType>,
    pub anime_index: AnimeIndex,
    pub mean_score: Option<i32>,
    pub banner_image: Option<ImageURL>,
    pub cover_image: CoverImage,
    pub format: Option<MediaFormat>,
    pub genres: Vec<String>,
    pub source: Option<MediaSource>,
    pub studios: StudioConnection,
    pub tags: Vec<MediaTag>,
    pub trailer: Option<MediaTrailer>,
    pub episodes: Option<i32>,
    pub season: Option<ReleaseSeason>,
    pub season_year: Option<i32>,
}

/// How far the handling of a user's report has come.
#[derive(Debug, Clone, Copy, PartialEq, Eq, Structural)]
pub enum ReportStatus {
    Pending,
    InProgress,
    Resolved,
    Dismissed,
}

impl ReportStatus {
    /// The name under which the catalog stores the value.
    pub open spec fn stored_name(self) -> Seq<char> {
        match self {
            ReportStatus::Pending => "pending"@,
            ReportStatus::InProgress => "in_progress"@,
            ReportStatus::Resolved => "resolved"@,
            ReportStatus::Dismissed => "dismissed"@,
        }
    }

    /// The value that a stored name stands for.
    pub open spec fn of_stored_name(s: Seq<char>) -> Option<ReportStatus> {
        if s == "pending"@ {
            Some(ReportStatus::Pending)
        }         else if s == "in_progress"@ {
            Some(ReportStatus::InProgress)
        }         else if s == "resolved"@ {
            Some(ReportStatus::Resolved)
        }         else if s == "dismissed"@ {
            Some(ReportStatus::Dismissed)
        } else {
            None
        }
    }

    /// The name of the catalog's column type for this kind of value.
    pub fn type_info() -> (r: &'static str)
        ensures
            r@ == "report_status"@,
    {
        "report_status"
    }

    /// Gives the name under which the catalog stores the value.
    pub fn encode_by_ref(&self) -> (r: &'static str)
        ensures
            r@ == self.stored_name(),
    {
        match self {
            ReportStatus::Pending => "pending",
            ReportStatus::InProgress => "in_progress",
            ReportStatus::Resolved => "resolved",
            ReportStatus::Dismissed => "dismissed",
        }
    }

    /// Reads a stored name; a name that the catalog does not know is an error
    /// that carries the name.
    pub fn decode(s: &str) -> (r: Result<ReportStatus, Error>)
        ensures
            r is Ok <==> Self::of_stored_name(s@) is Some,
            r is Ok ==> Some(r->Ok_0) == Self::of_stored_name(s@),
            r is Err ==> r->Err_0.is_parse_error_of(s@),
    {
        if str_eq(s, "pending") {
            Ok(ReportStatus::Pending)
        }         else if str_eq(s, "in_progress") {
            Ok(ReportStatus::InProgress)
        }         else if str_eq(s, "resolved") {
            Ok(ReportStatus::Resolved)
        }         else if str_eq(s, "dismissed") {
            Ok(ReportStatus::Dismissed)
        } else {
            Err(Error::ParseError(s.to_owned()))
        }
    }

    /// Reading the stored name of a value gives the value back.
    pub proof fn lemma_stored_name_round_trip(value: ReportStatus)
        ensures
            Self::of_stored_name(value.stored_name()) == Some(value),
    {
        reveal_strlit("pending");
        assert("pending"@.len() == 7 && "pending"@[0] == 'p' && "pending"@[1] == 'e' &&
            "pending"@[2] == 'n' && "pending"@[3] == 'd' && "pending"@[4] == 'i' &&
            "pending"@[5] == 'n' && "pending"@[6] == 'g');
        reveal_strlit("in_progress");
        assert("in_progress"@.len() == 11 && "in_progress"@[0] == 'i' &&
            "in_progress"@[1] == 'n' && "in_progress"@[2] == '_' && "in_progress"@[3] == 'p' &&
            "in_progress"@[4] == 'r' && "in_progress"@[5] == 'o' && "in_progress"@[6] == 'g' &&
            "in_progress"@[7] == 'r' && "in_progress"@[8] == 'e' && "in_progress"@[9] == 's' &&
            "in_progress"@[10] == 's');
        reveal_strlit("resolved");
        assert("resolved"@.len() == 8 && "resolved"@[0] == 'r' && "resolved"@[1] == 'e' &&
            "resolved"@[2] == 's' && "resolved"@[3] == 'o' && "resolved"@[4] == 'l' &&
            "resolved"@[5] == 'v' && "resolved"@[6] == 'e' && "resolved"@[7] == 'd');
        reveal_strlit("dismissed");
        assert("dismissed"@.len() == 9 && "dismissed"@[0] == 'd' && "dismissed"@[1] == 'i' &&
            "dismissed"@[2] == 's' && "dismissed"@[3] == 'm' && "dismissed"@[4] == 'i' &&
            "dismissed"@[5] == 's' && "dismissed"@[6] == 's' && "dismissed"@[7] == 'e' &&
            "dismissed"@[8] == 'd');
    }
}

/// A correction that a user sent in.
#[derive(Debug, Clone)]
pub struct Report {
    pub track_id: Option<SpotifyTrackID>,
    pub song_ann_id: Option<SongAnnId>,
    pub message: String,
    pub user: SpotifyUser,
    pub status: ReportStatus,
}

impl Report {
    /// The report that a user files: it starts out pending.
    pub fn new(
        track_id: Option<SpotifyTrackID>,
        song_ann_id: Option<SongAnnId>,
        message: String,
        user: SpotifyUser,
    ) -> (r: Report)
        ensures
            r.track_id == track_id,
            r.song_ann_id == song_ann_id,
            r.message == message,
            r.user == user,
            r.status == ReportStatus::Pending,
    {
        Report { track_id, song_ann_id, message, user, status: ReportStatus::Pending }
    }
}

/// The use of one song in one anime, as the catalog stores it. The ids of
/// the song and the anime are known once both are stored.
#[derive(Debug, Clone, Copy)]
pub struct DBAnisongBind {
    pub song_id: Option<SongID>,
    pub anime_ann_id: Option<AnnAnimeID>,
    pub song_ann_id: SongAnnId,
    pub difficulty: Option<Fraction>,
    pub song_index: SongIndex,
    pub is_rebroadcast: bool,
}

/// One row of the catalog's flattened view: a song, an anime that uses it,
/// and how it is used there.
#[derive(Debug, Clone)]
pub struct DBAnisong {
    pub anime: DBAnime,
    pub song: SimplifiedAnisongSong,
    pub bind: DBAnisongBind,
}

/// A user as the catalog knows one.
#[derive(Debug, Clone)]
pub struct DBUser {
    pub name: Option<String>,
    pub mail: Option<String>,
    pub id: SpotifyUserID,
    pub binds: i32,
    pub flags: i64,
}

/// The key by which animes of the song database are ordered for the merge:
/// the id in the anime graph, with the animes that have none behind all
/// others.
pub open spec fn anilist_key(anime: AnisongAnime) -> int {
    match anime.linked_ids.anilist {
        Some(id) => id.0 as int,
        None => i32::MAX + 1,
    }
}

/// The key by which entries of the anime graph are ordered and found.
pub open spec fn media_key(media: Media) -> int {
    media.id.0 as int
}

/// The order of the animes of the song database in the merge.
pub open spec fn anime_order() -> spec_fn(AnisongAnime) -> int {
    |a: AnisongAnime| anilist_key(a)
}

/// The order of the entries of the anime graph in the merge.
pub open spec fn media_order() -> spec_fn(Media) -> int {
    |m: Media| media_key(m)
}

/// The test for an entry of the anime graph to have the key `k`.
pub open spec fn has_key(k: int) -> spec_fn(Media) -> bool {
    |m: Media| media_key(m) == k
}

/// The first entry of the anime graph that has the given key.
pub open spec fn first_with_key(anilists: Seq<Media>, k: int) -> Option<Media> {
    let found = anilists.filter(has_key(k));
    if found.len() > 0 {
        Some(found[0])
    } else {
        None
    }
}

/// What the anime graph adds to an anime of the song database: the
/// enrichment of the first entry with the anime's id, or the absent
/// enrichment where the anime has no id or the graph no such entry.
pub open spec fn enrichment_for(anilists: Seq<Media>, anime: AnisongAnime) -> Enrichment {
    match first_with_key(anilists, anilist_key(anime)) {
        Some(m) => m.enrichment(),
        None => Enrichment::absent(),
    }
}

impl DBAnime {
    /// What the song database says of this anime.
    pub open spec fn origin(self) -> AnisongAnime {
        AnisongAnime {
            ann_id: self.ann_id,
            eng_name: self.eng_name,
            jpn_name: self.jpn_name,
            alt_name: self.alt_name,
            vintage: self.vintage,
            linked_ids: self.linked_ids,
            anime_type: self.anime_type,
            anime_index: self.anime_index,
        }
    }

    /// What the anime graph adds to this anime.
    pub open spec fn enrichment(self) -> Enrichment {
        Enrichment {
            mean_score: self.mean_score,
            banner_image: self.banner_image,
            cover_image: self.cover_image,
            format: self.format,
            genres: self.genres@,
            source: self.source,
            studios: self.studios.nodes@,
            tags: self.tags@,
            trailer: self.trailer,
            episodes: self.episodes,
            season: self.season,
            season_year: self.season_year,
        }
    }

    /// Joins an anime of the song database with its entry of the anime
    /// graph, if it has one. Without an entry the enrichment is absent:
    /// no score, no images, empty lists.
    pub fn from(pair: (AnisongAnime, Option<Media>)) -> (r: DBAnime)
        ensures
            r.origin() == pair.0,
            r.enrichment() == match pair.1 {
                Some(m) => m.enrichment(),
                None => Enrichment::absent(),
            },
    {
        let (anisong, anilist) = pair;
        match anilist {
            Some(ani) => DBAnime {
                ann_id: anisong.ann_id,
                eng_name: anisong.eng_name,
                jpn_name: anisong.jpn_name,
                alt_name: anisong.alt_name,
                vintage: anisong.vintage,
                linked_ids: anisong.linked_ids,
                anime_type: anisong.anime_type,
                anime_index: anisong.anime_index,
                mean_score: ani.mean_score,
                banner_image: ani.banner_image,
                cover_image: ani.cover_image,
                format: ani.format,
                genres: ani.genres,
                source: ani.source,
                studios: ani.studios,
                tags: ani.tags,
                trailer: ani.trailer,
                episodes: ani.episodes,
                season: ani.season,
                season_year: ani.season_year,
            },
            None => DBAnime {
                ann_id: anisong.ann_id,
                eng_name: anisong.eng_name,
                jpn_name: anisong.jpn_name,
                alt_name: anisong.alt_name,
                vintage: anisong.vintage,
                linked_ids: anisong.linked_ids,
                anime_type: anisong.anime_type,
                anime_index: anisong.anime_index,
                mean_score: None,
                banner_image: None,
                cover_image: CoverImage::default(),
                format: None,
                genres: Vec::new(),
                source: None,
                studios: StudioConnection::default(),
                tags: Vec::new(),
                trailer: None,
                episodes: None,
                season: None,
                season_year: None,
            },
        }
    }
}

/// The test for an anime of the song database to have the key `k`.
pub open spec fn key_is(k: int) -> spec_fn(AnisongAnime) -> bool {
    |a: AnisongAnime| anilist_key(a) == k
}

/// The animes that have the key `k`, in their order.
pub open spec fn with_key(animes: Seq<AnisongAnime>, k: int) -> Seq<AnisongAnime> {
    animes.filter(key_is(k))
}

/// What the song database says of each anime of a list.
pub open spec fn origins(animes: Seq<DBAnime>) -> Seq<AnisongAnime> {
    animes.map_values(|d: DBAnime| d.origin())
}

fn key_of_anime(anime: &AnisongAnime) -> (k: i64)
    ensures
        k == anilist_key(*anime),
{
    match anime.linked_ids.anilist {
        Some(id) => id.0 as i64,
        None => 0x8000_0000,
    }
}

fn order_animes(anisongs: Vec<AnisongAnime>) -> (r: Vec<AnisongAnime>)
    ensures
        r@ == ordered_by(anisongs@, anime_order()),
{
    let ghost input = anisongs@;
    let mut sorted: Vec<AnisongAnime> = Vec::new();
    let mut keys: Vec<i64> = Vec::new();
    for anime in it: anisongs
        invariant
            it.seq() == input,
            sorted@ == ordered_by(input.take(it.index()), anime_order()),
            keys@.len() == sorted@.len(),
            forall|i: int| 0 <= i < keys@.len() ==> keys@[i] as int == anilist_key(sorted@[i]),
    {
        let k = key_of_anime(&anime);
        proof {
            assert(key_values(keys@) =~= sorted@.map_values(anime_order()));
            let upto = input.take(it.index() + 1);
            assert(upto.drop_last() == input.take(it.index()));
            assert(upto.last() == anime);
            lemma_insert_at(key_values(keys@), k as int);
        }
        insert_by_key(&mut sorted, &mut keys, anime, k);
    }
    proof {
        assert(input.take(input.len() as int) == input);
    }
    sorted
}

fn order_media(anilists: Vec<Media>) -> (r: (Vec<Media>, Vec<i64>))
    ensures
        r.0@ == ordered_by(anilists@, media_order()),
        r.1@.len() == r.0@.len(),
        forall|i: int| 0 <= i < r.1@.len() ==> r.1@[i] as int == media_key(r.0@[i]),
{
    let ghost input = anilists@;
    let mut sorted: Vec<Media> = Vec::new();
    let mut keys: Vec<i64> = Vec::new();
    for media in it: anilists
        invariant
            it.seq() == input,
            sorted@ == ordered_by(input.take(it.index()), media_order()),
            keys@.len() == sorted@.len(),
            forall|i: int| 0 <= i < keys@.len() ==> keys@[i] as int == media_key(sorted@[i]),
    {
        let k = media.id.0 as i64;
        proof {
            assert(key_values(keys@) =~= sorted@.map_values(media_order()));
            let upto = input.take(it.index() + 1);
            assert(upto.drop_last() == input.take(it.index()));
            assert(upto.last() == media);
            lemma_insert_at(key_values(keys@), k as int);
        }
        insert_by_key(&mut sorted, &mut keys, media, k);
    }
    proof {
        assert(input.take(input.len() as int) == input);
    }
    (sorted, keys)
}

impl DBAnime {
    /// Merges the animes of the song database with the entries of the anime
    /// graph. Both lists are ordered by the id in the anime graph, animes
    /// without one last, and walked side by side. Every anime of the song
    /// database comes out exactly once, in that order: enriched where the
    /// graph has an entry with its id, with the absent enrichment where not.
    pub fn combine(anisongs: Vec<AnisongAnime>, anilists: Vec<Media>) -> (r: Vec<DBAnime>)
        ensures
            r@.len() == anisongs@.len(),
            origins(r@) == ordered_by(anisongs@, anime_order()),
            forall|i: int|
                0 <= i < r@.len() ==> (#[trigger] r@[i]).enrichment() == enrichment_for(
                    anilists@,
                    r@[i].origin(),
                ),
            ascending(origins(r@), anime_order()),
            forall|k: int| #[trigger] with_key(origins(r@), k) == with_key(anisongs@, k),
    {
        let ghost animes = anisongs@;
        let ghost graph = anilists@;
        let sorted = order_animes(anisongs);
        let (media, keys) = order_media(anilists);
        let ghost ordered = sorted@;
        let mut out: Vec<DBAnime> = Vec::new();
        let mut j: usize = 0;
        proof {
            lemma_sorted_ascending(animes, anime_order());
            lemma_sorted_ascending(graph, media_order());
            lemma_sorted_len(animes, anime_order());
        }
        for anime in it: sorted
            invariant
                it.seq() == ordered,
                ordered == ordered_by(animes, anime_order()),
                media@ == ordered_by(graph, media_order()),
                ascending(ordered, anime_order()),
                ascending(media@, media_order()),
                keys@.len() == media@.len(),
                forall|i: int| 0 <= i < keys@.len() ==> keys@[i] as int == media_key(media@[i]),
                j <= media@.len(),
                out@.len() == it.index(),
                forall|i: int| 0 <= i < out@.len() ==> (#[trigger] out@[i]).origin() == ordered[i],
                forall|i: int|
                    0 <= i < out@.len() ==> (#[trigger] out@[i]).enrichment() == enrichment_for(
                        graph,
                        ordered[i],
                    ),
                forall|i: int, n: int|
                    0 <= i < j && it.index() <= n < ordered.len() ==> media_key(media@[i])
                        < anilist_key(#[trigger] ordered[n]) || media_key(#[trigger] media@[i])
                        < anilist_key(ordered[n]),
        {
            let k = key_of_anime(&anime);
            let ghost at = it.index();
            while j < media.len() && keys[j] < k
                invariant
                    j <= media@.len(),
                    keys@.len() == media@.len(),
                    0 <= at < ordered.len(),
                    k == anilist_key(ordered[at]),
                    ascending(ordered, anime_order()),
                    forall|i: int| 0 <= i < keys@.len() ==> keys@[i] as int == media_key(media@[i]),
                    forall|i: int| 0 <= i < j ==> media_key(#[trigger] media@[i]) < k,
                decreases media@.len() - j,
            {
                j += 1;
            }
            let ghost pred = has_key(k as int);
            proof {
                lemma_sorted_stable(graph, media_order(), k as int, pred);
            }
            let entry = if j < media.len() && keys[j] == k {
                proof {
                    lemma_first_match(media@, j as int, pred);
                }
                Some(media[j].duplicate())
            } else {
                proof {
                    assert forall|i: int| 0 <= i < media@.len() implies !pred(
                        #[trigger] media@[i],
                    ) by {
                        if i >= j {
                            assert(keys@[j as int] as int == media_key(media@[j as int]));
                            assert(media_order()(media@[j as int]) <= media_order()(media@[i]));
                        }
                    }
                    lemma_no_match(media@, pred);
                }
                None
            };
            out.push(DBAnime::from((anime, entry)));
            proof {
                assert forall|i: int, n: int|
                    0 <= i < j && at + 1 <= n < ordered.len() implies media_key(media@[i])
                    < anilist_key(ordered[n]) by {
                    assert(anime_order()(ordered[at]) <= anime_order()(ordered[n]));
                }
            }
        }
        proof {
            assert(origins(out@) =~= ordered);
            assert forall|k: int| #[trigger] with_key(origins(out@), k) == with_key(animes, k) by {
                lemma_sorted_stable(animes, anime_order(), k, key_is(k));
            }
        }
        out
    }
}

/// The place of the last entry of the anime graph that has the key `k`; -1
/// where none has it.
pub open spec fn last_with_key(anilists: Seq<Media>, k: int) -> int
    decreases anilists.len(),
{
    if anilists.len() == 0 {
        -1
    } else if media_key(anilists.last()) == k {
        anilists.len() - 1
    } else {
        last_with_key(anilists.drop_last(), k)
    }
}

/// For each anime that has an entry in the anime graph, the places of the
/// anime and of its entry: the animes in their order, and of several
/// entries with one id the last.
pub open spec fn matches_of(animes: Seq<DBAnime>, anilists: Seq<Media>) -> Seq<(int, int)>
    decreases animes.len(),
{
    if animes.len() == 0 {
        Seq::empty()
    } else {
        let before = matches_of(animes.drop_last(), anilists);
        match animes.last().linked_ids.anilist {
            Some(id) => if last_with_key(anilists, id.0 as int) >= 0 {
                before.push((animes.len() - 1, last_with_key(anilists, id.0 as int)))
            } else {
                before
            },
            None => before,
        }
    }
}

/// Whether two animes of the catalog say the same of what the song database
/// knows.
pub open spec fn same_origin(a: DBAnime, b: DBAnime) -> bool {
    &&& a.ann_id == b.ann_id
    &&& a.eng_name == b.eng_name
    &&& a.jpn_name == b.jpn_name
    &&& a.alt_name@ == b.alt_name@
    &&& a.vintage == b.vintage
    &&& a.linked_ids == b.linked_ids
    &&& a.anime_type == b.anime_type
    &&& a.anime_index == b.anime_index
}

fn find_last(anilists: &Vec<Media>, id: AnilistAnimeID) -> (r: Option<usize>)
    ensures
        r is None <==> last_with_key(anilists@, id.0 as int) < 0,
        r is Some ==> r->0 == last_with_key(anilists@, id.0 as int) && r->0 < anilists@.len(),
{
    let mut at: usize = anilists.len();
    proof {
        assert(anilists@.take(at as int) == anilists@);
    }
    while at > 0
        invariant
            at <= anilists@.len(),
            last_with_key(anilists@.take(at as int), id.0 as int) == last_with_key(
                anilists@,
                id.0 as int,
            ),
        decreases at,
    {
        proof {
            let upto = anilists@.take(at as int);
            assert(upto.drop_last() == anilists@.take(at as int - 1));
            assert(upto.last() == anilists@[at as int - 1]);
        }
        if anilists[at - 1].id.0 == id.0 {
            return Some(at - 1);
        }
        at -= 1;
    }
    None
}

/// Enriches anew the animes that have an entry in the anime graph. An anime
/// without an id in the graph, or without an entry there, is left out; of
/// several entries with one id the last counts.
pub fn match_by(animes: &Vec<DBAnime>, anilists: &Vec<Media>) -> (r: Vec<DBAnime>)
    ensures
        r@.len() == matches_of(animes@, anilists@).len(),
        forall|k: int|
            0 <= k < r@.len() ==> {
                let (a, m) = matches_of(animes@, anilists@)[k];
                &&& 0 <= a < animes@.len() && 0 <= m < anilists@.len()
                &&& same_origin(#[trigger] r@[k], animes@[a])
                &&& r@[k].enrichment() == anilists@[m].enrichment()
            },
{
    let mut out: Vec<DBAnime> = Vec::new();
    let mut i: usize = 0;
    while i < animes.len()
        invariant
            i <= animes@.len(),
            out@.len() == matches_of(animes@.take(i as int), anilists@).len(),
            forall|k: int|
                0 <= k < out@.len() ==> {
                    let (a, m) = matches_of(animes@.take(i as int), anilists@)[k];
                    &&& 0 <= a < i && 0 <= m < anilists@.len()
                    &&& same_origin(#[trigger] out@[k], animes@[a])
                    &&& out@[k].enrichment() == anilists@[m].enrichment()
                },
        decreases animes@.len() - i,
    {
        let anime = &animes[i];
        let ghost before = matches_of(animes@.take(i as int), anilists@);
        proof {
            let upto = animes@.take(i as int + 1);
            assert(upto.drop_last() == animes@.take(i as int));
            assert(upto.last() == animes@[i as int]);
        }
        let found = match anime.linked_ids.anilist {
            Some(id) => find_last(anilists, id),
            None => None,
        };
        match found {
            Some(at) => {
                let media = anilists[at].duplicate();
                out.push(
                    DBAnime {
                        ann_id: anime.ann_id,
                        eng_name: anime.eng_name.clone(),
                        jpn_name: anime.jpn_name.clone(),
                        alt_name: duplicate_texts(&anime.alt_name),
                        vintage: anime.vintage,
                        linked_ids: anime.linked_ids,
                        anime_type: anime.anime_type,
                        anime_index: anime.anime_index,
                        mean_score: media.mean_score,
                        banner_image: media.banner_image,
                        cover_image: media.cover_image,
                        format: media.format,
                        genres: media.genres,
                        source: media.source,
                        studios: media.studios,
                        tags: media.tags,
                        trailer: media.trailer,
                        episodes: media.episodes,
                        season: media.season,
                        season_year: media.season_year,
                    },
                );
            },
            None => {},
        }
        i += 1;
    }
    proof {
        assert(animes@.take(animes@.len() as int) == animes@);
    }
    out
}

} // verus!
