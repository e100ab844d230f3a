//! The resolver: from the rows that the catalog offers for a streamed track
//! to the answer for the listener, tier by tier.

use vstd::prelude::*;
use crate::catalog::DBAnisong;
use crate::ids::{AnisongArtistID, ImageURL, SongID, SpotifyArtistID, SpotifyTrackID};
use crate::ordering::lemma_first_match;
use crate::patterns::{
    artist_pattern, create_artist_regex, create_regex, search_pattern, texts_of,
};
use crate::pairing::{
    in_range, lemma_plan_in_range, pair_artists, pair_plan, plan_pairs, Candidate,
};
use crate::scoring::{
    first_best, lemma_exceeds_chain, lemma_first_best, rank_rows, RowScore,
};
use crate::songs::{artist_views, duplicate_artists, SimplifiedArtist as CatalogArtist};
use crate::spotify::{CurrentlyPlaying, SimplifiedArtist, TrackObject};
use crate::text::{process_possible_japanese, process_similarity, romanised, similarity_of};

verus! {

/// The rows that belong to the song a track was matched with, the other rows
/// by the same artists, and how certain the match is, from 0 to 100.
#[derive(Debug, Clone)]
pub struct NewSongHit {
    pub hits: Vec<DBAnisong>,
    pub more_by_artists: Vec<DBAnisong>,
    pub certainty: i32,
}

/// The rows that may belong to a track for which no match is claimed.
#[derive(Debug, Clone)]
pub struct NewSongMiss {
    pub possible: Vec<DBAnisong>,
}

/// What the catalog holds for a track: a match, or possibilities.
#[derive(Debug, Clone)]
pub enum Anisongs {
    Hit(NewSongHit),
    Miss(NewSongMiss),
}

/// What the listener is shown of the track itself.
#[derive(Debug, Clone)]
pub struct SongInfo {
    pub song_name: String,
    pub song_artists: Vec<String>,
    pub romanized_song_name: String,
    pub romanized_artists: Vec<String>,
    pub album_image: ImageURL,
    pub spotify_song_id: SpotifyTrackID,
}

/// A new track and what the catalog holds for it.
#[derive(Debug, Clone)]
pub struct SongUpdate {
    pub song_info: SongInfo,
    pub anisongs: Anisongs,
}

/// The answer to a listener who asks what plays.
#[derive(Debug, Clone)]
pub enum Update {
    /// The track is the one that was answered last.
    NoUpdates,
    /// The listener has to log in first.
    LoginRequired,
    /// The streaming service refused the request.
    UnAuthorized,
    /// No track plays.
    NotPlaying,
    /// A new track plays.
    NewSong(SongUpdate),
}

/// The names of a list of streaming artists.
pub open spec fn artist_names(artists: Seq<SimplifiedArtist>) -> Seq<Seq<char>> {
    artists.map_values(|a: SimplifiedArtist| a.name@)
}

/// The texts of a list of strings.
pub open spec fn text_views(texts: Seq<String>) -> Seq<Seq<char>> {
    texts.map_values(|s: String| s@)
}

/// The romanised form of each text of a list.
pub open spec fn romanised_all(texts: Seq<Seq<char>>) -> Seq<Seq<char>> {
    texts.map_values(|s: Seq<char>| romanised(s))
}

impl SongInfo {
    /// Whether this is what the listener is shown of the track: its name and
    /// artists, both also romanised, the first image of its album, and its
    /// id.
    pub open spec fn describes(self, track: TrackObject) -> bool {
        &&& self.song_name == track.name
        &&& text_views(self.song_artists@) == artist_names(track.artists@)
        &&& self.romanized_song_name@ == romanised(track.name@)
        &&& text_views(self.romanized_artists@) == romanised_all(artist_names(track.artists@))
        &&& track.album.images@.len() > 0
        &&& self.album_image == track.album.images@[0]
        &&& self.spotify_song_id == track.id
    }

    /// What the listener is shown of a track: its name and artists, both
    /// also romanised, the first image of its album, and its id.
    pub fn from_track(track: &TrackObject) -> (r: SongInfo)
        requires
            track.album.images@.len() > 0,
        ensures
            r.describes(*track),
    {
        let mut song_artists: Vec<String> = Vec::new();
        let mut romanized_artists: Vec<String> = Vec::new();
        let mut i: usize = 0;
        while i < track.artists.len()
            invariant
                i <= track.artists@.len(),
                text_views(song_artists@) == artist_names(track.artists@.take(i as int)),
                text_views(romanized_artists@) == romanised_all(
                    artist_names(track.artists@.take(i as int)),
                ),
            decreases track.artists@.len() - i,
        {
            let name = track.artists[i].name.clone();
            let roman = process_possible_japanese(name.as_str());
            let ghost names = text_views(song_artists@);
            let ghost romans = text_views(romanized_artists@);
            song_artists.push(name);
            romanized_artists.push(roman);
            proof {
                let upto = track.artists@.take(i as int + 1);
                assert(upto == track.artists@.take(i as int).push(track.artists@[i as int]));
                assert(text_views(song_artists@) =~= names.push(track.artists@[i as int].name@));
                assert(artist_names(upto) =~= names.push(track.artists@[i as int].name@));
                assert(text_views(romanized_artists@) =~= romans.push(
                    romanised(track.artists@[i as int].name@),
                ));
                assert(romanised_all(artist_names(upto)) =~= romans.push(
                    romanised(track.artists@[i as int].name@),
                ));
            }
            i += 1;
        }
        proof {
            assert(track.artists@.take(track.artists@.len() as int) == track.artists@);
        }
        SongInfo {
            song_name: track.name.clone(),
            romanized_song_name: process_possible_japanese(track.name.as_str()),
            romanized_artists,
            song_artists,
            album_image: track.album.images[0].duplicate(),
            spotify_song_id: track.id.duplicate(),
        }
    }
}

/// The least score of a pair, and the least certainty of a match, at which
/// the catalog learns a link on its own.
pub const AUTO_BIND_LIMIT: u8 = 90;

/// The test for a pair to score high enough for a link.
pub open spec fn binds() -> spec_fn((SimplifiedArtist, CatalogArtist, u8)) -> bool {
    |pair: (SimplifiedArtist, CatalogArtist, u8)| pair.2 >= AUTO_BIND_LIMIT
}

/// The link that a pair stands for: the catalog artist's id and the
/// streaming artist's id.
pub open spec fn link_of() -> spec_fn((SimplifiedArtist, CatalogArtist, u8)) -> (
    AnisongArtistID,
    SpotifyArtistID,
) {
    |pair: (SimplifiedArtist, CatalogArtist, u8)| (pair.1.id, pair.0.id)
}

/// The links that the catalog learns from the pairs of a match: one for
/// every pair that scores at least 90.
pub open spec fn links_of(pairs: Seq<(SimplifiedArtist, CatalogArtist, u8)>) -> Seq<
    (AnisongArtistID, SpotifyArtistID),
> {
    pairs.filter(binds()).map_values(link_of())
}

/// Picks the artist links to learn from the pairs of a match.
pub fn auto_links(pairs: &Vec<(SimplifiedArtist, CatalogArtist, u8)>) -> (r: Vec<
    (AnisongArtistID, SpotifyArtistID),
>)
    ensures
        r@ == links_of(pairs@),
{
    let mut links: Vec<(AnisongArtistID, SpotifyArtistID)> = Vec::new();
    let mut i: usize = 0;
    while i < pairs.len()
        invariant
            i <= pairs@.len(),
            links@ == links_of(pairs@.take(i as int)),
        decreases pairs@.len() - i,
    {
        let ghost done = pairs@.take(i as int);
        proof {
            assert(pairs@.take(i as int + 1) == done.push(pairs@[i as int]));
            done.lemma_filter_push(pairs@[i as int], binds());
        }
        if pairs[i].2 >= AUTO_BIND_LIMIT {
            links.push((pairs[i].1.id, pairs[i].0.id.duplicate()));
            proof {
                assert(links@ =~= links_of(done.push(pairs@[i as int])));
            }
        }
        i += 1;
    }
    proof {
        assert(pairs@.take(pairs@.len() as int) == pairs@);
    }
    links
}

/// The sum of the scores of some picks.
pub open spec fn pair_total(plan: Seq<Candidate>) -> int
    decreases plan.len(),
{
    if plan.len() == 0 {
        0
    } else {
        pair_total(plan.drop_last()) + plan.last().score
    }
}

/// The greater of two lengths.
pub open spec fn longer(a: nat, b: nat) -> nat {
    if a >= b {
        a
    } else {
        b
    }
}

/// What a row scores against a track with the given name and artists: the
/// similarity of the song names, the sum over the artist pairs, and the
/// larger of the two numbers of artists.
pub open spec fn row_score(
    row: DBAnisong,
    song_name: Seq<char>,
    artists: Seq<SimplifiedArtist>,
) -> RowScore {
    RowScore {
        name: similarity_of(song_name, row.song.name@),
        total: pair_total(pair_plan(artists, artist_views(row.song.artists@))) as u128,
        count: longer(artists.len(), row.song.artists@.len()) as usize,
    }
}

/// The scores of the rows of a list.
pub open spec fn row_scores(
    rows: Seq<DBAnisong>,
    song_name: Seq<char>,
    artists: Seq<SimplifiedArtist>,
) -> Seq<RowScore> {
    rows.map_values(|row: DBAnisong| row_score(row, song_name, artists))
}

/// The test for a row to score as much as `top`, or, with `level` false, not
/// to.
pub open spec fn scores_level(
    top: RowScore,
    song_name: Seq<char>,
    artists: Seq<SimplifiedArtist>,
    level: bool,
) -> spec_fn(DBAnisong) -> bool {
    |row: DBAnisong| row_score(row, song_name, artists).ties(top) == level
}

fn total_of(plan: &Vec<Candidate>) -> (total: u128)
    requires
        forall|k: int| 0 <= k < plan@.len() ==> (#[trigger] plan@[k]).score <= 100,
    ensures
        total == pair_total(plan@),
        total <= 100 * plan@.len(),
{
    let mut total: u128 = 0;
    let mut k: usize = 0;
    while k < plan.len()
        invariant
            k <= plan@.len(),
            total == pair_total(plan@.take(k as int)),
            total <= 100 * k,
            forall|k: int| 0 <= k < plan@.len() ==> (#[trigger] plan@[k]).score <= 100,
        decreases plan@.len() - k,
    {
        proof {
            let upto = plan@.take(k as int + 1);
            assert(upto.drop_last() == plan@.take(k as int));
            assert(upto.last() == plan@[k as int]);
        }
        total = total + plan[k].score as u128;
        k += 1;
    }
    proof {
        assert(plan@.take(plan@.len() as int) == plan@);
    }
    total
}

/// Scores one row against a track.
pub fn score_row(row: &DBAnisong, song_name: &str, artists: &Vec<SimplifiedArtist>) -> (r: RowScore)
    ensures
        r == row_score(*row, song_name@, artists@),
        r.valid(),
{
    let name = process_similarity(song_name, row.song.name.as_str());
    let plan = plan_pairs(artists, &row.song.artists);
    let total = total_of(&plan);
    let count = if artists.len() >= row.song.artists.len() {
        artists.len()
    } else {
        row.song.artists.len()
    };
    RowScore { name, total, count }
}

/// The rows that score as much as the best row, the other rows, and the
/// best row's score rounded down; then the artist pairs of the best row.
///
/// A row scores the mean of two numbers: the similarity of the song names,
/// and the sum of the scores of its artist pairs divided by the larger of
/// the two numbers of artists. The best row is the first of the rows with
/// the greatest score. Where the greatest score is 0 no pairs are returned,
/// and without rows nothing is.
pub fn select_best(
    anisongs: Vec<DBAnisong>,
    song_name: String,
    artists: Vec<SimplifiedArtist>,
) -> (r: (NewSongHit, Vec<(SimplifiedArtist, CatalogArtist, u8)>))
    ensures
        anisongs@.len() == 0 ==> r.0.hits@.len() == 0 && r.0.more_by_artists@.len() == 0
            && r.0.certainty == 0 && r.1@.len() == 0,
        anisongs@.len() > 0 ==> {
            let scores = row_scores(anisongs@, song_name@, artists@);
            let best = first_best(scores);
            let top = scores[best];
            let plan = pair_plan(artists@, artist_views(anisongs@[best].song.artists@));
            &&& 0 <= best < anisongs@.len()
            &&& top.valid()
            &&& forall|i: int| 0 <= i < scores.len() ==> !(#[trigger] scores[i]).exceeds(top)
            &&& in_range(plan, artists@.len() as int, anisongs@[best].song.artists@.len() as int)
            &&& r.0.hits@ == anisongs@.filter(scores_level(top, song_name@, artists@, true))
            &&& r.0.more_by_artists@ == anisongs@.filter(
                scores_level(top, song_name@, artists@, false),
            )
            &&& r.0.certainty == top.floor()
            &&& r.0.hits@.len() > 0
            &&& r.0.hits@[0].song.id == anisongs@[best].song.id
            &&& r.0.hits@[0].song.artists@ == anisongs@[best].song.artists@
            &&& top.weight() == 0 ==> r.1@.len() == 0
            &&& top.weight() > 0 ==> r.1@.len() == plan.len() && forall|k: int|
                0 <= k < r.1@.len() ==> {
                    &&& (#[trigger] r.1@[k]).0 == artists@[plan[k].streaming as int]
                    &&& r.1@[k].1@ == anisongs@[best].song.artists@[plan[k].catalog as int]@
                    &&& r.1@[k].2 == plan[k].score
                }
        },
        0 <= r.0.certainty <= 100,
        forall|p: int, q: int|
            0 <= p < q < r.1@.len() ==> (#[trigger] r.1@[p]).0.id.0@ != (#[trigger] r.1@[q]).0.id.0@
                && r.1@[p].1.id != r.1@[q].1.id,
{
    if anisongs.len() == 0 {
        return (
            NewSongHit { hits: Vec::new(), more_by_artists: Vec::new(), certainty: 0 },
            Vec::new(),
        );
    }
    let ghost rows = anisongs@;
    let ghost all = row_scores(rows, song_name@, artists@);
    let mut scores: Vec<RowScore> = Vec::new();
    let mut i: usize = 0;
    while i < anisongs.len()
        invariant
            i <= anisongs@.len(),
            rows == anisongs@,
            all == row_scores(rows, song_name@, artists@),
            scores@ == all.take(i as int),
            forall|k: int| 0 <= k < scores@.len() ==> (#[trigger] scores@[k]).valid(),
        decreases anisongs@.len() - i,
    {
        let score = score_row(&anisongs[i], song_name.as_str(), &artists);
        scores.push(score);
        proof {
            assert(scores@ =~= all.take(i as int + 1));
        }
        i += 1;
    }
    proof {
        assert(all.take(all.len() as int) == all);
        lemma_first_best(scores@);
    }
    let ranking = rank_rows(&scores);
    let best = match ranking.best {
        Some(best) => best,
        None => 0,
    };
    let top = scores[best];
    let ghost level = scores_level(top, song_name@, artists@, true);
    let ghost below = scores_level(top, song_name@, artists@, false);
    let zero = RowScore { name: 0, total: 0, count: 0 };
    proof {
        lemma_plan_in_range(artists@, artist_views(rows[best as int].song.artists@));
        assert(zero.parts() == 1 && zero.weight() == 0);
        assert(top.exceeds(zero) <==> top.weight() > 0) by (nonlinear_arith)
            requires
                top.exceeds(zero) <==> top.weight() * 1 > 0 * top.parts(),
        ;
    }
    let pairs = if top.is_above(&zero) {
        pair_artists(artists, duplicate_artists(&anisongs[best].song.artists))
    } else {
        Vec::new()
    };
    let mut hits: Vec<DBAnisong> = Vec::new();
    let mut more_by_artists: Vec<DBAnisong> = Vec::new();
    let mut at: usize = 0;
    let ghost mut first: int = -1;
    for row in it: anisongs
        invariant
            it.seq() == rows,
            at == it.index(),
            scores@ == all,
            all == row_scores(rows, song_name@, artists@),
            rows.len() == all.len(),
            rows.len() <= usize::MAX,
            0 <= best < rows.len(),
            top == all[best as int],
            level == scores_level(top, song_name@, artists@, true),
            below == scores_level(top, song_name@, artists@, false),
            forall|k: int| 0 <= k < scores@.len() ==> (#[trigger] scores@[k]).valid(),
            forall|k: int| 0 <= k < rows.len() ==> !(#[trigger] all[k]).exceeds(top),
            hits@ == rows.take(at as int).filter(level),
            more_by_artists@ == rows.take(at as int).filter(below),
            first < 0 <==> hits@.len() == 0,
            forall|k: int| 0 <= k < at && (#[trigger] all[k]).ties(top) ==> 0 <= first <= k,
            first >= 0 ==> first < at && hits@[0] == rows[first] && all[first].ties(top),
    {
        let ghost done = rows.take(at as int);
        assert(at < rows.len());
        proof {
            assert(rows.take(at as int + 1) == done.push(row));
            done.lemma_filter_push(row, level);
            done.lemma_filter_push(row, below);
            assert(all[at as int] == row_score(row, song_name@, artists@));
        }
        if scores[at].is_level(&top) {
            proof {
                if hits@.len() == 0 {
                    first = at as int;
                }
            }
            hits.push(row);
        } else {
            more_by_artists.push(row);
        }
        at += 1;
    }
    proof {
        assert(rows.take(rows.len() as int) == rows);
        // The best row ties with itself, so there is a first hit; and as the
        // best row is the first of the greatest score, it is that hit.
        assert(all[best as int].ties(top));
        lemma_first_is_earliest(all, first);
    }
    (NewSongHit { hits, more_by_artists, certainty: ranking.certainty }, pairs)
}

/// A score that ties with the greatest stands at or behind the place of the
/// first of the greatest.
pub proof fn lemma_first_is_earliest(scores: Seq<RowScore>, at: int)
    requires
        0 <= at < scores.len(),
        scores[at].ties(scores[first_best(scores)]),
    ensures
        first_best(scores) <= at,
    decreases scores.len(),
{
    lemma_first_best(scores);
    if scores.len() > 1 && at < scores.len() - 1 {
        let init = scores.drop_last();
        let before = first_best(init);
        lemma_first_best(init);
        assert(init[before] == scores[before]);
        assert(init[at] == scores[at]);
        if scores.last().exceeds(scores[before]) {
            // The last score is the greatest alone, so nothing before it ties.
            lemma_exceeds_chain(scores[at], scores[before], scores.last());
        } else {
            lemma_first_is_earliest(init, at);
        }
    }
}

/// A link between a catalog artist and a streaming artist.
pub type ArtistLink = (AnisongArtistID, SpotifyArtistID);

/// A link between a catalog song and a streaming track.
pub type TrackLink = (SongID, SpotifyTrackID);

/// The test for a pick to score high enough for a link.
pub open spec fn pick_binds() -> spec_fn(Candidate) -> bool {
    |c: Candidate| c.score >= AUTO_BIND_LIMIT
}

/// The link that a pick stands for, by the lists that the pick points into.
pub open spec fn pick_link(
    streaming: Seq<SimplifiedArtist>,
    catalog: Seq<CatalogArtist>,
) -> spec_fn(Candidate) -> ArtistLink {
    |c: Candidate| (catalog[c.catalog as int].id, streaming[c.streaming as int].id)
}

/// The links that the catalog learns from a matching: one for every pick
/// that scores at least 90.
pub open spec fn plan_links(
    plan: Seq<Candidate>,
    streaming: Seq<SimplifiedArtist>,
    catalog: Seq<CatalogArtist>,
) -> Seq<ArtistLink> {
    plan.filter(pick_binds()).map_values(pick_link(streaming, catalog))
}

/// The links of the pairs of a matching are the links of the matching.
pub proof fn lemma_links_agree(
    pairs: Seq<(SimplifiedArtist, CatalogArtist, u8)>,
    plan: Seq<Candidate>,
    streaming: Seq<SimplifiedArtist>,
    catalog: Seq<CatalogArtist>,
)
    requires
        pairs.len() == plan.len(),
        in_range(plan, streaming.len() as int, catalog.len() as int),
        forall|k: int|
            0 <= k < pairs.len() ==> {
                &&& (#[trigger] pairs[k]).0 == streaming[plan[k].streaming as int]
                &&& pairs[k].1@ == catalog[plan[k].catalog as int]@
                &&& pairs[k].2 == plan[k].score
            },
    ensures
        links_of(pairs) == plan_links(plan, streaming, catalog),
    decreases pairs.len(),
{
    if pairs.len() == 0 {
        assert(pairs.filter(binds()) =~= Seq::empty());
        assert(plan.filter(pick_binds()) =~= Seq::empty());
        assert(links_of(pairs) =~= plan_links(plan, streaming, catalog));
    } else {
        let pairs0 = pairs.drop_last();
        let plan0 = plan.drop_last();
        assert forall|k: int| 0 <= k < pairs0.len() implies {
            &&& (#[trigger] pairs0[k]).0 == streaming[plan0[k].streaming as int]
            &&& pairs0[k].1@ == catalog[plan0[k].catalog as int]@
            &&& pairs0[k].2 == plan0[k].score
        } by {
            assert(pairs0[k] == pairs[k] && plan0[k] == plan[k]);
        }
        assert forall|i: int| 0 <= i < plan0.len() implies (#[trigger] plan0[i]).streaming
            < streaming.len() && plan0[i].catalog < catalog.len() by {
            assert(plan0[i] == plan[i]);
        }
        lemma_links_agree(pairs0, plan0, streaming, catalog);
        assert(pairs == pairs0.push(pairs.last()));
        assert(plan == plan0.push(plan.last()));
        pairs0.lemma_filter_push(pairs.last(), binds());
        plan0.lemma_filter_push(plan.last(), pick_binds());
        let k = pairs.len() - 1;
        assert(pairs[k].2 == plan[k].score);
        if plan.last().score >= AUTO_BIND_LIMIT {
            assert(links_of(pairs) =~= links_of(pairs0).push(link_of()(pairs.last())));
            assert(plan_links(plan, streaming, catalog) =~= plan_links(
                plan0,
                streaming,
                catalog,
            ).push(pick_link(streaming, catalog)(plan.last())));
        }
    }
}

/// The test for a row to belong to the song with the given id, or, with
/// `same` false, not to.
pub open spec fn of_song(id: Option<SongID>, same: bool) -> spec_fn(DBAnisong) -> bool {
    |row: DBAnisong| (row.song.id == id) == same
}

/// Some rows are of a song exactly where one of them has the song's id.
pub proof fn lemma_some_of_song(rows: Seq<DBAnisong>, id: Option<SongID>)
    ensures
        rows.filter(of_song(id, true)).len() > 0 <==> exists|i: int|
            0 <= i < rows.len() && (#[trigger] rows[i]).song.id == id,
    decreases rows.len(),
{
    reveal(Seq::filter);
    if rows.len() > 0 {
        let init = rows.drop_last();
        lemma_some_of_song(init, id);
        if exists|i: int| 0 <= i < rows.len() && (#[trigger] rows[i]).song.id == id {
            let i = choose|i: int| 0 <= i < rows.len() && (#[trigger] rows[i]).song.id == id;
            if i < init.len() {
                assert(init[i].song.id == id);
            }
        }
        if exists|i: int| 0 <= i < init.len() && (#[trigger] init[i]).song.id == id {
            let i = choose|i: int| 0 <= i < init.len() && (#[trigger] init[i]).song.id == id;
            assert(rows[i].song.id == id);
        }
        if rows.last().song.id == id {
            assert(rows[rows.len() - 1].song.id == id);
        }
    }
}

/// Splits rows into those of the song with the given id and the others.
pub fn split_by_song(rows: Vec<DBAnisong>, id: Option<SongID>) -> (r: (
    Vec<DBAnisong>,
    Vec<DBAnisong>,
))
    ensures
        r.0@ == rows@.filter(of_song(id, true)),
        r.1@ == rows@.filter(of_song(id, false)),
{
    let ghost input = rows@;
    let mut hits: Vec<DBAnisong> = Vec::new();
    let mut others: Vec<DBAnisong> = Vec::new();
    for row in it: rows
        invariant
            it.seq() == input,
            hits@ == input.take(it.index()).filter(of_song(id, true)),
            others@ == input.take(it.index()).filter(of_song(id, false)),
    {
        let ghost done = input.take(it.index());
        proof {
            assert(input.take(it.index() + 1) == done.push(row));
            done.lemma_filter_push(row, of_song(id, true));
            done.lemma_filter_push(row, of_song(id, false));
        }
        let same = match (row.song.id, id) {
            (Some(a), Some(b)) => a.0 == b.0,
            (None, None) => true,
            _ => false,
        };
        if same {
            hits.push(row);
        } else {
            others.push(row);
        }
    }
    proof {
        assert(input.take(input.len() as int) == input);
    }
    (hits, others)
}

/// A copy of a list of streaming artists, in the same order.
pub fn duplicate_streaming(v: &Vec<SimplifiedArtist>) -> (r: Vec<SimplifiedArtist>)
    ensures
        r@ == v@,
{
    let mut r: Vec<SimplifiedArtist> = Vec::new();
    let mut i: usize = 0;
    while i < v.len()
        invariant
            i <= v@.len(),
            r@ == v@.take(i as int),
        decreases v@.len() - i,
    {
        r.push(v[i].duplicate());
        proof {
            assert(v@.take(i as int + 1) == v@.take(i as int).push(v@[i as int]));
        }
        i += 1;
    }
    proof {
        assert(v@.take(v@.len() as int) == v@);
    }
    r
}

/// A question to the catalog.
#[derive(Debug, Clone)]
pub enum Query {
    /// The rows of the song that is linked to a streaming track, first, and
    /// the other rows of that song's artists.
    ByTrackId(SpotifyTrackID),
    /// The rows of the artists that are linked to some streaming artists,
    /// and of their groups and members.
    ByArtistIds(Vec<SpotifyArtistID>),
    /// The rows whose song name matches one pattern or one of whose artists
    /// has a name that matches the other.
    FullSearch { song_regex: String, artist_regex: String, case_sensitive: bool },
    /// The rows of some catalog artists, and of their groups and members.
    ByInternalArtistIds(Vec<AnisongArtistID>),
}

/// The tier of the cascade at which rows are awaited.
#[derive(Debug, Clone, Copy, PartialEq, Eq)]
pub enum Tier {
    /// The rows of the track's own link.
    TrackLink,
    /// The rows of the links of the track's artists.
    ArtistLink,
    /// The rows of the strict search: whole words, case as written.
    StrictSearch,
    /// The whole discography of the artists of the song that the strict
    /// search found, with that song's id and the certainty of the match.
    Discography { certainty: i32, song_id: Option<SongID> },
    /// The rows of the permissive search.
    LooseSearch,
}

impl Tier {
    /// The place of the tier in the order of the cascade.
    pub open spec fn rank(self) -> int {
        match self {
            Tier::TrackLink => 0,
            Tier::ArtistLink => 1,
            Tier::StrictSearch => 2,
            Tier::Discography { .. } => 3,
            Tier::LooseSearch => 4,
        }
    }
}

/// The links that the catalog is to learn before the cascade goes on.
#[derive(Debug, Clone)]
pub struct Links {
    pub artists: Vec<ArtistLink>,
    pub tracks: Vec<TrackLink>,
}

/// What the resolver asks of its caller.
#[derive(Debug, Clone)]
pub enum Step {
    /// Store the links, put the query to the catalog, and come back with the
    /// rows at the tier named.
    Ask { links: Links, query: Query, tier: Tier },
    /// Store the links, and answer the listener.
    Answer { links: Links, anisongs: Anisongs },
}

impl Links {
    /// Whether nothing is to be learned.
    pub open spec fn is_empty(self) -> bool {
        self.artists@.len() == 0 && self.tracks@.len() == 0
    }

    /// Nothing to learn.
    pub fn none() -> (r: Links)
        ensures
            r.is_empty(),
    {
        Links { artists: Vec::new(), tracks: Vec::new() }
    }
}

/// The ids of a list of streaming artists.
pub open spec fn ids_of_streaming(artists: Seq<SimplifiedArtist>) -> Seq<SpotifyArtistID> {
    artists.map_values(|a: SimplifiedArtist| a.id)
}

/// The ids of a list of catalog artists.
pub open spec fn ids_of_catalog(artists: Seq<CatalogArtist>) -> Seq<AnisongArtistID> {
    artists.map_values(|a: CatalogArtist| a.id)
}

/// Whether a track needs no new answer: it is the track that was answered
/// last, and the listener did not ask for a refresh.
pub open spec fn repeats(
    prev_played: Option<SpotifyTrackID>,
    track: TrackObject,
    refresh: Option<bool>,
) -> bool {
    refresh != Some(true) && match prev_played {
        Some(prev) => prev.0@ == track.id.0@,
        None => false,
    }
}

/// Whether a track needs no new answer: it is the track that was answered
/// last, and the listener did not ask for a refresh.
pub fn is_repeat(
    prev_played: &Option<SpotifyTrackID>,
    track: &TrackObject,
    refresh: Option<bool>,
) -> (b: bool)
    ensures
        b == repeats(*prev_played, *track, refresh),
{
    match refresh {
        Some(true) => false,
        _ => match prev_played {
            Some(prev) => prev.same(&track.id),
            None => false,
        },
    }
}

/// What came of asking the streaming service what a listener plays.
#[derive(Debug, Clone)]
pub enum Playback {
    /// The session holds no tokens, or its tokens could not be refreshed.
    NoTokens,
    /// The streaming service refused the request.
    Refused,
    /// The streaming service reported what plays.
    Reported(CurrentlyPlaying),
}

/// What is to be done for a listener who asks what plays.
#[derive(Debug, Clone)]
pub enum Course {
    /// Answer at once. Where `remember` holds an id, the session is to keep
    /// it as the track that was answered last.
    Answer { update: Update, remember: Option<SpotifyTrackID> },
    /// Keep the track as the one that was answered last, and run the
    /// cascade for it.
    Resolve { track: TrackObject },
}

/// What is owed to a listener who asks what plays. Without tokens the
/// listener has to log in; a refusal of the streaming service is passed on;
/// a session that plays no track is told so, and forgets the track that was
/// answered last; a track that was answered last needs no new answer unless
/// a refresh is asked for; any other track goes into the cascade.
pub open spec fn course_of(
    playback: Playback,
    prev_played: Option<SpotifyTrackID>,
    refresh: Option<bool>,
    r: Course,
) -> bool {
    match playback {
        Playback::NoTokens => r == (Course::Answer { update: Update::LoginRequired, remember: None }),
        Playback::Refused => r == (Course::Answer { update: Update::UnAuthorized, remember: None }),
        Playback::Reported(CurrentlyPlaying::Track(track)) => if repeats(
            prev_played,
            track,
            refresh,
        ) {
            r == (Course::Answer { update: Update::NoUpdates, remember: None })
        } else {
            r == (Course::Resolve { track })
        },
        Playback::Reported(_) => match r {
            Course::Answer { update: Update::NotPlaying, remember: Some(id) } => id.0@.len() == 0,
            _ => false,
        },
    }
}

/// Decides what is owed to a listener who asks what plays, by what came of
/// asking the streaming service.
pub fn on_playback(
    playback: Playback,
    prev_played: &Option<SpotifyTrackID>,
    refresh: Option<bool>,
) -> (r: Course)
    ensures
        course_of(playback, *prev_played, refresh, r),
{
    match playback {
        Playback::NoTokens => Course::Answer { update: Update::LoginRequired, remember: None },
        Playback::Refused => Course::Answer { update: Update::UnAuthorized, remember: None },
        Playback::Reported(CurrentlyPlaying::Track(track)) => {
            if is_repeat(prev_played, &track, refresh) {
                Course::Answer { update: Update::NoUpdates, remember: None }
            } else {
                Course::Resolve { track }
            }
        },
        Playback::Reported(_) => Course::Answer {
            update: Update::NotPlaying,
            remember: Some(SpotifyTrackID(String::new())),
        },
    }
}

/// The first question of the cascade: the rows of the track's own link.
pub fn begin(track: &TrackObject) -> (r: (Tier, Query))
    ensures
        r.0 == Tier::TrackLink,
        r.1 == Query::ByTrackId(track.id),
{
    (Tier::TrackLink, Query::ByTrackId(track.id.duplicate()))
}

fn streaming_ids_of(artists: &Vec<SimplifiedArtist>) -> (r: Vec<SpotifyArtistID>)
    ensures
        r@ == ids_of_streaming(artists@),
{
    let mut r: Vec<SpotifyArtistID> = Vec::new();
    let mut i: usize = 0;
    while i < artists.len()
        invariant
            i <= artists@.len(),
            r@ == ids_of_streaming(artists@.take(i as int)),
        decreases artists@.len() - i,
    {
        r.push(artists[i].id.duplicate());
        proof {
            assert(artists@.take(i as int + 1) == artists@.take(i as int).push(artists@[i as int]));
            assert(r@ =~= ids_of_streaming(artists@.take(i as int + 1)));
        }
        i += 1;
    }
    proof {
        assert(artists@.take(artists@.len() as int) == artists@);
    }
    r
}

fn catalog_ids_of(artists: &Vec<CatalogArtist>) -> (r: Vec<AnisongArtistID>)
    ensures
        r@ == ids_of_catalog(artists@),
{
    let mut r: Vec<AnisongArtistID> = Vec::new();
    let mut i: usize = 0;
    while i < artists.len()
        invariant
            i <= artists@.len(),
            r@ == ids_of_catalog(artists@.take(i as int)),
        decreases artists@.len() - i,
    {
        r.push(artists[i].id);
        proof {
            assert(artists@.take(i as int + 1) == artists@.take(i as int).push(artists@[i as int]));
            assert(r@ =~= ids_of_catalog(artists@.take(i as int + 1)));
        }
        i += 1;
    }
    proof {
        assert(artists@.take(artists@.len() as int) == artists@);
    }
    r
}

/// Whether a question is the search for a track: the patterns of the track's
/// name and of its artists' names, with the given strictness.
pub open spec fn is_search(
    query: Query,
    track: TrackObject,
    whole_word: bool,
    case_sensitive: bool,
) -> bool {
    match query {
        Query::FullSearch { song_regex, artist_regex, case_sensitive: cs } => {
            &&& song_regex@ == search_pattern(track.name@, whole_word)
            &&& artist_regex@ == artist_pattern(artist_names(track.artists@), whole_word)
            &&& cs == case_sensitive
        },
        _ => false,
    }
}

/// The question of a search tier: the patterns of the track's name and of
/// its artists' names.
pub fn search_query(track: &TrackObject, whole_word: bool, case_sensitive: bool) -> (r: Query)
    ensures
        is_search(r, *track, whole_word, case_sensitive),
{
    let song_regex = create_regex(track.name.as_str(), whole_word);
    let mut names: Vec<&String> = Vec::new();
    let mut i: usize = 0;
    while i < track.artists.len()
        invariant
            i <= track.artists@.len(),
            texts_of(names@) == artist_names(track.artists@.take(i as int)),
        decreases track.artists@.len() - i,
    {
        let ghost held = texts_of(names@);
        names.push(&track.artists[i].name);
        proof {
            let upto = track.artists@.take(i as int + 1);
            assert(upto == track.artists@.take(i as int).push(track.artists@[i as int]));
            assert(texts_of(names@) =~= held.push(track.artists@[i as int].name@));
            assert(artist_names(upto) =~= held.push(track.artists@[i as int].name@));
        }
        i += 1;
    }
    proof {
        assert(track.artists@.take(track.artists@.len() as int) == track.artists@);
    }
    let artist_regex = create_artist_regex(names, whole_word);
    Query::FullSearch { song_regex, artist_regex, case_sensitive }
}

/// The place of the best row for a track.
pub open spec fn best_row(rows: Seq<DBAnisong>, track: TrackObject) -> int {
    first_best(row_scores(rows, track.name@, track.artists@))
}

/// The score of the best row for a track.
pub open spec fn top_score(rows: Seq<DBAnisong>, track: TrackObject) -> RowScore {
    row_scores(rows, track.name@, track.artists@)[best_row(rows, track)]
}

/// Whether the best row is certain enough for the catalog to learn from it.
pub open spec fn is_certain(rows: Seq<DBAnisong>, track: TrackObject) -> bool {
    top_score(rows, track).floor() >= AUTO_BIND_LIMIT
}

/// The certainty that is claimed for the best row: its score rounded down,
/// and 100 once that reaches 90.
pub open spec fn claimed_certainty(rows: Seq<DBAnisong>, track: TrackObject) -> int {
    if is_certain(rows, track) {
        100
    } else {
        top_score(rows, track).floor()
    }
}

/// The artist links that the catalog learns from the best row: none unless
/// the match is certain, and then one for every pair of the best row that
/// scores at least 90.
pub open spec fn learned_artists(rows: Seq<DBAnisong>, track: TrackObject) -> Seq<ArtistLink> {
    let catalog = rows[best_row(rows, track)].song.artists@;
    if is_certain(rows, track) {
        plan_links(pair_plan(track.artists@, artist_views(catalog)), track.artists@, catalog)
    } else {
        Seq::empty()
    }
}

/// The track link that the catalog learns from the best row: none unless the
/// match is certain and the best row's song has an id.
pub open spec fn learned_tracks(rows: Seq<DBAnisong>, track: TrackObject) -> Seq<TrackLink> {
    match rows[best_row(rows, track)].song.id {
        Some(id) => if is_certain(rows, track) {
            seq![(id, track.id)]
        } else {
            Seq::empty()
        },
        None => Seq::empty(),
    }
}

/// What the scoring of some rows comes to for the cascade.
struct Scored {
    hit: NewSongHit,
    links: Links,
}

/// Scores rows against a track, claims the certainty, and gathers what the
/// catalog learns.
fn score_rows(track: &TrackObject, rows: Vec<DBAnisong>) -> (r: Scored)
    requires
        rows@.len() > 0,
    ensures
        r.hit.hits@ == rows@.filter(
            scores_level(top_score(rows@, *track), track.name@, track.artists@, true),
        ),
        r.hit.more_by_artists@ == rows@.filter(
            scores_level(top_score(rows@, *track), track.name@, track.artists@, false),
        ),
        r.hit.certainty == claimed_certainty(rows@, *track),
        r.hit.hits@.len() > 0,
        r.hit.hits@[0].song.id == rows@[best_row(rows@, *track)].song.id,
        r.hit.hits@[0].song.artists@ == rows@[best_row(rows@, *track)].song.artists@,
        r.links.artists@ == learned_artists(rows@, *track),
        r.links.tracks@ == learned_tracks(rows@, *track),
{
    let ghost best = best_row(rows@, *track);
    let ghost catalog = rows@[best].song.artists@;
    let ghost input = rows@;
    let (mut hit, pairs) = select_best(
        rows,
        track.name.clone(),
        duplicate_streaming(&track.artists),
    );
    let mut links = Links::none();
    if hit.certainty >= AUTO_BIND_LIMIT as i32 {
        hit.certainty = 100;
        proof {
            let top = top_score(rows@, *track);
            let plan = pair_plan(track.artists@, artist_views(catalog));
            top.lemma_weight();
            assert(top.weight() > 0) by (nonlinear_arith)
                requires
                    top.weight() / (2 * top.parts()) >= 90,
                    top.parts() > 0,
            ;
            assert forall|k: int| 0 <= k < pairs@.len() implies (#[trigger] pairs@[k]).1@
                == catalog[plan[k].catalog as int]@ by {
                assert(artist_views(catalog)[plan[k].catalog as int] == catalog[plan[k].catalog as int]@);
            }
            lemma_links_agree(pairs@, plan, track.artists@, catalog);
        }
        let artists = auto_links(&pairs);
        let mut tracks: Vec<TrackLink> = Vec::new();
        match hit.hits[0].song.id {
            Some(id) => {
                tracks.push((id, track.id.duplicate()));
            },
            None => {},
        }
        links = Links { artists, tracks };
    }
    Scored { hit, links }
}

/// What tier 1 comes to. With rows, the first row's song is the match: the
/// rows of that song are the hits, the other rows go along as more by the
/// same artists, and the match is certain. The catalog learns a link for
/// every artist pair of the matched song that scores at least 90. Without
/// rows the cascade goes on to the links of the track's artists.
pub open spec fn track_link_step(track: TrackObject, rows: Seq<DBAnisong>, r: Step) -> bool {
    if rows.len() == 0 {
        match r {
            Step::Ask { links, query: Query::ByArtistIds(ids), tier: Tier::ArtistLink } => {
                links.is_empty() && ids@ == ids_of_streaming(track.artists@)
            },
            _ => false,
        }
    } else {
        match r {
            Step::Answer { links, anisongs: Anisongs::Hit(hit) } => {
                let id = rows[0].song.id;
                let catalog = rows[0].song.artists@;
                &&& hit.hits@ == rows.filter(of_song(id, true))
                &&& hit.more_by_artists@ == rows.filter(of_song(id, false))
                &&& hit.certainty == 100
                &&& hit.hits@.len() > 0
                &&& hit.hits@[0] == rows[0]
                &&& links.tracks@.len() == 0
                &&& links.artists@ == plan_links(
                    pair_plan(track.artists@, artist_views(catalog)),
                    track.artists@,
                    catalog,
                )
            },
            _ => false,
        }
    }
}

/// What tier 2 comes to. With rows, the rows are scored against the track:
/// those that score as much as the best row are the hits, the others go
/// along. A match of certainty 90 or more counts as certain: the catalog
/// learns the track's link to the matched song and a link for every artist
/// pair that scores at least 90. Without rows the cascade goes on to the
/// strict search.
pub open spec fn artist_link_step(track: TrackObject, rows: Seq<DBAnisong>, r: Step) -> bool {
    if rows.len() == 0 {
        match r {
            Step::Ask { links, query, tier: Tier::StrictSearch } => {
                links.is_empty() && is_search(query, track, true, true)
            },
            _ => false,
        }
    } else {
        match r {
            Step::Answer { links, anisongs: Anisongs::Hit(hit) } => {
                let top = top_score(rows, track);
                &&& hit.hits@ == rows.filter(scores_level(top, track.name@, track.artists@, true))
                &&& hit.more_by_artists@ == rows.filter(
                    scores_level(top, track.name@, track.artists@, false),
                )
                &&& hit.certainty == claimed_certainty(rows, track)
                &&& hit.hits@.len() > 0
                &&& links.artists@ == learned_artists(rows, track)
                &&& links.tracks@ == learned_tracks(rows, track)
            },
            _ => false,
        }
    }
}

/// What the first half of tier 3 comes to. With rows, the rows are scored as
/// in tier 2 and the catalog learns the same links; then the cascade asks
/// for the whole discography of the artists of the best row's song. Without
/// rows the cascade goes on to the permissive search.
pub open spec fn strict_search_step(track: TrackObject, rows: Seq<DBAnisong>, r: Step) -> bool {
    if rows.len() == 0 {
        match r {
            Step::Ask { links, query, tier: Tier::LooseSearch } => {
                links.is_empty() && is_search(query, track, false, false)
            },
            _ => false,
        }
    } else {
        match r {
            Step::Ask {
                links,
                query: Query::ByInternalArtistIds(ids),
                tier: Tier::Discography { certainty, song_id },
            } => {
                let best = rows[best_row(rows, track)];
                &&& links.artists@ == learned_artists(rows, track)
                &&& links.tracks@ == learned_tracks(rows, track)
                &&& ids@ == ids_of_catalog(best.song.artists@)
                &&& certainty == claimed_certainty(rows, track)
                &&& song_id == best.song.id
            },
            _ => false,
        }
    }
}

/// What the second half of tier 3 comes to. The rows of the song that the
/// strict search found are the hits, the other rows of the discography go
/// along, and the certainty is the one that the strict search claimed.
pub open spec fn discography_step(
    certainty: i32,
    song_id: Option<SongID>,
    rows: Seq<DBAnisong>,
    r: Step,
) -> bool {
    match r {
        Step::Answer { links, anisongs: Anisongs::Hit(hit) } => {
            &&& links.is_empty()
            &&& hit.hits@ == rows.filter(of_song(song_id, true))
            &&& hit.more_by_artists@ == rows.filter(of_song(song_id, false))
            &&& hit.certainty == certainty
        },
        _ => false,
    }
}

/// What tier 4 comes to. Whatever the permissive search found is offered as
/// possible; no match is claimed and nothing is learned.
pub open spec fn loose_search_step(rows: Seq<DBAnisong>, r: Step) -> bool {
    match r {
        Step::Answer { links, anisongs: Anisongs::Miss(miss) } => {
            links.is_empty() && miss.possible@ == rows
        },
        _ => false,
    }
}

/// Tier 1: the rows of the track's own link.
pub fn by_track_link(track: &TrackObject, rows: Vec<DBAnisong>) -> (r: Step)
    ensures
        track_link_step(*track, rows@, r),
{
    if rows.len() == 0 {
        return Step::Ask {
            links: Links::none(),
            query: Query::ByArtistIds(streaming_ids_of(&track.artists)),
            tier: Tier::ArtistLink,
        };
    }
    let id = rows[0].song.id;
    let ghost input = rows@;
    let ghost catalog = rows@[0].song.artists@;
    proof {
        lemma_first_match(input, 0, of_song(id, true));
    }
    let (hits, more_by_artists) = split_by_song(rows, id);
    let pairs = pair_artists(
        duplicate_streaming(&track.artists),
        duplicate_artists(&hits[0].song.artists),
    );
    proof {
        let plan = pair_plan(track.artists@, artist_views(catalog));
        lemma_plan_in_range(track.artists@, artist_views(catalog));
        assert forall|k: int| 0 <= k < pairs@.len() implies (#[trigger] pairs@[k]).1@
            == catalog[plan[k].catalog as int]@ by {
            assert(artist_views(catalog)[plan[k].catalog as int] == catalog[plan[k].catalog as int]@);
        }
        lemma_links_agree(pairs@, plan, track.artists@, catalog);
    }
    let links = Links { artists: auto_links(&pairs), tracks: Vec::new() };
    Step::Answer {
        links,
        anisongs: Anisongs::Hit(NewSongHit { hits, more_by_artists, certainty: 100 }),
    }
}

/// Tier 2: the rows of the links of the track's artists.
pub fn by_artist_link(track: &TrackObject, rows: Vec<DBAnisong>) -> (r: Step)
    ensures
        artist_link_step(*track, rows@, r),
{
    if rows.len() == 0 {
        return Step::Ask {
            links: Links::none(),
            query: search_query(track, true, true),
            tier: Tier::StrictSearch,
        };
    }
    let scored = score_rows(track, rows);
    Step::Answer { links: scored.links, anisongs: Anisongs::Hit(scored.hit) }
}

/// Tier 3, first half: the rows of the strict search.
pub fn by_strict_search(track: &TrackObject, rows: Vec<DBAnisong>) -> (r: Step)
    ensures
        strict_search_step(*track, rows@, r),
{
    if rows.len() == 0 {
        return Step::Ask {
            links: Links::none(),
            query: search_query(track, false, false),
            tier: Tier::LooseSearch,
        };
    }
    let scored = score_rows(track, rows);
    let ids = catalog_ids_of(&scored.hit.hits[0].song.artists);
    let song_id = scored.hit.hits[0].song.id;
    Step::Ask {
        links: scored.links,
        query: Query::ByInternalArtistIds(ids),
        tier: Tier::Discography { certainty: scored.hit.certainty, song_id },
    }
}

/// Tier 3, second half: the discography of the artists of the song that the
/// strict search found. There is a hit exactly where the discography holds a
/// row of that song.
pub fn by_discography(certainty: i32, song_id: Option<SongID>, rows: Vec<DBAnisong>) -> (r: Step)
    ensures
        discography_step(certainty, song_id, rows@, r),
        match r {
            Step::Answer { anisongs: Anisongs::Hit(hit), .. } => {
                hit.hits@.len() > 0 <==> exists|i: int|
                    0 <= i < rows@.len() && (#[trigger] rows@[i]).song.id == song_id
            },
            _ => true,
        },
{
    proof {
        lemma_some_of_song(rows@, song_id);
    }
    let (hits, more_by_artists) = split_by_song(rows, song_id);
    Step::Answer {
        links: Links::none(),
        anisongs: Anisongs::Hit(NewSongHit { hits, more_by_artists, certainty }),
    }
}

/// Tier 4: the rows of the permissive search.
pub fn by_loose_search(rows: Vec<DBAnisong>) -> (r: Step)
    ensures
        loose_search_step(rows@, r),
{
    Step::Answer { links: Links::none(), anisongs: Anisongs::Miss(NewSongMiss { possible: rows }) }
}

/// Takes the cascade one step on, with the rows that the catalog gave at the
/// tier named. Whenever a tier before the discography claims a match, there
/// is a hit; and whenever the cascade goes on, it goes on to a later tier, so
/// that it ends after five questions at most.
pub fn advance(tier: Tier, track: &TrackObject, rows: Vec<DBAnisong>) -> (r: Step)
    ensures
        match tier {
            Tier::TrackLink => track_link_step(*track, rows@, r),
            Tier::ArtistLink => artist_link_step(*track, rows@, r),
            Tier::StrictSearch => strict_search_step(*track, rows@, r),
            Tier::Discography { certainty, song_id } => discography_step(
                certainty,
                song_id,
                rows@,
                r,
            ),
            Tier::LooseSearch => loose_search_step(rows@, r),
        },
        !(tier is Discography) ==> match r {
            Step::Answer { anisongs: Anisongs::Hit(hit), .. } => hit.hits@.len() > 0,
            _ => true,
        },
        match r {
            Step::Ask { tier: next, .. } => next.rank() > tier.rank(),
            _ => true,
        },
{
    match tier {
        Tier::TrackLink => by_track_link(track, rows),
        Tier::ArtistLink => by_artist_link(track, rows),
        Tier::StrictSearch => by_strict_search(track, rows),
        Tier::Discography { certainty, song_id } => by_discography(certainty, song_id, rows),
        Tier::LooseSearch => by_loose_search(rows),
    }
}

/// The answer to the listener once the cascade has ended.
pub fn answer(track: &TrackObject, anisongs: Anisongs) -> (r: Update)
    requires
        track.album.images@.len() > 0,
    ensures
        match r {
            Update::NewSong(update) => {
                update.anisongs == anisongs && update.song_info.describes(*track)
            },
            _ => false,
        },
{
    Update::NewSong(SongUpdate { song_info: SongInfo::from_track(track), anisongs })
}

} // verus!
