use what_anime::anilist::{CoverImage, StudioConnection};
use what_anime::anisong::{
    AnimeIndex, AnimeIndexType, AnimeListLinks, SongCategory, SongIndex, SongIndexType,
};
use what_anime::catalog::{DBAnime, DBAnisong, DBAnisongBind};
use what_anime::ids::{
    AnisongArtistID, AnnAnimeID, ImageURL, SongAnnId, SongID, SpotifyArtistID, SpotifyTrackID, URL,
};
use what_anime::patterns::{create_artist_regex, create_regex};
use what_anime::resolver::{
    advance, answer, auto_links, begin, by_artist_link, by_discography, by_loose_search,
    by_strict_search, by_track_link, is_repeat, on_playback, score_row, search_query,
    select_best, split_by_song, Anisongs, Course, Playback, Query, SongInfo, Step, Tier, Update,
};
use what_anime::scoring::RowScore;
use what_anime::songs::{SimplifiedAnisongSong, SimplifiedArtist as CatalogArtist};
use what_anime::spotify::{Album, CurrentlyPlaying, SimplifiedArtist, TrackObject};

fn streaming(id: &str, name: &str) -> SimplifiedArtist {
    SimplifiedArtist { id: SpotifyArtistID(id.to_string()), name: name.to_string() }
}

fn catalog(id: i32, names: &[&str]) -> CatalogArtist {
    CatalogArtist {
        names: names.iter().map(|n| n.to_string()).collect(),
        id: AnisongArtistID(id),
        line_up_id: None,
        group_ids: vec![],
        member_ids: vec![],
    }
}

fn track(id: &str, name: &str, artists: Vec<SimplifiedArtist>) -> TrackObject {
    TrackObject {
        album: Album {
            name: "album".to_string(),
            images: vec![
                ImageURL(URL("https://img.example/large".to_string())),
                ImageURL(URL("https://img.example/small".to_string())),
            ],
        },
        artists,
        id: SpotifyTrackID(id.to_string()),
        name: name.to_string(),
    }
}

fn row(song_id: Option<i32>, name: &str, artists: Vec<CatalogArtist>, anime: i32) -> DBAnisong {
    DBAnisong {
        anime: DBAnime {
            ann_id: AnnAnimeID(anime),
            eng_name: format!("anime {}", anime),
            jpn_name: String::new(),
            alt_name: vec![],
            vintage: None,
            linked_ids: AnimeListLinks { myanimelist: None, anidb: None, anilist: None, kitsu: None },
            anime_type: None,
            anime_index: AnimeIndex { index_type: AnimeIndexType::Season, number: 1, part: 1 },
            mean_score: None,
            banner_image: None,
            cover_image: CoverImage { color: None, medium: None, large: None, extra_large: None },
            format: None,
            genres: vec![],
            source: None,
            studios: StudioConnection { nodes: vec![] },
            tags: vec![],
            trailer: None,
            episodes: None,
            season: None,
            season_year: None,
        },
        song: SimplifiedAnisongSong {
            id: song_id.map(SongID),
            name: name.to_string(),
            artist_name: String::new(),
            composer_name: String::new(),
            arranger_name: String::new(),
            category: SongCategory::Standard,
            length: None,
            is_dub: false,
            hq: None,
            mq: None,
            audio: None,
            artists,
            composers: vec![],
            arrangers: vec![],
        },
        bind: DBAnisongBind {
            song_id: song_id.map(SongID),
            anime_ann_id: Some(AnnAnimeID(anime)),
            song_ann_id: SongAnnId(anime * 10),
            difficulty: None,
            song_index: SongIndex { index_type: SongIndexType::Opening, number: 1 },
            is_rebroadcast: false,
        },
    }
}

fn animes(rows: &[DBAnisong]) -> Vec<i32> {
    rows.iter().map(|r| r.anime.ann_id.0).collect()
}

fn idol() -> TrackObject {
    track(
        "4svcLG3SimzCbxH0RT7Omb",
        "idol",
        vec![streaming("s-lisa", "LiSA"), streaming("s-sumire", "Sumire Uesaka")],
    )
}

fn lisa() -> CatalogArtist {
    catalog(1, &["LiSA", "リサ"])
}

fn sumire() -> CatalogArtist {
    catalog(2, &["Sumire Uesaka"])
}

#[test]
fn a_track_that_was_answered_is_not_answered_again() {
    let t = idol();
    let same = Some(SpotifyTrackID("4svcLG3SimzCbxH0RT7Omb".to_string()));
    let other = Some(SpotifyTrackID("other".to_string()));
    assert!(is_repeat(&same, &t, None));
    assert!(is_repeat(&same, &t, Some(false)));
    assert!(!is_repeat(&same, &t, Some(true)));
    assert!(!is_repeat(&other, &t, None));
    assert!(!is_repeat(&None, &t, None));
    assert!(!is_repeat(&None, &t, Some(true)));
}

#[test]
fn the_cascade_begins_with_the_track_link() {
    let (tier, query) = begin(&idol());
    assert_eq!(tier, Tier::TrackLink);
    match query {
        Query::ByTrackId(id) => assert_eq!(id.0, "4svcLG3SimzCbxH0RT7Omb"),
        _ => panic!("not the track link"),
    }
}

#[test]
fn a_linked_track_is_a_certain_hit() {
    let rows = vec![
        row(Some(5), "idol", vec![lisa(), sumire()], 1),
        row(Some(5), "idol", vec![lisa(), sumire()], 2),
        row(Some(6), "crossing field", vec![lisa()], 3),
        row(Some(5), "idol", vec![lisa(), sumire()], 4),
        row(Some(7), "other", vec![sumire()], 5),
    ];
    match by_track_link(&idol(), rows) {
        Step::Answer { links, anisongs: Anisongs::Hit(hit) } => {
            assert_eq!(animes(&hit.hits), vec![1, 2, 4]);
            assert!(hit.hits.iter().all(|r| r.song.id == Some(SongID(5))));
            assert_eq!(animes(&hit.more_by_artists), vec![3, 5]);
            assert!(hit.more_by_artists.iter().all(|r| r.song.id != Some(SongID(5))));
            assert_eq!(hit.certainty, 100);
            assert!(links.tracks.is_empty());
            assert_eq!(
                links.artists,
                vec![
                    (AnisongArtistID(1), SpotifyArtistID("s-lisa".to_string())),
                    (AnisongArtistID(2), SpotifyArtistID("s-sumire".to_string())),
                ]
            );
        }
        _ => panic!("not a hit"),
    }
}

#[test]
fn a_linked_track_learns_only_good_pairs() {
    let rows = vec![row(Some(5), "idol", vec![catalog(1, &["LiSA"]), catalog(9, &["Aimer"])], 1)];
    match by_track_link(&idol(), rows) {
        Step::Answer { links, anisongs: Anisongs::Hit(hit) } => {
            assert_eq!(animes(&hit.hits), vec![1]);
            assert!(hit.more_by_artists.is_empty());
            assert_eq!(
                links.artists,
                vec![(AnisongArtistID(1), SpotifyArtistID("s-lisa".to_string()))]
            );
        }
        _ => panic!("not a hit"),
    }
}

#[test]
fn without_a_track_link_the_artists_are_asked_for() {
    match by_track_link(&idol(), vec![]) {
        Step::Ask { links, query: Query::ByArtistIds(ids), tier } => {
            assert_eq!(tier, Tier::ArtistLink);
            assert!(links.artists.is_empty() && links.tracks.is_empty());
            assert_eq!(
                ids,
                vec![
                    SpotifyArtistID("s-lisa".to_string()),
                    SpotifyArtistID("s-sumire".to_string())
                ]
            );
        }
        _ => panic!("not the artist link"),
    }
}

#[test]
fn the_rows_of_linked_artists_are_scored() {
    let rows = vec![
        row(Some(6), "crossing field", vec![lisa()], 3),
        row(Some(5), "idol", vec![lisa(), sumire()], 1),
        row(Some(5), "Idol", vec![sumire(), lisa()], 2),
        row(Some(7), "idol", vec![sumire()], 5),
    ];
    match by_artist_link(&idol(), rows) {
        Step::Answer { links, anisongs: Anisongs::Hit(hit) } => {
            assert_eq!(animes(&hit.hits), vec![1, 2]);
            assert_eq!(animes(&hit.more_by_artists), vec![3, 5]);
            assert_eq!(hit.certainty, 100);
            assert_eq!(
                links.tracks,
                vec![(SongID(5), SpotifyTrackID("4svcLG3SimzCbxH0RT7Omb".to_string()))]
            );
            assert_eq!(
                links.artists,
                vec![
                    (AnisongArtistID(1), SpotifyArtistID("s-lisa".to_string())),
                    (AnisongArtistID(2), SpotifyArtistID("s-sumire".to_string())),
                ]
            );
        }
        _ => panic!("not a hit"),
    }
}

#[test]
fn an_uncertain_match_teaches_nothing() {
    let rows = vec![
        row(Some(6), "crossing field", vec![lisa()], 3),
        row(Some(7), "gurenge", vec![lisa()], 4),
    ];
    let t = idol();
    let expected: Vec<RowScore> =
        rows.iter().map(|r| score_row(r, &t.name, &t.artists)).collect();
    assert!(expected.iter().all(|s| s.total == 100 && s.count == 2));
    match by_artist_link(&t, rows) {
        Step::Answer { links, anisongs: Anisongs::Hit(hit) } => {
            assert!(!hit.hits.is_empty());
            assert!(hit.certainty < 90);
            let best = if expected[1].is_above(&expected[0]) { 1 } else { 0 };
            assert_eq!(hit.certainty, expected[best].certainty());
            assert_eq!(hit.hits[0].anime.ann_id.0, [3, 4][best]);
            assert!(links.artists.is_empty());
            assert!(links.tracks.is_empty());
        }
        _ => panic!("not a hit"),
    }
}

#[test]
fn without_linked_artists_the_strict_search_is_asked_for() {
    let t = idol();
    match by_artist_link(&t, vec![]) {
        Step::Ask {
            links,
            query: Query::FullSearch { song_regex, artist_regex, case_sensitive },
            tier,
        } => {
            assert_eq!(tier, Tier::StrictSearch);
            assert!(links.artists.is_empty() && links.tracks.is_empty());
            assert!(case_sensitive);
            assert_eq!(song_regex, create_regex("idol", true));
            let names = ["LiSA".to_string(), "Sumire Uesaka".to_string()];
            assert_eq!(artist_regex, create_artist_regex(names.iter().collect(), true));
        }
        _ => panic!("not the strict search"),
    }
}

#[test]
fn the_strict_search_asks_for_the_discography_of_its_hit() {
    let rows = vec![
        row(Some(6), "crossing field", vec![lisa()], 3),
        row(Some(5), "idol", vec![lisa(), sumire()], 1),
    ];
    match by_strict_search(&idol(), rows) {
        Step::Ask { links, query: Query::ByInternalArtistIds(ids), tier } => {
            assert_eq!(ids, vec![AnisongArtistID(1), AnisongArtistID(2)]);
            assert_eq!(tier, Tier::Discography { certainty: 100, song_id: Some(SongID(5)) });
            assert_eq!(
                links.tracks,
                vec![(SongID(5), SpotifyTrackID("4svcLG3SimzCbxH0RT7Omb".to_string()))]
            );
            assert_eq!(links.artists.len(), 2);
        }
        _ => panic!("not the discography"),
    }
}

#[test]
fn without_strict_rows_the_permissive_search_is_asked_for() {
    match by_strict_search(&idol(), vec![]) {
        Step::Ask {
            links,
            query: Query::FullSearch { song_regex, artist_regex, case_sensitive },
            tier,
        } => {
            assert_eq!(tier, Tier::LooseSearch);
            assert!(links.artists.is_empty() && links.tracks.is_empty());
            assert!(!case_sensitive);
            assert_eq!(song_regex, create_regex("idol", false));
            let names = ["LiSA".to_string(), "Sumire Uesaka".to_string()];
            assert_eq!(artist_regex, create_artist_regex(names.iter().collect(), false));
        }
        _ => panic!("not the permissive search"),
    }
}

#[test]
fn the_discography_is_split_by_the_song_that_was_found() {
    let rows = vec![
        row(Some(6), "crossing field", vec![lisa()], 3),
        row(Some(5), "idol", vec![lisa(), sumire()], 1),
        row(Some(5), "idol", vec![lisa(), sumire()], 2),
    ];
    match by_discography(93, Some(SongID(5)), rows) {
        Step::Answer { links, anisongs: Anisongs::Hit(hit) } => {
            assert_eq!(animes(&hit.hits), vec![1, 2]);
            assert_eq!(animes(&hit.more_by_artists), vec![3]);
            assert_eq!(hit.certainty, 93);
            assert!(links.artists.is_empty() && links.tracks.is_empty());
        }
        _ => panic!("not a hit"),
    }
    match by_discography(10, Some(SongID(5)), vec![]) {
        Step::Answer { anisongs: Anisongs::Hit(hit), .. } => {
            assert!(hit.hits.is_empty() && hit.more_by_artists.is_empty());
            assert_eq!(hit.certainty, 10);
        }
        _ => panic!("not a hit"),
    }
}

#[test]
fn the_permissive_search_claims_nothing() {
    let rows = vec![row(Some(6), "crossing field", vec![lisa()], 3), row(None, "x", vec![], 4)];
    match by_loose_search(rows) {
        Step::Answer { links, anisongs: Anisongs::Miss(miss) } => {
            assert_eq!(animes(&miss.possible), vec![3, 4]);
            assert!(links.artists.is_empty() && links.tracks.is_empty());
        }
        _ => panic!("not a miss"),
    }
    match by_loose_search(vec![]) {
        Step::Answer { anisongs: Anisongs::Miss(miss), .. } => assert!(miss.possible.is_empty()),
        _ => panic!("not a miss"),
    }
}

#[test]
fn the_cascade_runs_through_its_tiers() {
    let t = idol();
    let found = vec![row(Some(5), "idol", vec![lisa(), sumire()], 1)];
    let discography = vec![
        row(Some(5), "idol", vec![lisa(), sumire()], 1),
        row(Some(6), "crossing field", vec![lisa()], 3),
    ];
    let (mut tier, _) = begin(&t);
    let mut asked = vec![];
    let mut given = vec![vec![], vec![], found, discography].into_iter();
    let outcome = loop {
        match advance(tier, &t, given.next().unwrap()) {
            Step::Ask { query, tier: next, .. } => {
                asked.push(match query {
                    Query::ByTrackId(_) => "track",
                    Query::ByArtistIds(_) => "artists",
                    Query::FullSearch { .. } => "search",
                    Query::ByInternalArtistIds(_) => "discography",
                });
                tier = next;
            }
            Step::Answer { anisongs, .. } => break anisongs,
        }
    };
    assert_eq!(asked, vec!["artists", "search", "discography"]);
    match outcome {
        Anisongs::Hit(hit) => {
            assert_eq!(animes(&hit.hits), vec![1]);
            assert_eq!(animes(&hit.more_by_artists), vec![3]);
            assert_eq!(hit.certainty, 100);
        }
        _ => panic!("not a hit"),
    }
    match advance(Tier::LooseSearch, &t, vec![]) {
        Step::Answer { anisongs: Anisongs::Miss(miss), .. } => assert!(miss.possible.is_empty()),
        _ => panic!("not a miss"),
    }
}

#[test]
fn every_tier_that_claims_a_match_has_a_hit() {
    let t = idol();
    let bare = track("x", "idol", vec![]);
    let samples: Vec<Vec<DBAnisong>> = vec![
        vec![row(Some(1), "zzz", vec![], 1)],
        vec![row(None, "", vec![], 1), row(None, "", vec![], 2)],
        vec![row(Some(1), "idol", vec![lisa()], 1), row(Some(2), "idol", vec![sumire()], 2)],
        vec![row(Some(1), "a", vec![catalog(1, &[])], 1)],
    ];
    for rows in samples {
        for tr in [&t, &bare] {
            for tier in [Tier::TrackLink, Tier::ArtistLink] {
                match advance(tier, tr, rows.clone()) {
                    Step::Answer { anisongs: Anisongs::Hit(hit), .. } => {
                        assert!(!hit.hits.is_empty());
                        assert_eq!(hit.hits.len() + hit.more_by_artists.len(), rows.len());
                    }
                    _ => panic!("not a hit"),
                }
            }
            let (hit, _) = select_best(rows.clone(), tr.name.clone(), tr.artists.clone());
            assert!(!hit.hits.is_empty());
        }
    }
}

#[test]
fn select_best_exact_values() {
    let t = idol();
    let rows = vec![
        row(Some(7), "idol", vec![sumire()], 5),
        row(Some(5), "idol", vec![lisa(), sumire()], 1),
        row(Some(5), "idol", vec![sumire(), lisa()], 2),
    ];
    // (100 + 100/2) / 2 = 75 for the first row, 100 for the others.
    assert_eq!(score_row(&rows[0], &t.name, &t.artists), RowScore { name: 100, total: 100, count: 2 });
    assert_eq!(score_row(&rows[1], &t.name, &t.artists), RowScore { name: 100, total: 200, count: 2 });
    let (hit, pairs) = select_best(rows, t.name.clone(), t.artists.clone());
    assert_eq!(animes(&hit.hits), vec![1, 2]);
    assert_eq!(animes(&hit.more_by_artists), vec![5]);
    assert_eq!(hit.certainty, 100);
    let shape: Vec<(&str, i32, u8)> =
        pairs.iter().map(|p| (p.0.id.0.as_str(), p.1.id.0, p.2)).collect();
    assert_eq!(shape, vec![("s-lisa", 1, 100), ("s-sumire", 2, 100)]);

    let (hit, pairs) = select_best(vec![], t.name.clone(), t.artists.clone());
    assert!(hit.hits.is_empty() && hit.more_by_artists.is_empty() && pairs.is_empty());
    assert_eq!(hit.certainty, 0);

    let one = vec![row(Some(7), "idol", vec![sumire()], 5)];
    let (hit, pairs) = select_best(one, t.name.clone(), t.artists.clone());
    assert_eq!(hit.certainty, 75);
    assert_eq!(pairs.len(), 1);
    assert_eq!((pairs[0].0.id.0.as_str(), pairs[0].1.id.0, pairs[0].2), ("s-sumire", 2, 100));

    // No artists on either side: the artist score is 0.
    let bare = vec![row(Some(7), "idol", vec![], 5)];
    let (hit, pairs) = select_best(bare, "idol".to_string(), vec![]);
    assert_eq!(hit.certainty, 50);
    assert_eq!(animes(&hit.hits), vec![5]);
    assert!(pairs.is_empty());

    // Nothing fits at all: every row ties at 0, and no pairs are returned.
    let none = vec![row(Some(7), "zzz", vec![catalog(9, &["qqq"])], 5), row(Some(8), "www", vec![], 6)];
    let (hit, pairs) =
        select_best(none, "idol".to_string(), vec![streaming("s", "LiSA")]);
    assert_eq!(hit.certainty, 0);
    assert_eq!(animes(&hit.hits), vec![5, 6]);
    assert!(pairs.is_empty());
}

#[test]
fn links_are_learned_from_pairs_of_90_and_more() {
    let pairs = vec![
        (streaming("a", "a"), catalog(1, &["a"]), 100),
        (streaming("b", "b"), catalog(2, &["b"]), 89),
        (streaming("c", "c"), catalog(3, &["c"]), 90),
        (streaming("d", "d"), catalog(4, &["d"]), 0),
    ];
    assert_eq!(
        auto_links(&pairs),
        vec![
            (AnisongArtistID(1), SpotifyArtistID("a".to_string())),
            (AnisongArtistID(3), SpotifyArtistID("c".to_string())),
        ]
    );
    assert!(auto_links(&vec![]).is_empty());
}

#[test]
fn rows_are_split_by_song() {
    let rows = vec![
        row(Some(1), "a", vec![], 1),
        row(None, "b", vec![], 2),
        row(Some(2), "c", vec![], 3),
        row(Some(1), "d", vec![], 4),
    ];
    let (hits, others) = split_by_song(rows.clone(), Some(SongID(1)));
    assert_eq!((animes(&hits), animes(&others)), (vec![1, 4], vec![2, 3]));
    let (hits, others) = split_by_song(rows.clone(), None);
    assert_eq!((animes(&hits), animes(&others)), (vec![2], vec![1, 3, 4]));
    let (hits, others) = split_by_song(rows, Some(SongID(9)));
    assert_eq!((animes(&hits), animes(&others)), (vec![], vec![1, 2, 3, 4]));
}

#[test]
fn the_listener_is_shown_the_track() {
    let t = track(
        "id",
        "アイドル",
        vec![streaming("s1", "YOASOBI"), streaming("s2", "上坂すみれ")],
    );
    let info = SongInfo::from_track(&t);
    assert_eq!(info.song_name, "アイドル");
    assert_eq!(info.romanized_song_name, kakasi::convert("アイドル").romaji);
    assert_ne!(info.romanized_song_name, "アイドル");
    assert_eq!(info.song_artists, vec!["YOASOBI".to_string(), "上坂すみれ".to_string()]);
    assert_eq!(
        info.romanized_artists,
        vec!["YOASOBI".to_string(), kakasi::convert("上坂すみれ").romaji]
    );
    assert_eq!(info.album_image, ImageURL(URL("https://img.example/large".to_string())));
    assert_eq!(info.spotify_song_id, SpotifyTrackID("id".to_string()));

    match answer(&t, by_loose_search_outcome()) {
        Update::NewSong(update) => {
            assert_eq!(update.song_info.song_name, "アイドル");
            assert!(matches!(update.anisongs, Anisongs::Miss(_)));
        }
        _ => panic!("not a new song"),
    }
}

fn by_loose_search_outcome() -> Anisongs {
    match by_loose_search(vec![]) {
        Step::Answer { anisongs, .. } => anisongs,
        _ => panic!("not an answer"),
    }
}

fn search(names: &[&str], song_regex: &str, artist_regex: &str, case_sensitive: bool) -> Vec<usize> {
    // The catalog's search on a list of (song name, artist name) rows: a row
    // is found where the song matches or the artist matches.
    let build = |p: &str| regex::RegexBuilder::new(p).case_insensitive(!case_sensitive).build().unwrap();
    let song = build(song_regex);
    let artist = build(artist_regex);
    names
        .iter()
        .enumerate()
        .filter(|(_, n)| {
            let (s, a) = n.split_once('|').unwrap();
            song.is_match(s) || artist.is_match(a)
        })
        .map(|(i, _)| i)
        .collect()
}

#[test]
fn the_permissive_search_finds_more_than_the_strict_one() {
    let t = idol();
    let rows = [
        "idol|YOASOBI",
        "IDOL|someone",
        "my idol story|someone",
        "gurenge|LiSA",
        "gurenge|lisa",
        "x|Sumire Uesaka",
        "x|sumire_uesaka feat. y",
        "y|nobody",
    ];
    let (strict_song, strict_artist) = match search_query(&t, true, true) {
        Query::FullSearch { song_regex, artist_regex, case_sensitive } => {
            assert!(case_sensitive);
            (song_regex, artist_regex)
        }
        _ => panic!("not a search"),
    };
    let (loose_song, loose_artist) = match search_query(&t, false, false) {
        Query::FullSearch { song_regex, artist_regex, case_sensitive } => {
            assert!(!case_sensitive);
            (song_regex, artist_regex)
        }
        _ => panic!("not a search"),
    };
    let strict = search(&rows, &strict_song, &strict_artist, true);
    let loose = search(&rows, &loose_song, &loose_artist, false);
    assert_eq!(strict, vec![0, 3, 5]);
    assert_eq!(loose, vec![0, 1, 2, 3, 4, 5, 6]);
    assert!(!strict.is_empty());
    assert!(strict.iter().all(|i| loose.contains(i)));
    assert!(loose.len() > strict.len());
}

#[test]
fn a_listener_without_tokens_has_to_log_in() {
    let prev = Some(SpotifyTrackID("4svcLG3SimzCbxH0RT7Omb".to_string()));
    for refresh in [None, Some(false), Some(true)] {
        match on_playback(Playback::NoTokens, &prev, refresh) {
            Course::Answer { update: Update::LoginRequired, remember: None } => {}
            _ => panic!("not a login request"),
        }
        match on_playback(Playback::Refused, &prev, refresh) {
            Course::Answer { update: Update::UnAuthorized, remember: None } => {}
            _ => panic!("not a refusal"),
        }
    }
}

#[test]
fn a_session_that_plays_no_track_forgets_the_last_one() {
    let prev = Some(SpotifyTrackID("4svcLG3SimzCbxH0RT7Omb".to_string()));
    for playing in [CurrentlyPlaying::Episode, CurrentlyPlaying::Nothing] {
        for refresh in [None, Some(true)] {
            match on_playback(Playback::Reported(playing.clone()), &prev, refresh) {
                Course::Answer { update: Update::NotPlaying, remember } => {
                    assert_eq!(remember, Some(SpotifyTrackID(String::new())))
                }
                _ => panic!("not told that nothing plays"),
            }
        }
    }
}

#[test]
fn a_new_track_goes_into_the_cascade() {
    let same = Some(SpotifyTrackID("4svcLG3SimzCbxH0RT7Omb".to_string()));
    let other = Some(SpotifyTrackID("other".to_string()));
    let report = || Playback::Reported(CurrentlyPlaying::Track(idol()));
    for (prev, refresh, repeat) in [
        (&same, None, true),
        (&same, Some(false), true),
        (&same, Some(true), false),
        (&other, None, false),
        (&None, None, false),
        (&None, Some(true), false),
    ] {
        match on_playback(report(), prev, refresh) {
            Course::Answer { update: Update::NoUpdates, remember: None } => assert!(repeat),
            Course::Resolve { track } => {
                assert!(!repeat);
                assert_eq!(track.id.0, "4svcLG3SimzCbxH0RT7Omb");
                assert_eq!(track.name, "idol");
                assert_eq!(track.artists.len(), 2);
            }
            _ => panic!("neither repeated nor resolved"),
        }
    }
}
