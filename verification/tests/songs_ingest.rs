use what_anime::anilist::{CoverImage, Media, StudioConnection};
use what_anime::anisong::{
    AnimeIndex, AnimeIndexType, AnimeListLinks, Anisong, AnisongAnime, AnisongBind, AnisongSong,
    Artist, RelatedArtist, SongCategory, SongIndex, SongIndexType,
};
use what_anime::ids::{AnilistAnimeID, AnisongArtistID, AnnAnimeID, Fraction, SongAnnId, SongID};
use what_anime::ingest::{
    distinct_ids, expand_binds, group_songs, heartbeat, id_chunks, plan_ingest,
    present_anilist_ids, SongGroup,
};
use what_anime::songs::{SimplifiedAnisongSong, SimplifiedArtist};

fn related(id: i32) -> RelatedArtist {
    RelatedArtist { id: AnisongArtistID(id), names: vec![format!("artist {}", id)], line_up_id: None }
}

fn artist(id: i32, groups: &[i32], members: &[i32]) -> Artist {
    Artist {
        id: AnisongArtistID(id),
        names: vec![format!("artist {}", id), format!("alias {}", id)],
        line_up_id: if members.is_empty() { None } else { Some(0) },
        groups: groups.iter().map(|g| related(*g)).collect(),
        members: members.iter().map(|m| related(*m)).collect(),
    }
}

fn song(name: &str, artists: Vec<Artist>, composers: Vec<Artist>, arrangers: Vec<Artist>) -> AnisongSong {
    AnisongSong {
        name: name.to_string(),
        artist_name: "performers".to_string(),
        composer_name: "composers".to_string(),
        arranger_name: "arrangers".to_string(),
        category: SongCategory::Standard,
        length: Some(Fraction(90.5f64.to_bits())),
        is_dub: false,
        hq: Some("hq".to_string()),
        mq: None,
        audio: Some("audio".to_string()),
        artists,
        composers,
        arrangers,
    }
}

fn bind(song_ann_id: i32, anime_ann_id: i32) -> AnisongBind {
    AnisongBind {
        song_ann_id: SongAnnId(song_ann_id),
        anime_ann_id: AnnAnimeID(anime_ann_id),
        difficulty: Some(Fraction(42.0f64.to_bits())),
        song_type: SongIndex { index_type: SongIndexType::Opening, number: 1 },
        is_rebroadcast: false,
    }
}

fn anime(ann_id: i32, anilist: Option<i32>) -> AnisongAnime {
    AnisongAnime {
        ann_id: AnnAnimeID(ann_id),
        eng_name: "e".to_string(),
        jpn_name: "j".to_string(),
        alt_name: vec![],
        vintage: None,
        linked_ids: AnimeListLinks {
            myanimelist: None,
            anidb: None,
            anilist: anilist.map(AnilistAnimeID),
            kitsu: None,
        },
        anime_type: None,
        anime_index: AnimeIndex { index_type: AnimeIndexType::Season, number: 1, part: 1 },
    }
}

fn ids(artists: &[SimplifiedArtist]) -> Vec<i32> {
    artists.iter().map(|a| a.id.0).collect()
}

fn simple(name: &str, performers: &[i32]) -> SimplifiedAnisongSong {
    SimplifiedAnisongSong::decompose(song(
        name,
        performers.iter().map(|p| artist(*p, &[], &[])).collect(),
        vec![],
        vec![],
    ))
    .0
}

#[test]
fn decompose_flattens_a_song() {
    let (flat, artists) = SimplifiedAnisongSong::decompose(song(
        "idol",
        vec![artist(1, &[10, 11], &[]), artist(10, &[], &[1, 2])],
        vec![artist(3, &[], &[]), artist(1, &[10, 11], &[])],
        vec![artist(3, &[], &[]), artist(4, &[], &[])],
    ));
    assert_eq!(flat.id, None);
    assert_eq!(flat.name, "idol");
    assert_eq!(flat.artist_name, "performers");
    assert_eq!(flat.composer_name, "composers");
    assert_eq!(flat.arranger_name, "arrangers");
    assert_eq!(flat.category, SongCategory::Standard);
    assert_eq!(flat.length, Some(Fraction(90.5f64.to_bits())));
    assert!(!flat.is_dub);
    assert_eq!(flat.hq, Some("hq".to_string()));
    assert_eq!(flat.mq, None);
    assert_eq!(flat.audio, Some("audio".to_string()));
    assert_eq!(ids(&flat.artists), vec![1, 10]);
    assert_eq!(ids(&flat.composers), vec![3, 1]);
    assert_eq!(ids(&flat.arrangers), vec![3, 4]);
    assert_eq!(flat.artists[0].names, vec!["artist 1".to_string(), "alias 1".to_string()]);
    assert_eq!(flat.artists[0].group_ids, vec![AnisongArtistID(10), AnisongArtistID(11)]);
    assert!(flat.artists[0].member_ids.is_empty());
    assert_eq!(flat.artists[1].member_ids, vec![AnisongArtistID(1), AnisongArtistID(2)]);
    assert_eq!(flat.artists[1].line_up_id, Some(0));
    // Everyone once, in the order of first credit.
    assert_eq!(ids(&artists), vec![1, 10, 3, 4]);
    assert_eq!(artists[1].member_ids, vec![AnisongArtistID(1), AnisongArtistID(2)]);
}

#[test]
fn decompose_of_a_song_without_credits() {
    let (flat, artists) = SimplifiedAnisongSong::decompose(song("x", vec![], vec![], vec![]));
    assert!(flat.artists.is_empty() && flat.composers.is_empty() && flat.arrangers.is_empty());
    assert!(artists.is_empty());
}

#[test]
fn decompose_all_lists_everyone_once() {
    let (songs, artists) = SimplifiedAnisongSong::decompose_all(vec![
        song("a", vec![artist(2, &[], &[])], vec![artist(1, &[], &[])], vec![]),
        song("b", vec![artist(1, &[], &[]), artist(3, &[], &[])], vec![], vec![artist(2, &[], &[])]),
        song("c", vec![], vec![], vec![]),
    ]);
    assert_eq!(songs.len(), 3);
    assert_eq!(songs.iter().map(|s| s.name.clone()).collect::<Vec<_>>(), vec!["a", "b", "c"]);
    assert_eq!(ids(&songs[1].artists), vec![1, 3]);
    assert_eq!(ids(&songs[1].arrangers), vec![2]);
    assert_eq!(ids(&artists), vec![2, 1, 3]);
    let (songs, artists) = SimplifiedAnisongSong::decompose_all(vec![]);
    assert!(songs.is_empty() && artists.is_empty());
}

#[test]
fn a_song_with_its_performers_reversed_is_the_same_song() {
    let groups = group_songs(
        vec![simple("idol", &[1, 2]), simple("idol", &[2, 1])],
        vec![bind(100, 7), bind(101, 8)],
    )
    .unwrap();
    assert_eq!(groups.len(), 1);
    assert_eq!(groups[0].song.name, "idol");
    assert_eq!(ids(&groups[0].song.artists), vec![1, 2]);
    let uses: Vec<i32> = groups[0].binds.iter().map(|b| b.song_ann_id.0).collect();
    assert_eq!(uses, vec![100, 101]);
}

#[test]
fn songs_are_gathered_by_name_and_performers() {
    let groups = group_songs(
        vec![
            simple("idol", &[1, 2]),
            simple("other", &[1, 2]),
            simple("idol", &[2, 1]),
            simple("idol", &[1]),
            simple("idol", &[1, 2, 2]),
            simple("other", &[2, 1]),
            simple("idol", &[1, 1, 2]),
            simple("idol", &[2, 2, 1]),
            simple("Idol", &[1, 2]),
        ],
        (0..9).map(|i| bind(i, 50 + i)).collect(),
    )
    .unwrap();
    let shape: Vec<(String, Vec<i32>, Vec<i32>)> = groups
        .iter()
        .map(|g| {
            (
                g.song.name.clone(),
                ids(&g.song.artists),
                g.binds.iter().map(|b| b.song_ann_id.0).collect(),
            )
        })
        .collect();
    assert_eq!(
        shape,
        vec![
            ("idol".to_string(), vec![1, 2], vec![0, 2]),
            ("other".to_string(), vec![1, 2], vec![1, 5]),
            ("idol".to_string(), vec![1], vec![3]),
            ("idol".to_string(), vec![1, 2, 2], vec![4, 7]),
            ("idol".to_string(), vec![1, 1, 2], vec![6]),
            ("Idol".to_string(), vec![1, 2], vec![8]),
        ]
    );
}

#[test]
fn grouping_needs_one_use_for_each_song() {
    assert!(group_songs(vec![simple("a", &[1])], vec![]).is_none());
    assert!(group_songs(vec![], vec![bind(1, 1)]).is_none());
    assert!(group_songs(vec![], vec![]).unwrap().is_empty());
}

#[test]
fn grouping_twice_changes_nothing() {
    let once = group_songs(
        vec![simple("a", &[1, 2]), simple("b", &[3]), simple("a", &[2, 1])],
        vec![bind(1, 1), bind(2, 2), bind(3, 3)],
    )
    .unwrap();
    let songs: Vec<SimplifiedAnisongSong> = once.iter().map(|g| g.song.clone()).collect();
    let firsts: Vec<AnisongBind> = once.iter().map(|g| g.binds[0]).collect();
    let twice = group_songs(songs, firsts).unwrap();
    assert_eq!(twice.len(), once.len());
    for (a, b) in once.iter().zip(twice.iter()) {
        assert_eq!(a.song.name, b.song.name);
        assert_eq!(ids(&a.song.artists), ids(&b.song.artists));
        assert_eq!(b.binds.len(), 1);
    }
}

#[test]
fn uses_get_the_ids_of_their_songs() {
    let groups = vec![
        SongGroup { song: simple("a", &[1]), binds: vec![bind(1, 10), bind(2, 11)] },
        SongGroup { song: simple("b", &[2]), binds: vec![] },
        SongGroup { song: simple("c", &[3]), binds: vec![bind(3, 12)] },
    ];
    let stored = expand_binds(&vec![SongID(70), SongID(71), SongID(72)], &groups).unwrap();
    let shape: Vec<(Option<SongID>, Option<AnnAnimeID>, i32)> =
        stored.iter().map(|b| (b.song_id, b.anime_ann_id, b.song_ann_id.0)).collect();
    assert_eq!(
        shape,
        vec![
            (Some(SongID(70)), Some(AnnAnimeID(10)), 1),
            (Some(SongID(70)), Some(AnnAnimeID(11)), 2),
            (Some(SongID(72)), Some(AnnAnimeID(12)), 3),
        ]
    );
    assert_eq!(stored[0].difficulty, Some(Fraction(42.0f64.to_bits())));
    assert_eq!(stored[0].song_index.index_type, SongIndexType::Opening);
    assert_eq!(stored[0].song_index.number, 1);
    assert!(!stored[0].is_rebroadcast);
    assert!(expand_binds(&vec![SongID(70)], &groups).is_none());
    assert!(expand_binds(&vec![], &vec![]).unwrap().is_empty());
}

fn record(ann_id: i32, anilist: Option<i32>, name: &str, performers: &[i32], song_ann_id: i32) -> Anisong {
    Anisong {
        anime: anime(ann_id, anilist),
        song: song(name, performers.iter().map(|p| artist(*p, &[], &[])).collect(), vec![], vec![]),
        anisong_bind: bind(song_ann_id, ann_id),
    }
}

#[test]
fn the_ids_of_the_graph_are_collected_once() {
    let records = vec![
        record(1, Some(9), "a", &[1], 1),
        record(2, None, "b", &[1], 2),
        record(3, Some(4), "c", &[1], 3),
        record(4, Some(9), "d", &[1], 4),
        record(5, Some(4), "e", &[1], 5),
        record(6, Some(1), "f", &[1], 6),
    ];
    assert_eq!(
        present_anilist_ids(&records),
        vec![AnilistAnimeID(9), AnilistAnimeID(4), AnilistAnimeID(1)]
    );
    assert!(present_anilist_ids(&vec![]).is_empty());
    let ids: Vec<AnilistAnimeID> = [3, 1, 3, 3, 2, 1].into_iter().map(AnilistAnimeID).collect();
    assert_eq!(distinct_ids(&ids), vec![AnilistAnimeID(3), AnilistAnimeID(1), AnilistAnimeID(2)]);
    assert!(distinct_ids(&vec![]).is_empty());
}

#[test]
fn ids_are_asked_for_in_chunks_of_fifty() {
    let all: Vec<AnilistAnimeID> = (0..120).map(AnilistAnimeID).collect();
    let chunks = id_chunks(&all);
    assert_eq!(chunks.iter().map(|c| c.len()).collect::<Vec<_>>(), vec![50, 50, 20]);
    assert_eq!(chunks.concat(), all);
    assert!(id_chunks(&vec![]).is_empty());
    let exact: Vec<AnilistAnimeID> = (0..100).map(AnilistAnimeID).collect();
    assert_eq!(id_chunks(&exact).iter().map(|c| c.len()).collect::<Vec<_>>(), vec![50, 50]);
    assert_eq!(id_chunks(&vec![AnilistAnimeID(1)]), vec![vec![AnilistAnimeID(1)]]);
    let fifty_one: Vec<AnilistAnimeID> = (0..51).map(AnilistAnimeID).collect();
    assert_eq!(id_chunks(&fifty_one).iter().map(|c| c.len()).collect::<Vec<_>>(), vec![50, 1]);
}

fn graph_entry(id: i32, mean_score: i32) -> Media {
    Media {
        id: AnilistAnimeID(id),
        mean_score: Some(mean_score),
        banner_image: None,
        cover_image: CoverImage { color: None, medium: None, large: None, extra_large: None },
        format: None,
        genres: vec![],
        source: None,
        studios: StudioConnection { nodes: vec![] },
        tags: vec![],
        trailer: None,
        episodes: None,
        season: None,
        season_year: None,
    }
}

#[test]
fn a_batch_is_prepared_for_the_catalog() {
    let plan = plan_ingest(
        vec![
            record(1, Some(9), "idol", &[1, 2], 100),
            record(2, None, "other", &[3], 101),
            record(3, Some(4), "idol", &[2, 1], 102),
        ],
        vec![graph_entry(4, 44), graph_entry(9, 99)],
    );
    assert_eq!(plan.animes.iter().map(|a| a.ann_id.0).collect::<Vec<_>>(), vec![3, 1, 2]);
    assert_eq!(
        plan.animes.iter().map(|a| a.mean_score).collect::<Vec<_>>(),
        vec![Some(44), Some(99), None]
    );
    assert_eq!(plan.groups.len(), 2);
    assert_eq!(plan.groups[0].song.name, "idol");
    assert_eq!(
        plan.groups[0].binds.iter().map(|b| (b.song_ann_id.0, b.anime_ann_id.0)).collect::<Vec<_>>(),
        vec![(100, 1), (102, 3)]
    );
    assert_eq!(plan.groups[1].song.name, "other");
    assert_eq!(ids(&plan.artists), vec![1, 2, 3]);
}

#[test]
fn the_season_is_refreshed_on_every_24th_heartbeat() {
    let mut counter = 0;
    let mut refreshes = vec![];
    for beat in 1..=50 {
        let (next, refresh) = heartbeat(counter);
        counter = next;
        if refresh {
            refreshes.push(beat);
        }
    }
    assert_eq!(refreshes, vec![24, 48]);
    assert_eq!(heartbeat(0), (1, false));
    assert_eq!(heartbeat(22), (23, false));
    assert_eq!(heartbeat(23), (0, true));
    assert_eq!(heartbeat(24), (25, false));
    assert_eq!(heartbeat(u32::MAX), (u32::MAX, false));
}
