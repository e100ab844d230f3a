use what_anime::anilist::{
    CoverImage, Media, MediaFormat, MediaSource, MediaTag, MediaTrailer, Studio, StudioConnection,
};
use what_anime::anisong::{
    AnimeIndex, AnimeIndexType, AnimeListLinks, AnimeType, AnisongAnime,
};
use what_anime::catalog::{match_by, DBAnime};
use what_anime::ids::{AnilistAnimeID, AnnAnimeID, HexColor, ImageURL, TagID, URL};
use what_anime::season::{Release, ReleaseSeason};

fn anisong(ann_id: i32, anilist: Option<i32>) -> AnisongAnime {
    AnisongAnime {
        ann_id: AnnAnimeID(ann_id),
        eng_name: format!("anime {}", ann_id),
        jpn_name: format!("アニメ {}", ann_id),
        alt_name: vec![format!("alt {}", ann_id)],
        vintage: Some(Release { season: ReleaseSeason::Fall, year: 2000 + ann_id }),
        linked_ids: AnimeListLinks {
            myanimelist: None,
            anidb: None,
            anilist: anilist.map(AnilistAnimeID),
            kitsu: None,
        },
        anime_type: Some(AnimeType::TV),
        anime_index: AnimeIndex { index_type: AnimeIndexType::Season, number: 1, part: 1 },
    }
}

fn image(name: &str) -> ImageURL {
    ImageURL(URL(format!("https://img.example/{}", name)))
}

fn media(id: i32, mean_score: i32) -> Media {
    Media {
        id: AnilistAnimeID(id),
        mean_score: Some(mean_score),
        banner_image: Some(image("banner")),
        cover_image: CoverImage {
            color: Some(HexColor("#aabbcc".to_string())),
            medium: Some(image("m")),
            large: None,
            extra_large: None,
        },
        format: Some(MediaFormat::Tv),
        genres: vec!["Action".to_string(), "Drama".to_string()],
        source: Some(MediaSource::Manga),
        studios: StudioConnection {
            nodes: vec![Studio { id: 7, name: "Studio".to_string(), site_url: None }],
        },
        tags: vec![MediaTag { id: TagID(3), name: "Tag".to_string() }],
        trailer: Some(MediaTrailer {
            id: "t".to_string(),
            site: "site".to_string(),
            thumbnail: image("thumb"),
        }),
        episodes: Some(12),
        season: Some(ReleaseSeason::Winter),
        season_year: Some(2015),
    }
}

fn ann_ids(animes: &[DBAnime]) -> Vec<i32> {
    animes.iter().map(|a| a.ann_id.0).collect()
}

#[test]
fn combine_enriches_what_the_graph_knows() {
    let out = DBAnime::combine(
        vec![anisong(1, Some(20997)), anisong(2, None), anisong(3, Some(14653))],
        vec![media(14653, 70), media(20997, 80)],
    );
    assert_eq!(out.len(), 3);
    let first = out.iter().find(|a| a.ann_id == AnnAnimeID(1)).unwrap();
    let middle = out.iter().find(|a| a.ann_id == AnnAnimeID(2)).unwrap();
    let last = out.iter().find(|a| a.ann_id == AnnAnimeID(3)).unwrap();
    assert_eq!(first.mean_score, Some(80));
    assert_eq!(middle.mean_score, None);
    assert_eq!(last.mean_score, Some(70));
    // Ordered by the id in the graph, the anime without one last.
    assert_eq!(ann_ids(&out), vec![3, 1, 2]);
}

#[test]
fn combine_keeps_every_anime_once_and_equal_keys_in_order() {
    let input = vec![
        anisong(10, None),
        anisong(11, Some(5)),
        anisong(12, Some(3)),
        anisong(13, None),
        anisong(14, Some(5)),
        anisong(15, Some(3)),
        anisong(16, Some(9)),
    ];
    let out = DBAnime::combine(input, vec![media(5, 50), media(4, 40), media(5, 55)]);
    assert_eq!(ann_ids(&out), vec![12, 15, 11, 14, 16, 10, 13]);
    let scores: Vec<Option<i32>> = out.iter().map(|a| a.mean_score).collect();
    // Of two entries with one id the first enriches.
    assert_eq!(scores, vec![None, None, Some(50), Some(50), None, None, None]);
}

#[test]
fn combine_edge_cases() {
    assert!(DBAnime::combine(vec![], vec![]).is_empty());
    assert!(DBAnime::combine(vec![], vec![media(1, 1)]).is_empty());
    let out = DBAnime::combine(vec![anisong(1, Some(1)), anisong(2, Some(2))], vec![]);
    assert_eq!(ann_ids(&out), vec![1, 2]);
    assert!(out.iter().all(|a| a.mean_score.is_none() && a.genres.is_empty()));
    let out = DBAnime::combine(
        vec![anisong(1, Some(i32::MAX)), anisong(2, Some(i32::MIN)), anisong(3, None)],
        vec![media(i32::MAX, 1), media(i32::MIN, 2)],
    );
    assert_eq!(ann_ids(&out), vec![2, 1, 3]);
    assert_eq!(out[0].mean_score, Some(2));
    assert_eq!(out[1].mean_score, Some(1));
    assert_eq!(out[2].mean_score, None);
}

#[test]
fn from_with_an_entry_takes_all_of_it() {
    let a = DBAnime::from((anisong(4, Some(9)), Some(media(9, 66))));
    assert_eq!(a.ann_id, AnnAnimeID(4));
    assert_eq!(a.eng_name, "anime 4");
    assert_eq!(a.jpn_name, "アニメ 4");
    assert_eq!(a.alt_name, vec!["alt 4".to_string()]);
    assert_eq!(a.vintage, Some(Release { season: ReleaseSeason::Fall, year: 2004 }));
    assert_eq!(a.linked_ids.anilist, Some(AnilistAnimeID(9)));
    assert_eq!(a.anime_type, Some(AnimeType::TV));
    assert_eq!(a.mean_score, Some(66));
    assert_eq!(a.banner_image, Some(image("banner")));
    assert_eq!(a.cover_image.color, Some(HexColor("#aabbcc".to_string())));
    assert_eq!(a.format, Some(MediaFormat::Tv));
    assert_eq!(a.genres, vec!["Action".to_string(), "Drama".to_string()]);
    assert_eq!(a.source, Some(MediaSource::Manga));
    assert_eq!(a.studios.nodes.len(), 1);
    assert_eq!(a.studios.nodes[0].name, "Studio");
    assert_eq!(a.tags.len(), 1);
    assert_eq!(a.tags[0].id, TagID(3));
    assert_eq!(a.trailer.as_ref().unwrap().thumbnail, image("thumb"));
    assert_eq!(a.episodes, Some(12));
    assert_eq!(a.season, Some(ReleaseSeason::Winter));
    assert_eq!(a.season_year, Some(2015));
}

#[test]
fn from_without_an_entry_has_the_absent_enrichment() {
    let a = DBAnime::from((anisong(4, Some(9)), None));
    assert_eq!(a.ann_id, AnnAnimeID(4));
    assert_eq!(a.mean_score, None);
    assert_eq!(a.banner_image, None);
    assert!(a.cover_image.color.is_none());
    assert!(a.cover_image.medium.is_none());
    assert!(a.cover_image.large.is_none());
    assert!(a.cover_image.extra_large.is_none());
    assert!(a.format.is_none());
    assert!(a.genres.is_empty());
    assert!(a.source.is_none());
    assert!(a.studios.nodes.is_empty());
    assert!(a.tags.is_empty());
    assert!(a.trailer.is_none());
    assert_eq!(a.episodes, None);
    assert!(a.season.is_none());
    assert_eq!(a.season_year, None);
}

#[test]
fn match_by_takes_the_last_entry_of_an_id() {
    let animes = vec![
        DBAnime::from((anisong(1, Some(5)), None)),
        DBAnime::from((anisong(2, None), None)),
        DBAnime::from((anisong(3, Some(8)), None)),
        DBAnime::from((anisong(4, Some(5)), None)),
    ];
    let out = match_by(&animes, &vec![media(5, 50), media(6, 60), media(5, 55)]);
    assert_eq!(ann_ids(&out), vec![1, 4]);
    assert_eq!(out[0].mean_score, Some(55));
    assert_eq!(out[1].mean_score, Some(55));
    assert_eq!(out[0].alt_name, vec!["alt 1".to_string()]);
    assert_eq!(out[0].genres, vec!["Action".to_string(), "Drama".to_string()]);
    assert!(match_by(&animes, &vec![]).is_empty());
    assert!(match_by(&vec![], &vec![media(5, 50)]).is_empty());
}
