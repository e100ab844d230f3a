use what_anime::anilist::{MediaFormat, MediaSource};
use what_anime::anisong::{
    bool_from_int, empty_vec_if_null, AnimeIndex, AnimeIndexType, AnimeType, SongCategory,
    SongIndex, SongIndexType,
};
use what_anime::catalog::{Report, ReportStatus};
use what_anime::error::Error;
use what_anime::grammar::{int_from_str, split_entry_string, split_string};
use what_anime::ids::{AnisongArtistID, SongAnnId, SpotifyTrackID, SpotifyUser, SpotifyUserID};
use what_anime::season::{
    current_season, is_valid_year, next_release, not_after, season_choice, span, Release,
    ReleaseSeason,
};

fn parse_error(text: &str) -> String {
    format!("ParseError({:?})", text)
}

fn error_of<T: std::fmt::Debug>(r: Result<T, Error>) -> String {
    format!("{:?}", r.unwrap_err())
}

#[test]
fn seasons_have_numbers_and_names() {
    assert_eq!(ReleaseSeason::try_from(0), Ok(ReleaseSeason::Winter));
    assert_eq!(ReleaseSeason::try_from(1), Ok(ReleaseSeason::Spring));
    assert_eq!(ReleaseSeason::try_from(2), Ok(ReleaseSeason::Summer));
    assert_eq!(ReleaseSeason::try_from(3), Ok(ReleaseSeason::Fall));
    assert_eq!(ReleaseSeason::try_from(4), Err(()));
    assert_eq!(ReleaseSeason::try_from(u32::MAX), Err(()));
    for (i, s) in [ReleaseSeason::Winter, ReleaseSeason::Spring, ReleaseSeason::Summer, ReleaseSeason::Fall]
        .into_iter()
        .enumerate()
    {
        assert_eq!(s.index(), i as u32);
        assert_eq!(ReleaseSeason::try_from(s.index()), Ok(s));
        assert_eq!(ReleaseSeason::from_str(&s.to_string()).unwrap(), s);
        assert_eq!(ReleaseSeason::decode(s.encode_by_ref()).unwrap(), s);
    }
    assert_eq!(ReleaseSeason::Winter.to_string(), "Winter");
    assert_eq!(ReleaseSeason::Fall.to_string(), "Fall");
    assert_eq!(ReleaseSeason::Summer.encode_by_ref(), "summer");
    assert_eq!(ReleaseSeason::type_info(), "release_season");
    assert_eq!(error_of(ReleaseSeason::from_str("winter")), parse_error("winter"));
    assert_eq!(error_of(ReleaseSeason::decode("Winter")), parse_error("Winter"));
    assert_eq!(error_of(ReleaseSeason::from_str("")), parse_error(""));
}

#[test]
fn the_months_are_taken_in_blocks_of_four() {
    let seasons: Vec<Option<ReleaseSeason>> = (0..=13).map(current_season).collect();
    let w = Some(ReleaseSeason::Winter);
    let sp = Some(ReleaseSeason::Spring);
    let su = Some(ReleaseSeason::Summer);
    assert_eq!(seasons, vec![None, w, w, w, w, sp, sp, sp, sp, su, su, su, su, None]);
}

#[test]
fn releases_follow_each_other() {
    let r = |season, year| Release { season, year };
    assert_eq!(next_release(r(ReleaseSeason::Winter, 2000)), r(ReleaseSeason::Spring, 2000));
    assert_eq!(next_release(r(ReleaseSeason::Summer, 2000)), r(ReleaseSeason::Fall, 2000));
    assert_eq!(next_release(r(ReleaseSeason::Fall, 2000)), r(ReleaseSeason::Winter, 2001));
    assert_eq!(
        next_release(r(ReleaseSeason::Summer, i32::MAX)),
        r(ReleaseSeason::Fall, i32::MAX)
    );
    assert!(not_after(r(ReleaseSeason::Fall, 1999), r(ReleaseSeason::Winter, 2000)));
    assert!(not_after(r(ReleaseSeason::Fall, 1999), r(ReleaseSeason::Fall, 1999)));
    assert!(!not_after(r(ReleaseSeason::Fall, 2000), r(ReleaseSeason::Winter, 2000)));
    assert_eq!(
        span(r(ReleaseSeason::Summer, 1999), r(ReleaseSeason::Spring, 2000)).unwrap(),
        vec![
            r(ReleaseSeason::Summer, 1999),
            r(ReleaseSeason::Fall, 1999),
            r(ReleaseSeason::Winter, 2000),
            r(ReleaseSeason::Spring, 2000),
        ]
    );
    assert_eq!(
        span(r(ReleaseSeason::Fall, 1959), r(ReleaseSeason::Fall, 1959)).unwrap(),
        vec![r(ReleaseSeason::Fall, 1959)]
    );
    assert!(span(r(ReleaseSeason::Fall, 1959), r(ReleaseSeason::Summer, 1959)).is_none());
    assert!(span(r(ReleaseSeason::Winter, 2001), r(ReleaseSeason::Fall, 2000)).is_none());
    assert_eq!(span(r(ReleaseSeason::Winter, 1951), r(ReleaseSeason::Fall, 2025)).unwrap().len(), 300);
}

#[test]
fn choices_of_the_scraper() {
    assert_eq!(season_choice(0), None);
    assert_eq!(season_choice(1), Some(ReleaseSeason::Winter));
    assert_eq!(season_choice(4), Some(ReleaseSeason::Fall));
    assert_eq!(season_choice(5), None);
    assert!(!is_valid_year(1950, 2025));
    assert!(is_valid_year(1951, 2025));
    assert!(is_valid_year(2026, 2025));
    assert!(!is_valid_year(2027, 2025));
    assert!(is_valid_year(i32::MAX, i32::MAX));
}

#[test]
fn releases_are_read_from_text() {
    assert_eq!(
        Release::parse("Fall 2000").unwrap(),
        Release { season: ReleaseSeason::Fall, year: 2000 }
    );
    assert_eq!(
        Release::parse("  Winter   1951 ").unwrap(),
        Release { season: ReleaseSeason::Winter, year: 1951 }
    );
    assert_eq!(
        Release::parse("Spring -5").unwrap(),
        Release { season: ReleaseSeason::Spring, year: -5 }
    );
    for bad in ["Fall", "2000", "fall 2000", "Fall 2000 x", "Late Fall 2000", "", "Fall 99999999999"] {
        assert_eq!(error_of(Release::parse(bad)), parse_error(bad), "{:?}", bad);
    }
}

#[test]
fn a_text_is_split_before_its_number() {
    assert_eq!(split_string("Opening 2"), ("Opening".to_string(), Some(2)));
    assert_eq!(split_string("Insert Song"), ("Insert Song".to_string(), None));
    assert_eq!(split_string("Insert   Song \t 12 "), ("Insert Song".to_string(), Some(12)));
    assert_eq!(split_string("7"), ("".to_string(), Some(7)));
    assert_eq!(split_string(""), ("".to_string(), None));
    assert_eq!(split_string("   "), ("   ".to_string(), None));
    assert_eq!(split_string(" a  b "), (" a  b ".to_string(), None));
    assert_eq!(split_string("a +3"), ("a".to_string(), Some(3)));
    assert_eq!(split_string("a -3"), ("a".to_string(), Some(-3)));
    assert_eq!(split_string("a 2147483647"), ("a".to_string(), Some(i32::MAX)));
    assert_eq!(split_string("a -2147483648"), ("a".to_string(), Some(i32::MIN)));
    assert_eq!(split_string("a 2147483648"), ("a 2147483648".to_string(), None));
    assert_eq!(split_string("a 1.5"), ("a 1.5".to_string(), None));
    assert_eq!(split_string("a\u{3000}5"), ("a".to_string(), Some(5)));
}

#[test]
fn whole_numbers_are_read_as_the_standard_library_reads_them() {
    let samples = [
        "", "0", "7", "-0", "+0", "-", "+", "--1", "+-1", "007", "-007", "2147483647",
        "2147483648", "-2147483648", "-2147483649", "99999999999999999999999999", "1 ", " 1",
        "1_000", "1e3", "0x10", "１２", "٣", "12a", "a12", "1.0", "00000000000000000000002147483647",
        "-00000000000000000000002147483648", "4294967296",
    ];
    for s in samples {
        assert_eq!(int_from_str(s), s.parse::<i32>().ok(), "{:?}", s);
    }
}

#[test]
fn artist_ids_are_read_from_text() {
    assert_eq!(AnisongArtistID::from_str("42").unwrap(), AnisongArtistID(42));
    assert_eq!(AnisongArtistID::from_str("-1").unwrap(), AnisongArtistID(-1));
    assert_eq!(error_of(AnisongArtistID::from_str("x")), parse_error("x"));
    assert_eq!(error_of(AnisongArtistID::from_str("")), parse_error(""));
}

#[test]
fn entry_numbers_have_parts() {
    assert_eq!(split_entry_string("TV 2"), ("TV".to_string(), Some((2, 1))));
    assert_eq!(split_entry_string("OVA 1.5"), ("OVA".to_string(), Some((1, 2))));
    assert_eq!(split_entry_string("OVA 1.1"), ("OVA".to_string(), Some((1, 1))));
    assert_eq!(split_entry_string("OVA 1.10"), ("OVA".to_string(), Some((1, 1))));
    assert_eq!(split_entry_string("OVA 1.11"), ("OVA".to_string(), Some((1, 2))));
    assert_eq!(split_entry_string("OVA 1.101"), ("OVA".to_string(), Some((1, 2))));
    assert_eq!(split_entry_string("OVA 1.2"), ("OVA".to_string(), Some((1, 2))));
    assert_eq!(split_entry_string("OVA 1.09"), ("OVA".to_string(), Some((1, 1))));
    assert_eq!(split_entry_string("OVA 3.0"), ("OVA".to_string(), Some((3, 1))));
    assert_eq!(split_entry_string("TV Special 12"), ("TV Special".to_string(), Some((12, 1))));
    assert_eq!(split_entry_string("Movie"), ("Movie".to_string(), None));
    assert_eq!(split_entry_string("TV 1."), ("TV 1.".to_string(), None));
    assert_eq!(split_entry_string("TV .5"), ("TV .5".to_string(), None));
    assert_eq!(split_entry_string("TV 1.5.2"), ("TV 1.5.2".to_string(), None));
    assert_eq!(split_entry_string("TV -1"), ("TV -1".to_string(), None));
    assert_eq!(split_entry_string("TV 99999999999"), ("TV".to_string(), Some((i32::MAX, 1))));
}

#[test]
fn the_place_of_an_anime_is_read_from_text() {
    let index = |index_type, number, part| AnimeIndex { index_type, number, part };
    assert_eq!(AnimeIndex::parse("TV 2"), index(AnimeIndexType::Season, 2, 1));
    assert_eq!(AnimeIndex::parse("TV"), index(AnimeIndexType::Season, 1, 1));
    assert_eq!(AnimeIndex::parse("Season 3"), index(AnimeIndexType::Season, 3, 1));
    assert_eq!(AnimeIndex::parse("OVA 1.5"), index(AnimeIndexType::OVA, 1, 2));
    assert_eq!(AnimeIndex::parse("Movie 4"), index(AnimeIndexType::Movie, 4, 1));
    assert_eq!(AnimeIndex::parse("TV Special 1"), index(AnimeIndexType::TVSpecial, 1, 1));
    assert_eq!(AnimeIndex::parse("Music Video"), index(AnimeIndexType::MusicVideo, 1, 1));
    assert_eq!(AnimeIndex::parse("Special 2"), index(AnimeIndexType::Special, 2, 1));
    assert_eq!(AnimeIndex::parse("ONA 1"), index(AnimeIndexType::ONA, 1, 1));
    assert_eq!(AnimeIndex::parse("Web 1"), index(AnimeIndexType::Unknown, 1, 1));
    assert_eq!(AnimeIndex::parse(""), index(AnimeIndexType::Unknown, 1, 1));
    assert_eq!(AnimeIndex::parse("tv 2"), index(AnimeIndexType::Unknown, 2, 1));
}

#[test]
fn the_place_of_a_song_is_read_from_text() {
    let index = |index_type, number| SongIndex { index_type, number };
    assert_eq!(SongIndex::parse("Opening 2").unwrap(), index(SongIndexType::Opening, 2));
    assert_eq!(SongIndex::parse("Opening").unwrap(), index(SongIndexType::Opening, 1));
    assert_eq!(SongIndex::parse("Ending 13").unwrap(), index(SongIndexType::Ending, 13));
    assert_eq!(SongIndex::parse("Ending").unwrap(), index(SongIndexType::Ending, 1));
    assert_eq!(SongIndex::parse("Insert Song").unwrap(), index(SongIndexType::Insert, 0));
    assert_eq!(SongIndex::parse("Insert Song 4").unwrap(), index(SongIndexType::Insert, 4));
    assert_eq!(error_of(SongIndex::parse("Insert 4")), parse_error("Insert"));
    assert_eq!(error_of(SongIndex::parse("opening 1")), parse_error("opening"));
    assert_eq!(error_of(SongIndex::parse("")), parse_error(""));
}

#[test]
fn kinds_of_anime_entries() {
    assert_eq!(AnimeIndexType::from_str("TV"), AnimeIndexType::Season);
    assert_eq!(AnimeIndexType::from_str("Season"), AnimeIndexType::Season);
    assert_eq!(AnimeIndexType::from_str("Movie"), AnimeIndexType::Movie);
    assert_eq!(AnimeIndexType::from_str("ONA"), AnimeIndexType::ONA);
    assert_eq!(AnimeIndexType::from_str("OVA"), AnimeIndexType::OVA);
    assert_eq!(AnimeIndexType::from_str("TV Special"), AnimeIndexType::TVSpecial);
    assert_eq!(AnimeIndexType::from_str("Special"), AnimeIndexType::Special);
    assert_eq!(AnimeIndexType::from_str("Music Video"), AnimeIndexType::MusicVideo);
    assert_eq!(AnimeIndexType::from_str("tv"), AnimeIndexType::Unknown);
    assert_eq!(AnimeIndexType::from_str(""), AnimeIndexType::Unknown);
    // The stored names of OVA and ONA are crossed; both directions agree.
    assert_eq!(AnimeIndexType::OVA.encode_by_ref(), "ona");
    assert_eq!(AnimeIndexType::ONA.encode_by_ref(), "ova");
    assert_eq!(AnimeIndexType::decode("ona"), AnimeIndexType::OVA);
    assert_eq!(AnimeIndexType::decode("ova"), AnimeIndexType::ONA);
    assert_eq!(AnimeIndexType::decode("nothing"), AnimeIndexType::Unknown);
    assert_eq!(AnimeIndexType::type_info(), "anime_index_type");
    for kind in [
        AnimeIndexType::Season,
        AnimeIndexType::Movie,
        AnimeIndexType::ONA,
        AnimeIndexType::OVA,
        AnimeIndexType::TVSpecial,
        AnimeIndexType::Special,
        AnimeIndexType::MusicVideo,
        AnimeIndexType::Unknown,
    ] {
        assert_eq!(AnimeIndexType::decode(kind.encode_by_ref()), kind);
    }
}

#[test]
fn stored_names_read_back() {
    for v in [AnimeType::TV, AnimeType::Movie, AnimeType::OVA, AnimeType::ONA, AnimeType::Special, AnimeType::Unknown] {
        assert_eq!(AnimeType::decode(v.encode_by_ref()), v);
    }
    assert_eq!(AnimeType::TV.encode_by_ref(), "tv");
    assert_eq!(AnimeType::decode("TV"), AnimeType::Unknown);
    assert_eq!(AnimeType::type_info(), "anime_type");

    for v in [SongIndexType::Opening, SongIndexType::Insert, SongIndexType::Ending] {
        assert_eq!(SongIndexType::decode(v.encode_by_ref()).unwrap(), v);
    }
    assert_eq!(SongIndexType::Insert.encode_by_ref(), "insert");
    assert_eq!(error_of(SongIndexType::decode("Insert Song")), parse_error("Insert Song"));
    assert_eq!(SongIndexType::from_str("Insert Song").unwrap(), SongIndexType::Insert);
    assert_eq!(SongIndexType::from_str("Opening").unwrap(), SongIndexType::Opening);
    assert_eq!(SongIndexType::from_str("Ending").unwrap(), SongIndexType::Ending);
    assert_eq!(error_of(SongIndexType::from_str("insert")), parse_error("insert"));
    assert_eq!(SongIndexType::type_info(), "song_index_type");

    for v in [
        SongCategory::Standard,
        SongCategory::Character,
        SongCategory::Chanting,
        SongCategory::Instrumental,
        SongCategory::NoCategory,
    ] {
        assert_eq!(SongCategory::decode(v.encode_by_ref()), v);
        assert_eq!(SongCategory::from_str(v.encode_by_ref()).unwrap(), v);
    }
    assert_eq!(SongCategory::NoCategory.encode_by_ref(), "no_category");
    assert_eq!(SongCategory::from_str("Standard").unwrap(), SongCategory::NoCategory);
    assert_eq!(SongCategory::from_feed(Some("Standard")), SongCategory::Standard);
    assert_eq!(SongCategory::from_feed(Some("Character")), SongCategory::Character);
    assert_eq!(SongCategory::from_feed(Some("Chanting")), SongCategory::Chanting);
    assert_eq!(SongCategory::from_feed(Some("Instrumental")), SongCategory::Instrumental);
    assert_eq!(SongCategory::from_feed(Some("standard")), SongCategory::NoCategory);
    assert_eq!(SongCategory::from_feed(Some("Instrumentl")), SongCategory::NoCategory);
    assert_eq!(SongCategory::from_feed(None), SongCategory::NoCategory);
    assert_eq!(SongCategory::type_info(), "song_category");

    for v in [
        MediaFormat::Tv,
        MediaFormat::TvShort,
        MediaFormat::Movie,
        MediaFormat::Special,
        MediaFormat::Ova,
        MediaFormat::Ona,
        MediaFormat::Music,
        MediaFormat::Manga,
        MediaFormat::Novel,
        MediaFormat::OneShot,
    ] {
        assert_eq!(MediaFormat::decode(v.encode_by_ref()).unwrap(), v);
    }
    assert_eq!(MediaFormat::TvShort.encode_by_ref(), "tv_short");
    assert_eq!(MediaFormat::OneShot.encode_by_ref(), "one_shot");
    assert_eq!(error_of(MediaFormat::decode("TV")), parse_error("TV"));
    assert_eq!(MediaFormat::type_info(), "media_format");

    for v in [
        MediaSource::Original,
        MediaSource::Manga,
        MediaSource::LightNovel,
        MediaSource::VisualNovel,
        MediaSource::VideoGame,
        MediaSource::Other,
        MediaSource::Novel,
        MediaSource::Doujinshi,
        MediaSource::Anime,
        MediaSource::WebNovel,
        MediaSource::LiveAction,
        MediaSource::Game,
        MediaSource::Comic,
        MediaSource::MultimediaProject,
        MediaSource::PictureBook,
    ] {
        assert_eq!(MediaSource::decode(v.encode_by_ref()).unwrap(), v);
    }
    assert_eq!(MediaSource::MultimediaProject.encode_by_ref(), "multi_media_project");
    assert_eq!(error_of(MediaSource::decode("multimedia_project")), parse_error("multimedia_project"));
    assert_eq!(MediaSource::type_info(), "media_source");

    for v in [ReportStatus::Pending, ReportStatus::InProgress, ReportStatus::Resolved, ReportStatus::Dismissed] {
        assert_eq!(ReportStatus::decode(v.encode_by_ref()).unwrap(), v);
    }
    assert_eq!(ReportStatus::InProgress.encode_by_ref(), "in_progress");
    assert_eq!(error_of(ReportStatus::decode("open")), parse_error("open"));
    assert_eq!(ReportStatus::type_info(), "report_status");
}

#[test]
fn lax_values_of_the_song_database() {
    assert_eq!(bool_from_int(0), Some(false));
    assert_eq!(bool_from_int(1), Some(true));
    assert_eq!(bool_from_int(2), None);
    assert_eq!(bool_from_int(-1), None);
    assert_eq!(bool_from_int(i64::MAX), None);
    assert_eq!(empty_vec_if_null::<i32>(None), Vec::<i32>::new());
    assert_eq!(empty_vec_if_null(Some(vec![1, 2])), vec![1, 2]);
    assert_eq!(empty_vec_if_null(Some(Vec::<String>::new())), Vec::<String>::new());
}

#[test]
fn a_report_starts_out_pending() {
    let report = Report::new(
        Some(SpotifyTrackID("t".to_string())),
        Some(SongAnnId(4)),
        "wrong anime".to_string(),
        SpotifyUser {
            display_name: Some("name".to_string()),
            email: None,
            id: SpotifyUserID("u".to_string()),
        },
    );
    assert_eq!(report.status, ReportStatus::Pending);
    assert_eq!(report.track_id, Some(SpotifyTrackID("t".to_string())));
    assert_eq!(report.song_ann_id, Some(SongAnnId(4)));
    assert_eq!(report.message, "wrong anime");
    assert_eq!(report.user.id, SpotifyUserID("u".to_string()));
}
