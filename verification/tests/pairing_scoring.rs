use what_anime::ids::{AnisongArtistID, SpotifyArtistID};
use what_anime::pairing::{
    best_match, pair_artists, plan_pairs, score_against, score_names, select_pairs, Candidate,
};
use what_anime::scoring::{rank_rows, Ranking, RowScore};
use what_anime::songs::SimplifiedArtist as CatalogArtist;
use what_anime::spotify::SimplifiedArtist;

fn streaming(id: &str, name: &str) -> SimplifiedArtist {
    SimplifiedArtist { id: SpotifyArtistID(id.to_string()), name: name.to_string() }
}

fn catalog(id: i32, names: &[&str]) -> CatalogArtist {
    CatalogArtist {
        names: names.iter().map(|n| n.to_string()).collect(),
        id: AnisongArtistID(id),
        line_up_id: None,
        group_ids: vec![],
        member_ids: vec![],
    }
}

fn pick(streaming: usize, catalog: usize, score: u8) -> Candidate {
    Candidate { streaming, catalog, score }
}

fn score(name: u8, total: u128, count: usize) -> RowScore {
    RowScore { name, total, count }
}

#[test]
fn the_best_of_equal_scores_is_the_last() {
    assert_eq!(best_match(&vec![]), None);
    assert_eq!(best_match(&vec![7]), Some(0));
    assert_eq!(best_match(&vec![1, 9, 3]), Some(1));
    assert_eq!(best_match(&vec![9, 1, 9, 3]), Some(2));
    assert_eq!(best_match(&vec![0, 0, 0]), Some(2));
    assert_eq!(best_match(&vec![100, 99]), Some(0));
}

#[test]
fn names_are_scored_after_normalising() {
    assert_eq!(score_names("LiSA", "lisa"), 100);
    assert_eq!(score_names("Sumire Uesaka", "Uesaka Sumire"), 100);
    assert_eq!(score_names("Anya Forger (CV: Atsumi Tanezaki)", "Atsumi Tanezaki"), 100);
    assert_eq!(score_names("", ""), 100);
    let expected = fuzzywuzzy::fuzz::token_set_ratio("lisa", "aimer", true, true);
    assert_eq!(score_names("LiSA", "Aimer"), expected);
    assert!(expected < 90);
    assert_eq!(
        score_names("fuzzy was a bear", "fuzzy fuzzy was a bear"),
        100
    );
    assert_eq!(
        score_names("上坂すみれ", "Uesaka Sumire"),
        fuzzywuzzy::fuzz::token_set_ratio(
            &what_anime::text::normalize_text(&what_anime::text::process_possible_japanese("上坂すみれ")),
            "uesaka sumire",
            true,
            true
        )
    );
}

#[test]
fn an_artist_is_scored_by_the_best_of_the_names() {
    let names = vec!["Aimer".to_string(), "LiSA".to_string(), "x".to_string()];
    assert_eq!(score_against("lisa", &names), 100);
    assert_eq!(score_against("lisa", &vec![]), 0);
    assert_eq!(score_against("lisa", &vec!["Aimer".to_string()]), score_names("lisa", "Aimer"));
}

#[test]
fn picks_are_thinned_to_a_matching() {
    let a = vec![streaming("s0", "a"), streaming("s1", "b"), streaming("s2", "c")];
    let b = vec![catalog(10, &["x"]), catalog(11, &["y"])];
    // Both s0 and s1 picked catalog artist 10; the better pick stays.
    let kept = select_pairs(vec![pick(0, 0, 60), pick(1, 0, 80), pick(2, 1, 70)], &a, &b);
    assert_eq!(kept, vec![pick(1, 0, 80), pick(2, 1, 70)]);
    // Of equal scores the earlier pick stays.
    let kept = select_pairs(vec![pick(0, 0, 80), pick(1, 0, 80)], &a, &b);
    assert_eq!(kept, vec![pick(0, 0, 80)]);
    // Falling score, ties in the order made.
    let kept = select_pairs(vec![pick(0, 0, 10), pick(1, 1, 90)], &a, &b);
    assert_eq!(kept, vec![pick(1, 1, 90), pick(0, 0, 10)]);
    assert!(select_pairs(vec![], &a, &b).is_empty());
}

#[test]
fn a_streaming_artist_that_came_up_blocks_later_picks_of_the_same_id() {
    let a = vec![streaming("same", "a"), streaming("same", "b"), streaming("s2", "c")];
    let b = vec![catalog(10, &["x"]), catalog(11, &["y"]), catalog(10, &["z"])];
    // The second pick has the streaming id of the first and goes; catalog
    // artists 0 and 2 share the id 10, so the third pick goes as well.
    let kept = select_pairs(vec![pick(0, 0, 90), pick(1, 1, 80), pick(2, 2, 70)], &a, &b);
    assert_eq!(kept, vec![pick(0, 0, 90)]);
    // A pick that goes for its catalog artist still blocks its streaming id.
    let a = vec![streaming("s0", "a"), streaming("s1", "b"), streaming("s1", "c")];
    let b = vec![catalog(10, &["x"]), catalog(11, &["y"])];
    let kept = select_pairs(vec![pick(0, 0, 90), pick(1, 0, 80), pick(2, 1, 70)], &a, &b);
    assert_eq!(kept, vec![pick(0, 0, 90)]);
}

#[test]
fn artists_are_paired_one_to_one() {
    let a = vec![
        streaming("s-lisa", "LiSA"),
        streaming("s-sumire", "Sumire Uesaka"),
        streaming("s-lisa2", "lisa"),
    ];
    let b = vec![
        catalog(1, &["Aimer", "エメ"]),
        catalog(2, &["Uesaka Sumire", "上坂すみれ"]),
        catalog(3, &["リサ", "LiSA"]),
    ];
    let plan = plan_pairs(&a, &b);
    let pairs = pair_artists(a.clone(), b.clone());
    assert_eq!(plan.len(), pairs.len());
    for (c, p) in plan.iter().zip(pairs.iter()) {
        assert_eq!(p.0.id, a[c.streaming].id);
        assert_eq!(p.0.name, a[c.streaming].name);
        assert_eq!(p.1.id, b[c.catalog].id);
        assert_eq!(p.1.names, b[c.catalog].names);
        assert_eq!(p.2, c.score);
    }
    let shape: Vec<(&str, i32, u8)> =
        pairs.iter().map(|p| (p.0.id.0.as_str(), p.1.id.0, p.2)).collect();
    assert_eq!(shape, vec![("s-lisa", 3, 100), ("s-sumire", 2, 100)]);
    for (i, p) in pairs.iter().enumerate() {
        for q in pairs.iter().skip(i + 1) {
            assert_ne!(p.0.id, q.0.id);
            assert_ne!(p.1.id, q.1.id);
        }
    }
}

#[test]
fn nobody_is_paired_with_an_empty_list() {
    assert!(pair_artists(vec![], vec![catalog(1, &["a"])]).is_empty());
    assert!(pair_artists(vec![streaming("s", "a")], vec![]).is_empty());
    assert!(pair_artists(vec![], vec![]).is_empty());
    assert!(plan_pairs(&vec![], &vec![]).is_empty());
}

#[test]
fn an_artist_without_names_scores_nothing() {
    let pairs = pair_artists(vec![streaming("s", "LiSA")], vec![catalog(1, &[])]);
    assert_eq!(pairs.len(), 1);
    assert_eq!(pairs[0].2, 0);
    let pairs = pair_artists(
        vec![streaming("s", "LiSA")],
        vec![catalog(1, &["LiSA"]), catalog(2, &[])],
    );
    assert_eq!(pairs.len(), 1);
    assert_eq!((pairs[0].1.id.0, pairs[0].2), (1, 100));
}

#[test]
fn scores_compare_as_fractions() {
    // (50 + 100/3) / 2 against (50 + 200/6) / 2: the same score.
    assert!(score(50, 100, 3).is_level(&score(50, 200, 6)));
    assert!(!score(50, 100, 3).is_above(&score(50, 200, 6)));
    assert!(score(50, 101, 3).is_above(&score(50, 200, 6)));
    assert!(!score(50, 200, 6).is_above(&score(50, 101, 3)));
    assert!(score(51, 0, 1).is_above(&score(50, 99, 100)));
    assert!(score(50, 1, 1).is_above(&score(50, 99, 100)));
    assert!(score(0, 0, 0).is_level(&score(0, 0, 5)));
    assert!(score(10, 0, 0).is_level(&score(10, 0, 7)));
    assert!(score(10, 0, 0).is_above(&score(9, 7, 7)) == false);
    assert!(score(9, 7, 7).is_level(&score(10, 0, 0)));
    let huge = usize::MAX;
    assert!(score(100, 100 * huge as u128, huge).is_above(&score(100, 100 * huge as u128 - 1, huge)));
    assert!(score(100, 100 * huge as u128, huge).is_level(&score(100, 100, 1)));
}

#[test]
fn certainty_is_the_score_rounded_down() {
    assert_eq!(score(100, 100, 1).certainty(), 100);
    assert_eq!(score(0, 0, 0).certainty(), 0);
    assert_eq!(score(100, 0, 0).certainty(), 50);
    assert_eq!(score(81, 100, 1).certainty(), 90);
    assert_eq!(score(80, 100, 1).certainty(), 90);
    assert_eq!(score(79, 100, 1).certainty(), 89);
    // (100 + 250/3) / 2 = 91.66...
    assert_eq!(score(100, 250, 3).certainty(), 91);
    // (99 + 199/2) / 2 = 99.25
    assert_eq!(score(99, 199, 2).certainty(), 99);
    // (1 + 1/2) / 2 = 0.75
    assert_eq!(score(1, 1, 2).certainty(), 0);
}

#[test]
fn the_best_row_is_the_first_of_the_greatest_score() {
    assert_eq!(rank_rows(&vec![]), Ranking { best: None, certainty: 0 });
    assert_eq!(
        rank_rows(&vec![score(10, 0, 1), score(90, 100, 1), score(90, 200, 2), score(95, 50, 1)]),
        Ranking { best: Some(1), certainty: 95 }
    );
    assert_eq!(
        rank_rows(&vec![score(0, 0, 0), score(0, 0, 3)]),
        Ranking { best: Some(0), certainty: 0 }
    );
    assert_eq!(rank_rows(&vec![score(57, 0, 2)]), Ranking { best: Some(0), certainty: 28 });
}
