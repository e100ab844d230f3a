//! Pairing the artists of a streamed track with the artists of a catalog
//! song: every streaming artist picks the catalog artist whose names fit
//! best, and the picks are thinned to a one-to-one matching.

use std::collections::HashSet;
use vstd::prelude::*;
use crate::names::{actor_name, process_artist_name};
use crate::ordering::{
    insert_at, insert_by_key, key_values, lemma_insert_at, lemma_sorted_len,
    lemma_sorted_permutes, ordered_by,
};
use crate::songs::{artist_views, ArtistView};
use crate::songs::SimplifiedArtist as CatalogArtist;
use crate::spotify::SimplifiedArtist;
use crate::text::{
    fuzz_token_set_ratio, normalised, normalize_text, process_possible_japanese, romanised,
    token_set_ratio_of,
};

verus! {

/// How well two artist names fit: the token set ratio of their romanised
/// normal forms, each name first reduced to the performing artist.
pub open spec fn name_score(a: Seq<char>, b: Seq<char>) -> u8 {
    token_set_ratio_of(
        normalised(romanised(actor_name(a))),
        normalised(romanised(actor_name(b))),
    )
}

/// How well a name fits an artist who goes by several names: the best score
/// over the names, and 0 for an artist without a name.
pub open spec fn best_name_score(a: Seq<char>, names: Seq<String>) -> u8
    decreases names.len(),
{
    if names.len() == 0 {
        0
    } else {
        let before = best_name_score(a, names.drop_last());
        let last = name_score(a, names.last()@);
        if last >= before {
            last
        } else {
            before
        }
    }
}

/// The place of the best of some scores; of equal best scores the last one.
pub open spec fn last_best(scores: Seq<u8>) -> int
    decreases scores.len(),
{
    if scores.len() <= 1 {
        0
    } else {
        let before = last_best(scores.drop_last());
        if scores.last() >= scores[before] {
            scores.len() - 1
        } else {
            before
        }
    }
}

/// The place that `last_best` names lies within the scores and holds a score
/// that none exceeds and none behind it reaches.
pub proof fn lemma_last_best(scores: Seq<u8>)
    requires
        scores.len() > 0,
    ensures
        0 <= last_best(scores) < scores.len(),
        forall|i: int| 0 <= i < scores.len() ==> #[trigger] scores[i] <= scores[last_best(scores)],
        forall|i: int|
            last_best(scores) < i < scores.len() ==> #[trigger] scores[i] < scores[last_best(
                scores,
            )],
    decreases scores.len(),
{
    if scores.len() > 1 {
        let init = scores.drop_last();
        lemma_last_best(init);
        assert forall|i: int| 0 <= i < scores.len() implies #[trigger] scores[i] <= scores[last_best(
            scores,
        )] by {
            if i < init.len() {
                assert(scores[i] == init[i]);
            }
        }
        assert forall|i: int| last_best(scores) < i < scores.len() implies #[trigger] scores[i]
            < scores[last_best(scores)] by {
            if i < init.len() {
                assert(scores[i] == init[i]);
            }
        }
    }
}

/// Finds the place of the best of some scores; of equal best scores the last
/// one. There is no such place among no scores.
pub fn best_match(scores: &Vec<u8>) -> (r: Option<usize>)
    ensures
        r is None <==> scores@.len() == 0,
        r is Some ==> r->0 == last_best(scores@) && r->0 < scores@.len(),
{
    if scores.len() == 0 {
        return None;
    }
    let mut best: usize = 0;
    let mut i: usize = 1;
    proof {
        assert(scores@.take(1).len() == 1);
    }
    while i < scores.len()
        invariant
            1 <= i <= scores.len(),
            best < i,
            best == last_best(scores@.take(i as int)),
        decreases scores.len() - i,
    {
        proof {
            let upto = scores@.take(i as int + 1);
            assert(upto.drop_last() == scores@.take(i as int));
            assert(upto.last() == scores@[i as int]);
            assert(upto[best as int] == scores@[best as int]);
        }
        if scores[i] >= scores[best] {
            best = i;
        }
        i += 1;
    }
    proof {
        assert(scores@.take(scores.len() as int) == scores@);
    }
    Some(best)
}

/// Scores how well two artist names fit, from 0 to 100.
pub fn score_names(a: &str, b: &str) -> (r: u8)
    ensures
        r == name_score(a@, b@),
        r <= 100,
{
    let left = normalize_text(
        process_possible_japanese(process_artist_name(a).as_str()).as_str(),
    );
    let right = normalize_text(
        process_possible_japanese(process_artist_name(b).as_str()).as_str(),
    );
    fuzz_token_set_ratio(left.as_str(), right.as_str())
}

/// Scores how well a name fits an artist who goes by the given names.
pub fn score_against(a: &str, names: &Vec<String>) -> (r: u8)
    ensures
        r == best_name_score(a@, names@),
        r <= 100,
{
    let mut best: u8 = 0;
    let mut i: usize = 0;
    while i < names.len()
        invariant
            i <= names.len(),
            best == best_name_score(a@, names@.take(i as int)),
            best <= 100,
        decreases names.len() - i,
    {
        let score = score_names(a, names[i].as_str());
        proof {
            let upto = names@.take(i as int + 1);
            assert(upto.drop_last() == names@.take(i as int));
            assert(upto.last() == names@[i as int]);
        }
        if score >= best {
            best = score;
        }
        i += 1;
    }
    proof {
        assert(names@.take(names.len() as int) == names@);
    }
    best
}

/// A streaming artist's pick: the places of the streaming artist and of the
/// picked catalog artist in their lists, and the score of the pick.
#[derive(Debug, Clone, Copy, PartialEq, Eq)]
pub struct Candidate {
    pub streaming: usize,
    pub catalog: usize,
    pub score: u8,
}

/// The order in which picks are considered: by falling score.
pub open spec fn candidate_order() -> spec_fn(Candidate) -> int {
    |c: Candidate| -(c.score as int)
}

/// Whether the streaming artist of the pick `c` is also that of one of the
/// picks `earlier`.
pub open spec fn streaming_seen(
    earlier: Seq<Candidate>,
    streaming_ids: Seq<Seq<char>>,
    c: Candidate,
) -> bool {
    exists|q: int|
        0 <= q < earlier.len() && streaming_ids[(#[trigger] earlier[q]).streaming as int]
            == streaming_ids[c.streaming as int]
}

/// Whether the catalog artist of the pick `c` is also that of one of the
/// picks `kept`.
pub open spec fn catalog_taken(kept: Seq<Candidate>, catalog_ids: Seq<i32>, c: Candidate) -> bool {
    exists|q: int|
        0 <= q < kept.len() && catalog_ids[(#[trigger] kept[q]).catalog as int]
            == catalog_ids[c.catalog as int]
}

/// The picks that stay when the picks are walked in order: a pick stays
/// unless its streaming artist came up in an earlier pick or its catalog
/// artist is held by a pick that stayed.
pub open spec fn chosen(
    picks: Seq<Candidate>,
    streaming_ids: Seq<Seq<char>>,
    catalog_ids: Seq<i32>,
) -> Seq<Candidate>
    decreases picks.len(),
{
    if picks.len() == 0 {
        Seq::empty()
    } else {
        let kept = chosen(picks.drop_last(), streaming_ids, catalog_ids);
        let c = picks.last();
        if streaming_seen(picks.drop_last(), streaming_ids, c) || catalog_taken(
            kept,
            catalog_ids,
            c,
        ) {
            kept
        } else {
            kept.push(c)
        }
    }
}

/// Whether no two of the picks share a streaming artist or a catalog artist.
pub open spec fn one_to_one(
    picks: Seq<Candidate>,
    streaming_ids: Seq<Seq<char>>,
    catalog_ids: Seq<i32>,
) -> bool {
    forall|p: int, q: int|
        0 <= p < q < picks.len() ==> streaming_ids[(#[trigger] picks[p]).streaming as int]
            != streaming_ids[(#[trigger] picks[q]).streaming as int]
            && catalog_ids[picks[p].catalog as int] != catalog_ids[picks[q].catalog as int]
}

/// The picks that stay are picks that were made, and no two of them share a
/// streaming artist or a catalog artist.
pub proof fn lemma_chosen_one_to_one(
    picks: Seq<Candidate>,
    streaming_ids: Seq<Seq<char>>,
    catalog_ids: Seq<i32>,
)
    ensures
        chosen(picks, streaming_ids, catalog_ids).len() <= picks.len(),
        forall|q: int|
            0 <= q < chosen(picks, streaming_ids, catalog_ids).len() ==> picks.contains(
                #[trigger] chosen(picks, streaming_ids, catalog_ids)[q],
            ),
        one_to_one(chosen(picks, streaming_ids, catalog_ids), streaming_ids, catalog_ids),
    decreases picks.len(),
{
    if picks.len() > 0 {
        let init = picks.drop_last();
        let c = picks.last();
        let kept = chosen(init, streaming_ids, catalog_ids);
        let out = chosen(picks, streaming_ids, catalog_ids);
        lemma_chosen_one_to_one(init, streaming_ids, catalog_ids);
        assert forall|q: int| 0 <= q < out.len() implies picks.contains(#[trigger] out[q]) by {
            if q < kept.len() {
                assert(out[q] == kept[q]);
                assert(init.contains(kept[q]));
                let p = choose|p: int| 0 <= p < init.len() && init[p] == kept[q];
                assert(picks[p] == kept[q]);
            } else {
                assert(out[q] == c);
                assert(picks[picks.len() - 1] == c);
            }
        }
        if !(streaming_seen(init, streaming_ids, c) || catalog_taken(kept, catalog_ids, c)) {
            assert forall|p: int, q: int| 0 <= p < q < out.len() implies streaming_ids[(
            #[trigger] out[p]).streaming as int] != streaming_ids[(#[trigger] out[q]).streaming as int]
                && catalog_ids[out[p].catalog as int] != catalog_ids[out[q].catalog as int] by {
                if q < kept.len() {
                    assert(out[p] == kept[p] && out[q] == kept[q]);
                } else {
                    assert(out[q] == c);
                    assert(out[p] == kept[p]);
                    assert(init.contains(kept[p]));
                    let at = choose|at: int| 0 <= at < init.len() && init[at] == kept[p];
                    assert(init[at].streaming == kept[p].streaming);
                }
            }
        }
    }
}

/// The ids of a list of streaming artists, as texts.
pub open spec fn streaming_ids(artists: Seq<SimplifiedArtist>) -> Seq<Seq<char>> {
    artists.map_values(|a: SimplifiedArtist| a.id.0@)
}

/// The ids of a list of catalog artists, as numbers.
pub open spec fn catalog_ids(artists: Seq<ArtistView>) -> Seq<i32> {
    artists.map_values(|a: ArtistView| a.id.0)
}

/// Whether every pick names a streaming artist among the first `n` and a
/// catalog artist among the first `m`.
pub open spec fn in_range(picks: Seq<Candidate>, n: int, m: int) -> bool {
    forall|i: int|
        0 <= i < picks.len() ==> (#[trigger] picks[i]).streaming < n && picks[i].catalog < m
}

/// The picks in the order in which they are considered: by falling score,
/// picks of equal score in the order in which they were made.
pub open spec fn considered(picks: Seq<Candidate>) -> Seq<Candidate> {
    ordered_by(picks, candidate_order())
}

fn order_picks(picks: Vec<Candidate>, n: usize, m: usize) -> (r: Vec<Candidate>)
    requires
        in_range(picks@, n as int, m as int),
    ensures
        r@ == considered(picks@),
        in_range(r@, n as int, m as int),
        forall|i: int| 0 <= i < r@.len() ==> picks@.contains(#[trigger] r@[i]),
{
    let ghost input = picks@;
    let mut sorted: Vec<Candidate> = Vec::new();
    let mut keys: Vec<i64> = Vec::new();
    for pick in it: picks
        invariant
            it.seq() == input,
            in_range(input, n as int, m as int),
            sorted@ == ordered_by(input.take(it.index()), candidate_order()),
            keys@.len() == sorted@.len(),
            forall|i: int| 0 <= i < keys@.len() ==> keys@[i] as int == -(sorted@[i].score as int),
            in_range(sorted@, n as int, m as int),
            forall|i: int| 0 <= i < sorted@.len() ==> input.contains(#[trigger] sorted@[i]),
    {
        let k: i64 = 0 - (pick.score as i64);
        let ghost held = sorted@;
        let ghost at = insert_at(key_values(keys@), k as int);
        proof {
            assert(key_values(keys@) =~= sorted@.map_values(candidate_order()));
            let upto = input.take(it.index() + 1);
            assert(upto.drop_last() == input.take(it.index()));
            assert(upto.last() == pick);
            assert(input[it.index()] == pick);
            lemma_insert_at(key_values(keys@), k as int);
        }
        insert_by_key(&mut sorted, &mut keys, pick, k);
        proof {
            assert forall|i: int| 0 <= i < sorted@.len() implies (#[trigger] sorted@[i]).streaming
                < n && sorted@[i].catalog < m by {
                if i < at {
                    assert(sorted@[i] == held[i]);
                } else if i > at {
                    assert(sorted@[i] == held[i - 1]);
                }
            }
            assert forall|i: int| 0 <= i < sorted@.len() implies input.contains(
                #[trigger] sorted@[i],
            ) by {
                if i < at {
                    assert(sorted@[i] == held[i]);
                } else if i > at {
                    assert(sorted@[i] == held[i - 1]);
                }
            }
            assert forall|i: int| 0 <= i < keys@.len() implies keys@[i] as int == -(
            sorted@[i].score as int) by {
                if i < at {
                    assert(sorted@[i] == held[i]);
                } else if i > at {
                    assert(sorted@[i] == held[i - 1]);
                }
            }
        }
    }
    proof {
        assert(input.take(input.len() as int) == input);
    }
    sorted
}

fn seen_before(
    sorted: &Vec<Candidate>,
    upto: usize,
    c: Candidate,
    artists: &Vec<SimplifiedArtist>,
) -> (b: bool)
    requires
        upto <= sorted@.len(),
        forall|i: int|
            0 <= i < sorted@.len() ==> (#[trigger] sorted@[i]).streaming < artists@.len(),
        c.streaming < artists@.len(),
    ensures
        b == streaming_seen(sorted@.take(upto as int), streaming_ids(artists@), c),
{
    let ghost earlier = sorted@.take(upto as int);
    let ghost ids = streaming_ids(artists@);
    let mut q: usize = 0;
    while q < upto
        invariant
            q <= upto <= sorted@.len(),
            earlier == sorted@.take(upto as int),
            ids == streaming_ids(artists@),
            c.streaming < artists@.len(),
            forall|i: int|
                0 <= i < sorted@.len() ==> (#[trigger] sorted@[i]).streaming < artists@.len(),
            forall|i: int|
                0 <= i < q ==> ids[(#[trigger] earlier[i]).streaming as int]
                    != ids[c.streaming as int],
        decreases upto - q,
    {
        let e = sorted[q];
        proof {
            assert(earlier[q as int] == e);
        }
        if artists[e.streaming].id.same(&artists[c.streaming].id) {
            return true;
        }
        q += 1;
    }
    false
}

/// Thins the picks to a one-to-one matching. The picks are considered by
/// falling score; a pick stays unless its streaming artist came up in an
/// earlier pick or its catalog artist is held by a pick that stayed.
pub fn select_pairs(
    picks: Vec<Candidate>,
    artists: &Vec<SimplifiedArtist>,
    artists2: &Vec<CatalogArtist>,
) -> (r: Vec<Candidate>)
    requires
        in_range(picks@, artists@.len() as int, artists2@.len() as int),
    ensures
        r@ == chosen(
            considered(picks@),
            streaming_ids(artists@),
            catalog_ids(artist_views(artists2@)),
        ),
        one_to_one(r@, streaming_ids(artists@), catalog_ids(artist_views(artists2@))),
        in_range(r@, artists@.len() as int, artists2@.len() as int),
        r@.len() <= picks@.len(),
        forall|k: int| 0 <= k < r@.len() ==> picks@.contains(#[trigger] r@[k]),
{
    broadcast use vstd::std_specs::hash::group_hash_axioms;

    let ghost a_ids = streaming_ids(artists@);
    let ghost b_ids = catalog_ids(artist_views(artists2@));
    let ghost n = artists@.len() as int;
    let ghost m = artists2@.len() as int;
    let ghost made = picks@;
    let sorted = order_picks(picks, artists.len(), artists2.len());
    let mut kept: Vec<Candidate> = Vec::new();
    let mut taken: HashSet<i32> = HashSet::new();
    let mut p: usize = 0;
    while p < sorted.len()
        invariant
            p <= sorted@.len(),
            forall|id: i32|
                taken@.contains(id) <==> exists|q: int|
                    0 <= q < kept@.len() && b_ids[(#[trigger] kept@[q]).catalog as int] == id,
            n == artists@.len(),
            m == artists2@.len(),
            a_ids == streaming_ids(artists@),
            b_ids == catalog_ids(artist_views(artists2@)),
            in_range(sorted@, n, m),
            in_range(kept@, n, m),
            kept@ == chosen(sorted@.take(p as int), a_ids, b_ids),
            forall|i: int| 0 <= i < sorted@.len() ==> made.contains(#[trigger] sorted@[i]),
            forall|k: int| 0 <= k < kept@.len() ==> made.contains(#[trigger] kept@[k]),
        decreases sorted@.len() - p,
    {
        let c = sorted[p];
        proof {
            let upto = sorted@.take(p as int + 1);
            assert(upto.drop_last() == sorted@.take(p as int));
            assert(upto.last() == c);
        }
        let seen = seen_before(&sorted, p, c, artists);
        if !seen {
            let id = artists2[c.catalog].id.0;
            let ghost held = kept@;
            proof {
                assert(b_ids[c.catalog as int] == id);
                assert(catalog_taken(held, b_ids, c) == taken@.contains(id));
            }
            let free = taken.insert(id);
            if free {
                kept.push(c);
                proof {
                    assert forall|other: i32| taken@.contains(other) <==> exists|q: int|
                        0 <= q < kept@.len() && b_ids[(#[trigger] kept@[q]).catalog as int]
                            == other by {
                        if exists|q: int|
                            0 <= q < kept@.len() && b_ids[(#[trigger] kept@[q]).catalog as int]
                                == other {
                            let q = choose|q: int|
                                0 <= q < kept@.len() && b_ids[(#[trigger] kept@[q]).catalog as int]
                                    == other;
                            if q < held.len() {
                                assert(held[q] == kept@[q]);
                            }
                        }
                        if exists|q: int|
                            0 <= q < held.len() && b_ids[(#[trigger] held[q]).catalog as int]
                                == other {
                            let q = choose|q: int|
                                0 <= q < held.len() && b_ids[(#[trigger] held[q]).catalog as int]
                                    == other;
                            assert(kept@[q] == held[q]);
                        }
                        if other == id {
                            assert(kept@[held.len() as int] == c);
                        }
                    }
                }
            }
        }
        p += 1;
    }
    proof {
        assert(sorted@.take(sorted@.len() as int) == sorted@);
        lemma_chosen_one_to_one(sorted@, a_ids, b_ids);
        lemma_sorted_len(made, candidate_order());
    }
    kept
}

/// The pick of the streaming artist at place `i`, by the scores of the
/// catalog artists against that artist's name.
pub open spec fn candidate_of(i: int, row: Seq<u8>) -> Candidate {
    Candidate {
        streaming: i as usize,
        catalog: last_best(row) as usize,
        score: row[last_best(row)],
    }
}

/// The scores of all catalog artists against one name.
pub open spec fn row_scores(name: Seq<char>, catalog: Seq<ArtistView>) -> Seq<u8> {
    catalog.map_values(|b: ArtistView| best_name_score(name, b.names))
}

/// The picks of all streaming artists, in the order of the artists.
pub open spec fn candidates(streaming: Seq<SimplifiedArtist>, catalog: Seq<ArtistView>) -> Seq<
    Candidate,
> {
    Seq::new(streaming.len(), |i: int| candidate_of(i, row_scores(streaming[i].name@, catalog)))
}

/// The matching of streaming artists and catalog artists: nobody is paired
/// where either list is empty; otherwise every streaming artist picks the
/// catalog artist of the best score, and the picks are thinned to a
/// one-to-one matching.
pub open spec fn pair_plan(streaming: Seq<SimplifiedArtist>, catalog: Seq<ArtistView>) -> Seq<
    Candidate,
> {
    if streaming.len() == 0 || catalog.len() == 0 {
        Seq::empty()
    } else {
        chosen(
            considered(candidates(streaming, catalog)),
            streaming_ids(streaming),
            catalog_ids(catalog),
        )
    }
}

/// Every pick of the matching names a streaming artist and a catalog artist
/// of the lists that were matched.
pub proof fn lemma_plan_in_range(streaming: Seq<SimplifiedArtist>, catalog: Seq<ArtistView>)
    ensures
        in_range(pair_plan(streaming, catalog), streaming.len() as int, catalog.len() as int),
        pair_plan(streaming, catalog).len() <= streaming.len(),
{
    if streaming.len() > 0 && catalog.len() > 0 {
        let made = candidates(streaming, catalog);
        let ordered = considered(made);
        let plan = pair_plan(streaming, catalog);
        lemma_chosen_one_to_one(ordered, streaming_ids(streaming), catalog_ids(catalog));
        lemma_sorted_permutes(made, candidate_order());
        lemma_sorted_len(made, candidate_order());
        assert forall|i: int| 0 <= i < plan.len() implies (#[trigger] plan[i]).streaming
            < streaming.len() && plan[i].catalog < catalog.len() by {
            let c = plan[i];
            assert(ordered.contains(c));
            vstd::seq_lib::to_multiset_contains(ordered, c);
            vstd::seq_lib::to_multiset_contains(made, c);
            let at = choose|at: int| 0 <= at < made.len() && made[at] == c;
            lemma_last_best(row_scores(streaming[at].name@, catalog));
        }
    }
}

fn score_row(name: &str, artists2: &Vec<CatalogArtist>) -> (row: Vec<u8>)
    ensures
        row@ == row_scores(name@, artist_views(artists2@)),
        forall|j: int| 0 <= j < row@.len() ==> #[trigger] row@[j] <= 100,
{
    let mut row: Vec<u8> = Vec::new();
    let mut j: usize = 0;
    while j < artists2.len()
        invariant
            j <= artists2@.len(),
            row@ == row_scores(name@, artist_views(artists2@.take(j as int))),
            forall|i: int| 0 <= i < row@.len() ==> #[trigger] row@[i] <= 100,
        decreases artists2@.len() - j,
    {
        let score = score_against(name, &artists2[j].names);
        let ghost held = row@;
        row.push(score);
        proof {
            assert(artists2@.take(j as int + 1) == artists2@.take(j as int).push(artists2@[j as int]));
            assert(row@ =~= row_scores(name@, artist_views(artists2@.take(j as int + 1))));
        }
        j += 1;
    }
    proof {
        assert(artists2@.take(artists2@.len() as int) == artists2@);
    }
    row
}

/// Plans the matching of the streaming artists with the catalog artists.
pub fn plan_pairs(artists: &Vec<SimplifiedArtist>, artists2: &Vec<CatalogArtist>) -> (r: Vec<
    Candidate,
>)
    ensures
        r@ == pair_plan(artists@, artist_views(artists2@)),
        one_to_one(r@, streaming_ids(artists@), catalog_ids(artist_views(artists2@))),
        in_range(r@, artists@.len() as int, artists2@.len() as int),
        r@.len() <= artists@.len(),
        forall|k: int| 0 <= k < r@.len() ==> (#[trigger] r@[k]).score <= 100,
{
    if artists.len() == 0 || artists2.len() == 0 {
        return Vec::new();
    }
    let ghost catalog = artist_views(artists2@);
    let mut picks: Vec<Candidate> = Vec::new();
    let mut i: usize = 0;
    while i < artists.len()
        invariant
            i <= artists@.len(),
            artists2@.len() > 0,
            catalog == artist_views(artists2@),
            picks@ == candidates(artists@.take(i as int), catalog),
            in_range(picks@, artists@.len() as int, artists2@.len() as int),
            forall|k: int| 0 <= k < picks@.len() ==> (#[trigger] picks@[k]).score <= 100,
        decreases artists@.len() - i,
    {
        let row = score_row(artists[i].name.as_str(), artists2);
        let at = match best_match(&row) {
            Some(at) => at,
            None => 0,
        };
        let ghost held = picks@;
        picks.push(Candidate { streaming: i, catalog: at, score: row[at] });
        proof {
            assert(picks@ =~= candidates(artists@.take(i as int + 1), catalog));
        }
        i += 1;
    }
    proof {
        assert(artists@.take(artists@.len() as int) == artists@);
    }
    let ghost made = picks@;
    let chosen = select_pairs(picks, artists, artists2);
    proof {
        assert forall|k: int| 0 <= k < chosen@.len() implies (#[trigger] chosen@[k]).score <= 100 by {
            assert(made.contains(chosen@[k]));
        }
    }
    chosen
}

/// Pairs the artists of a streamed track with the artists of a catalog
/// song. Each pair holds a streaming artist, the catalog artist picked for
/// that artist, and the score of the pick, from 0 to 100. No streaming
/// artist and no catalog artist stands in two pairs.
pub fn pair_artists(artists: Vec<SimplifiedArtist>, artists2: Vec<CatalogArtist>) -> (r: Vec<
    (SimplifiedArtist, CatalogArtist, u8),
>)
    ensures
        r@.len() == pair_plan(artists@, artist_views(artists2@)).len(),
        forall|k: int|
            0 <= k < r@.len() ==> {
                let pick = pair_plan(artists@, artist_views(artists2@))[k];
                &&& (#[trigger] r@[k]).0 == artists@[pick.streaming as int]
                &&& r@[k].1@ == artists2@[pick.catalog as int]@
                &&& r@[k].2 == pick.score
                &&& r@[k].2 <= 100
            },
        forall|p: int, q: int|
            0 <= p < q < r@.len() ==> (#[trigger] r@[p]).0.id.0@ != (#[trigger] r@[q]).0.id.0@
                && r@[p].1.id != r@[q].1.id,
{
    let plan = plan_pairs(&artists, &artists2);
    let mut pairs: Vec<(SimplifiedArtist, CatalogArtist, u8)> = Vec::new();
    let mut k: usize = 0;
    while k < plan.len()
        invariant
            k <= plan@.len(),
            pairs@.len() == k,
            in_range(plan@, artists@.len() as int, artists2@.len() as int),
            forall|i: int| 0 <= i < plan@.len() ==> (#[trigger] plan@[i]).score <= 100,
            forall|i: int|
                0 <= i < pairs@.len() ==> {
                    &&& (#[trigger] pairs@[i]).0 == artists@[plan@[i].streaming as int]
                    &&& pairs@[i].1@ == artists2@[plan@[i].catalog as int]@
                    &&& pairs@[i].2 == plan@[i].score
                },
        decreases plan@.len() - k,
    {
        let pick = plan[k];
        pairs.push(
            (artists[pick.streaming].duplicate(), artists2[pick.catalog].duplicate(), pick.score),
        );
        k += 1;
    }
    proof {
        let a_ids = streaming_ids(artists@);
        let b_ids = catalog_ids(artist_views(artists2@));
        assert forall|p: int, q: int| 0 <= p < q < pairs@.len() implies (#[trigger] pairs@[p]).0.id.0@
            != (#[trigger] pairs@[q]).0.id.0@ && pairs@[p].1.id != pairs@[q].1.id by {
            assert(a_ids[plan@[p].streaming as int] != a_ids[plan@[q].streaming as int]);
            assert(b_ids[plan@[p].catalog as int] != b_ids[plan@[q].catalog as int]);
        }
    }
    pairs
}

} // verus!
