//! Ingestion: from the records of the song database and the entries of the
//! anime graph to what the catalog stores, and the pacing of the worker that
//! fetches them.

use std::collections::HashSet;
use vstd::prelude::*;
use crate::anilist::Media;
use crate::anisong::{Anisong, AnisongAnime, AnisongBind, AnisongSong};
use crate::catalog::{anime_order, enrichment_for, origins, DBAnime, DBAnisongBind};
use crate::ids::{AnilistAnimeID, SongID};
use crate::ordering::{
    insert_by_key, key_values, lemma_insert_at, lemma_sorted_ascending, lemma_sorted_permutes,
    ordered_by,
};
use crate::songs::{
    all_credits, artist_views, distinct, simplifies, SimplifiedAnisongSong, SimplifiedArtist,
};
use crate::strings::str_eq;

verus! {

/// The order of numbers by their size.
pub open spec fn by_size() -> spec_fn(int) -> int {
    |x: int| x
}

/// The ids of the performers of a song, as numbers.
pub open spec fn performer_ids(artists: Seq<SimplifiedArtist>) -> Seq<int> {
    artists.map_values(|a: SimplifiedArtist| a.id.0 as int)
}

/// What identifies a song in the catalog: its name, and the ids of its
/// performers in ascending order.
pub open spec fn song_key(song: SimplifiedAnisongSong) -> (Seq<char>, Seq<int>) {
    (song.name@, ordered_by(performer_ids(song.artists@), by_size()))
}

/// A song of a batch with every use of it in the batch.
#[derive(Debug, Clone)]
pub struct SongGroup {
    pub song: SimplifiedAnisongSong,
    pub binds: Vec<AnisongBind>,
}

/// The place of the first of some songs that has the key `k`; the number of
/// the songs where none has it.
pub open spec fn place_of_key(songs: Seq<SimplifiedAnisongSong>, k: (Seq<char>, Seq<int>)) -> int
    decreases songs.len(),
{
    if songs.len() == 0 {
        0
    } else {
        let before = place_of_key(songs.drop_last(), k);
        if before < songs.len() - 1 {
            before
        } else if song_key(songs.last()) == k {
            songs.len() - 1
        } else {
            songs.len() as int
        }
    }
}

/// The songs of a batch without repetition: of the songs with one key the
/// first stays.
pub open spec fn grouped_songs(songs: Seq<SimplifiedAnisongSong>) -> Seq<SimplifiedAnisongSong>
    decreases songs.len(),
{
    if songs.len() == 0 {
        Seq::empty()
    } else {
        let kept = grouped_songs(songs.drop_last());
        if place_of_key(kept, song_key(songs.last())) < kept.len() {
            kept
        } else {
            kept.push(songs.last())
        }
    }
}

/// The uses of the songs of a batch, gathered by song: one list for each
/// song that stays, in the order of the batch.
pub open spec fn grouped_binds(songs: Seq<SimplifiedAnisongSong>, binds: Seq<AnisongBind>) -> Seq<
    Seq<AnisongBind>,
>
    decreases songs.len(),
{
    if songs.len() == 0 || binds.len() != songs.len() {
        Seq::empty()
    } else {
        let kept = grouped_songs(songs.drop_last());
        let gathered = grouped_binds(songs.drop_last(), binds.drop_last());
        let at = place_of_key(kept, song_key(songs.last()));
        if 0 <= at < gathered.len() {
            gathered.update(at, gathered[at].push(binds.last()))
        } else {
            gathered.push(seq![binds.last()])
        }
    }
}

/// The place that `place_of_key` names holds the key, and no place before
/// it does.
pub proof fn lemma_place_of_key(songs: Seq<SimplifiedAnisongSong>, k: (Seq<char>, Seq<int>))
    ensures
        0 <= place_of_key(songs, k) <= songs.len(),
        place_of_key(songs, k) < songs.len() ==> song_key(songs[place_of_key(songs, k)]) == k,
        forall|j: int| 0 <= j < place_of_key(songs, k) ==> song_key(#[trigger] songs[j]) != k,
    decreases songs.len(),
{
    if songs.len() > 0 {
        let init = songs.drop_last();
        lemma_place_of_key(init, k);
        assert forall|j: int| 0 <= j < place_of_key(songs, k) implies song_key(
            #[trigger] songs[j],
        ) != k by {
            if j < init.len() {
                assert(songs[j] == init[j]);
            }
        }
        if place_of_key(init, k) < init.len() {
            assert(songs[place_of_key(init, k)] == init[place_of_key(init, k)]);
        }
    }
}

/// No two songs that stay have the same key, and there is one list of uses
/// for each of them.
pub proof fn lemma_grouped_distinct(songs: Seq<SimplifiedAnisongSong>, binds: Seq<AnisongBind>)
    requires
        songs.len() == binds.len(),
    ensures
        grouped_songs(songs).len() == grouped_binds(songs, binds).len(),
        grouped_songs(songs).len() <= songs.len(),
        forall|i: int, j: int|
            0 <= i < j < grouped_songs(songs).len() ==> song_key(
                #[trigger] grouped_songs(songs)[i],
            ) != song_key(#[trigger] grouped_songs(songs)[j]),
    decreases songs.len(),
{
    if songs.len() > 0 {
        let init = songs.drop_last();
        let kept = grouped_songs(init);
        let k = song_key(songs.last());
        lemma_grouped_distinct(init, binds.drop_last());
        lemma_place_of_key(kept, k);
        let out = grouped_songs(songs);
        if place_of_key(kept, k) >= kept.len() {
            assert forall|i: int, j: int| 0 <= i < j < out.len() implies song_key(
                #[trigger] out[i],
            ) != song_key(#[trigger] out[j]) by {
                if j < kept.len() {
                    assert(out[i] == kept[i] && out[j] == kept[j]);
                } else {
                    assert(out[i] == kept[i]);
                }
            }
        }
    }
}

/// Gathering a batch that was gathered changes nothing: songs with pairwise
/// different keys all stay.
pub proof fn lemma_grouped_twice(songs: Seq<SimplifiedAnisongSong>, binds: Seq<AnisongBind>)
    requires
        songs.len() == binds.len(),
    ensures
        grouped_songs(grouped_songs(songs)) == grouped_songs(songs),
{
    lemma_grouped_distinct(songs, binds);
    lemma_distinct_stay(grouped_songs(songs));
}

/// Songs with pairwise different keys all stay.
pub proof fn lemma_distinct_stay(songs: Seq<SimplifiedAnisongSong>)
    requires
        forall|i: int, j: int|
            0 <= i < j < songs.len() ==> song_key(#[trigger] songs[i]) != song_key(
                #[trigger] songs[j],
            ),
    ensures
        grouped_songs(songs) == songs,
    decreases songs.len(),
{
    if songs.len() == 0 {
        assert(songs =~= Seq::<SimplifiedAnisongSong>::empty());
    } else {
        let init = songs.drop_last();
        let k = song_key(songs.last());
        assert forall|i: int, j: int| 0 <= i < j < init.len() implies song_key(
            #[trigger] init[i],
        ) != song_key(#[trigger] init[j]) by {
            assert(init[i] == songs[i] && init[j] == songs[j]);
        }
        lemma_distinct_stay(init);
        lemma_place_of_key(init, k);
        if place_of_key(init, k) < init.len() {
            let at = place_of_key(init, k);
            assert(init[at] == songs[at]);
            assert(song_key(songs[at]) != song_key(songs[songs.len() - 1]));
        }
        assert(init.push(songs.last()) == songs);
    }
}

/// Two songs have the same key exactly where they have the same name and
/// the same performers, however often and in whatever order each is listed.
pub proof fn lemma_same_song(a: SimplifiedAnisongSong, b: SimplifiedAnisongSong)
    ensures
        song_key(a) == song_key(b) <==> a.name@ == b.name@ && performer_ids(
            a.artists@,
        ).to_multiset() == performer_ids(b.artists@).to_multiset(),
{
    let x = performer_ids(a.artists@);
    let y = performer_ids(b.artists@);
    let sx = ordered_by(x, by_size());
    let sy = ordered_by(y, by_size());
    let leq = |p: int, q: int| p <= q;
    lemma_sorted_permutes(x, by_size());
    lemma_sorted_permutes(y, by_size());
    lemma_sorted_ascending(x, by_size());
    lemma_sorted_ascending(y, by_size());
    if x.to_multiset() == y.to_multiset() {
        assert(vstd::relations::sorted_by(sx, leq));
        assert(vstd::relations::sorted_by(sy, leq));
        assert(vstd::relations::total_ordering(leq)) by {
            assert(vstd::relations::reflexive(leq));
            assert(vstd::relations::antisymmetric(leq));
            assert(vstd::relations::transitive(leq));
            assert(vstd::relations::strongly_connected(leq));
        }
        vstd::seq_lib::lemma_sorted_unique(sx, sy, leq);
    }
}

fn sorted_ids(artists: &Vec<SimplifiedArtist>) -> (r: Vec<i64>)
    ensures
        key_values(r@) == ordered_by(performer_ids(artists@), by_size()),
{
    let mut items: Vec<i64> = Vec::new();
    let mut keys: Vec<i64> = Vec::new();
    let mut i: usize = 0;
    let ghost ids = performer_ids(artists@);
    while i < artists.len()
        invariant
            i <= artists@.len(),
            ids == performer_ids(artists@),
            items@ == keys@,
            key_values(keys@) == ordered_by(ids.take(i as int), by_size()),
        decreases artists@.len() - i,
    {
        let id = artists[i].id.0 as i64;
        let ghost held = key_values(keys@);
        proof {
            let upto = ids.take(i as int + 1);
            assert(upto.drop_last() == ids.take(i as int));
            assert(upto.last() == id as int);
            assert(held.map_values(by_size()) =~= held);
            lemma_insert_at(held, id as int);
        }
        insert_by_key(&mut items, &mut keys, id, id);
        proof {
            assert(key_values(keys@) =~= held.insert(
                crate::ordering::insert_at(held, id as int),
                id as int,
            ));
        }
        i += 1;
    }
    proof {
        assert(ids.take(ids.len() as int) == ids);
    }
    keys
}

fn same_ids(a: &Vec<i64>, b: &Vec<i64>) -> (r: bool)
    ensures
        r == (key_values(a@) == key_values(b@)),
{
    if a.len() != b.len() {
        return false;
    }
    let mut i: usize = 0;
    while i < a.len()
        invariant
            i <= a@.len(),
            a@.len() == b@.len(),
            forall|j: int| 0 <= j < i ==> a@[j] == b@[j],
        decreases a@.len() - i,
    {
        if a[i] != b[i] {
            proof {
                assert(key_values(a@)[i as int] != key_values(b@)[i as int]);
            }
            return false;
        }
        i += 1;
    }
    proof {
        assert(key_values(a@) =~= key_values(b@));
    }
    true
}

/// The songs of a list of groups.
pub open spec fn group_songs_of(groups: Seq<SongGroup>) -> Seq<SimplifiedAnisongSong> {
    groups.map_values(|g: SongGroup| g.song)
}

/// The uses of a list of groups.
pub open spec fn group_binds_of(groups: Seq<SongGroup>) -> Seq<Seq<AnisongBind>> {
    groups.map_values(|g: SongGroup| g.binds@)
}

/// Gathers the uses of a batch by song. Two uses belong to one song where
/// the songs have the same name and the same performers, in whatever order
/// the performers are listed. Of such songs the first stays; the uses keep
/// the order of the batch. No two songs that stay have the same key.
pub fn group_songs(songs: Vec<SimplifiedAnisongSong>, binds: Vec<AnisongBind>) -> (r: Option<
    Vec<SongGroup>,
>)
    ensures
        r is Some <==> songs@.len() == binds@.len(),
        r is Some ==> {
            &&& group_songs_of(r->0@) == grouped_songs(songs@)
            &&& group_binds_of(r->0@) == grouped_binds(songs@, binds@)
            &&& r->0@.len() <= songs@.len()
            &&& forall|i: int, j: int|
                0 <= i < j < r->0@.len() ==> song_key((#[trigger] r->0@[i]).song) != song_key(
                    (#[trigger] r->0@[j]).song,
                )
        },
{
    if songs.len() != binds.len() {
        return None;
    }
    let ghost all_songs = songs@;
    let ghost all_binds = binds@;
    let mut groups: Vec<SongGroup> = Vec::new();
    let mut keys: Vec<Vec<i64>> = Vec::new();
    let mut at: usize = 0;
    for song in it: songs
        invariant
            it.seq() == all_songs,
            all_binds == binds@,
            all_songs.len() == all_binds.len(),
            at == it.index(),
            all_songs.len() <= usize::MAX,
            group_songs_of(groups@) == grouped_songs(all_songs.take(at as int)),
            group_binds_of(groups@) == grouped_binds(
                all_songs.take(at as int),
                all_binds.take(at as int),
            ),
            keys@.len() == groups@.len(),
            forall|j: int|
                0 <= j < keys@.len() ==> key_values((#[trigger] keys@[j])@) == song_key(
                    groups@[j].song,
                ).1,
    {
        assert(at < all_songs.len());
        let ghost done = all_songs.take(at as int);
        let ghost kept = grouped_songs(done);
        let ghost gathered = grouped_binds(done, all_binds.take(at as int));
        let ghost k = song_key(song);
        proof {
            let upto = all_songs.take(at as int + 1);
            assert(upto.drop_last() == done);
            assert(upto.last() == song);
            let bupto = all_binds.take(at as int + 1);
            assert(bupto.drop_last() == all_binds.take(at as int));
            assert(bupto.last() == all_binds[at as int]);
            lemma_place_of_key(kept, k);
            lemma_grouped_distinct(done, all_binds.take(at as int));
        }
        let ids = sorted_ids(&song.artists);
        let bind = binds[at];
        let mut found: usize = 0;
        let mut matched = false;
        while found < groups.len() && !matched
            invariant
                found <= groups@.len(),
                matched ==> found < groups@.len() && song_key(kept[found as int]) == k,
                keys@.len() == groups@.len(),
                k == song_key(song),
                key_values(ids@) == k.1,
                group_songs_of(groups@) == kept,
                forall|j: int|
                    0 <= j < keys@.len() ==> key_values((#[trigger] keys@[j])@) == song_key(
                        groups@[j].song,
                    ).1,
                forall|j: int| 0 <= j < found ==> song_key(#[trigger] kept[j]) != k,
            decreases groups@.len() - found + if matched { 0int } else { 1int },
        {
            proof {
                assert(kept[found as int] == groups@[found as int].song);
            }
            if str_eq(groups[found].song.name.as_str(), song.name.as_str()) && same_ids(
                &keys[found],
                &ids,
            ) {
                matched = true;
            } else {
                found += 1;
            }
        }
        proof {
            // `found` is the first place that holds the key.
            lemma_first_place(kept, k, found as int);
        }
        if found < groups.len() {
            let ghost held = groups@;
            let mut group = groups.remove(found);
            group.binds.push(bind);
            groups.insert(found, group);
            proof {
                assert(group_songs_of(groups@) =~= kept);
                assert(group_binds_of(groups@) =~= gathered.update(
                    found as int,
                    gathered[found as int].push(bind),
                ));
                assert forall|j: int| 0 <= j < keys@.len() implies key_values(
                    (#[trigger] keys@[j])@,
                ) == song_key(groups@[j].song).1 by {
                    assert(groups@[j].song == kept[j]);
                    assert(held[j].song == kept[j]);
                }
            }
        } else {
            let mut first: Vec<AnisongBind> = Vec::new();
            first.push(bind);
            groups.push(SongGroup { song, binds: first });
            keys.push(ids);
            proof {
                assert(group_songs_of(groups@) =~= kept.push(song));
                assert(group_binds_of(groups@) =~= gathered.push(seq![bind]));
            }
        }
        at += 1;
    }
    proof {
        assert(all_songs.take(all_songs.len() as int) == all_songs);
        assert(all_binds.take(all_binds.len() as int) == all_binds);
        lemma_grouped_distinct(all_songs, all_binds);
        assert forall|i: int, j: int| 0 <= i < j < groups@.len() implies song_key(
            (#[trigger] groups@[i]).song,
        ) != song_key((#[trigger] groups@[j]).song) by {
            assert(groups@[i].song == grouped_songs(all_songs)[i]);
            assert(groups@[j].song == grouped_songs(all_songs)[j]);
        }
    }
    Some(groups)
}

/// A place that holds the key while no place before it does is the place of
/// the key; where no place holds the key, its place is the number of songs.
pub proof fn lemma_first_place(songs: Seq<SimplifiedAnisongSong>, k: (Seq<char>, Seq<int>), at: int)
    requires
        0 <= at <= songs.len(),
        forall|j: int| 0 <= j < at ==> song_key(#[trigger] songs[j]) != k,
        at < songs.len() ==> song_key(songs[at]) == k,
    ensures
        place_of_key(songs, k) == at,
{
    lemma_place_of_key(songs, k);
    let p = place_of_key(songs, k);
    if p < at {
        assert(song_key(songs[p]) != k);
    } else if p > at {
        assert(song_key(songs[at]) != k);
    }
}

/// A use of a song as the catalog stores it, once the song has its id.
pub open spec fn stored_bind(id: SongID, bind: AnisongBind) -> DBAnisongBind {
    DBAnisongBind {
        song_id: Some(id),
        anime_ann_id: Some(bind.anime_ann_id),
        song_ann_id: bind.song_ann_id,
        difficulty: bind.difficulty,
        song_index: bind.song_type,
        is_rebroadcast: bind.is_rebroadcast,
    }
}

/// The uses of one song, each with the song's id.
pub open spec fn stored_binds(id: SongID, binds: Seq<AnisongBind>) -> Seq<DBAnisongBind> {
    binds.map_values(|b: AnisongBind| stored_bind(id, b))
}

/// The uses of all songs of a batch, song by song, each with its song's id.
pub open spec fn expanded_binds(ids: Seq<SongID>, groups: Seq<SongGroup>) -> Seq<DBAnisongBind>
    decreases groups.len(),
{
    if groups.len() == 0 || ids.len() != groups.len() {
        Seq::empty()
    } else {
        expanded_binds(ids.drop_last(), groups.drop_last()) + stored_binds(
            ids.last(),
            groups.last().binds@,
        )
    }
}

/// Gives every use of a batch the id that the catalog allocated to its
/// song. The ids come in the order of the groups; `None` where there is not
/// one id for each group.
pub fn expand_binds(ids: &Vec<SongID>, groups: &Vec<SongGroup>) -> (r: Option<Vec<DBAnisongBind>>)
    ensures
        r is Some <==> ids@.len() == groups@.len(),
        r is Some ==> r->0@ == expanded_binds(ids@, groups@),
{
    if ids.len() != groups.len() {
        return None;
    }
    let mut out: Vec<DBAnisongBind> = Vec::new();
    let mut i: usize = 0;
    while i < groups.len()
        invariant
            i <= groups@.len(),
            ids@.len() == groups@.len(),
            out@ == expanded_binds(ids@.take(i as int), groups@.take(i as int)),
        decreases groups@.len() - i,
    {
        let id = ids[i];
        let ghost done = out@;
        let mut k: usize = 0;
        while k < groups[i].binds.len()
            invariant
                i < groups@.len(),
                k <= groups@[i as int].binds@.len(),
                id == ids@[i as int],
                out@ == done + stored_binds(id, groups@[i as int].binds@.take(k as int)),
            decreases groups@[i as int].binds@.len() - k,
        {
            let bind = groups[i].binds[k];
            out.push(
                DBAnisongBind {
                    song_id: Some(id),
                    anime_ann_id: Some(bind.anime_ann_id),
                    song_ann_id: bind.song_ann_id,
                    difficulty: bind.difficulty,
                    song_index: bind.song_type,
                    is_rebroadcast: bind.is_rebroadcast,
                },
            );
            proof {
                let binds = groups@[i as int].binds@;
                assert(binds.take(k as int + 1) == binds.take(k as int).push(binds[k as int]));
                assert(out@ =~= done + stored_binds(id, binds.take(k as int + 1)));
            }
            k += 1;
        }
        proof {
            let binds = groups@[i as int].binds@;
            assert(binds.take(binds.len() as int) == binds);
            let idsn = ids@.take(i as int + 1);
            let groupsn = groups@.take(i as int + 1);
            assert(idsn.drop_last() == ids@.take(i as int));
            assert(groupsn.drop_last() == groups@.take(i as int));
            assert(idsn.last() == id);
            assert(groupsn.last() == groups@[i as int]);
        }
        i += 1;
    }
    proof {
        assert(ids@.take(ids@.len() as int) == ids@);
        assert(groups@.take(groups@.len() as int) == groups@);
    }
    Some(out)
}

/// The ids in the anime graph that the animes of a list carry, in their
/// order, with repetitions.
pub open spec fn linked_ids(animes: Seq<AnisongAnime>) -> Seq<i32>
    decreases animes.len(),
{
    if animes.len() == 0 {
        Seq::empty()
    } else {
        match animes.last().linked_ids.anilist {
            Some(id) => linked_ids(animes.drop_last()).push(id.0),
            None => linked_ids(animes.drop_last()),
        }
    }
}

/// Some numbers without repetition: of equal numbers the first stays.
pub open spec fn unique(numbers: Seq<i32>) -> Seq<i32>
    decreases numbers.len(),
{
    if numbers.len() == 0 {
        Seq::empty()
    } else if numbers.drop_last().contains(numbers.last()) {
        unique(numbers.drop_last())
    } else {
        unique(numbers.drop_last()).push(numbers.last())
    }
}

/// The animes of a list of records.
pub open spec fn animes_of(records: Seq<Anisong>) -> Seq<AnisongAnime> {
    records.map_values(|r: Anisong| r.anime)
}

/// The ids of a list of numbers.
pub open spec fn as_anilist_ids(numbers: Seq<i32>) -> Seq<AnilistAnimeID> {
    numbers.map_values(|n: i32| AnilistAnimeID(n))
}

/// The numbers of a list of ids.
pub open spec fn id_numbers(ids: Seq<AnilistAnimeID>) -> Seq<i32> {
    ids.map_values(|id: AnilistAnimeID| id.0)
}

/// Drops the repetitions from a list of ids: each id stays once, where it
/// stands first.
pub fn distinct_ids(ids: &Vec<AnilistAnimeID>) -> (r: Vec<AnilistAnimeID>)
    ensures
        r@ == as_anilist_ids(unique(id_numbers(ids@))),
{
    broadcast use vstd::std_specs::hash::group_hash_axioms;

    let ghost numbers = id_numbers(ids@);
    let mut seen: HashSet<i32> = HashSet::new();
    let mut out: Vec<AnilistAnimeID> = Vec::new();
    let mut i: usize = 0;
    while i < ids.len()
        invariant
            i <= ids@.len(),
            numbers == id_numbers(ids@),
            out@ == as_anilist_ids(unique(numbers.take(i as int))),
            forall|n: i32| seen@.contains(n) <==> numbers.take(i as int).contains(n),
        decreases ids@.len() - i,
    {
        let id = ids[i];
        let ghost before = numbers.take(i as int);
        let ghost grown = numbers.take(i as int + 1);
        proof {
            assert(grown.drop_last() == before);
            assert(grown.last() == id.0);
        }
        let is_new = seen.insert(id.0);
        if is_new {
            out.push(id);
        }
        proof {
            assert(out@ =~= as_anilist_ids(unique(grown)));
            assert forall|n: i32| seen@.contains(n) <==> grown.contains(n) by {
                if grown.contains(n) {
                    let j = choose|j: int| 0 <= j < grown.len() && grown[j] == n;
                    if j < before.len() {
                        assert(before[j] == n);
                    }
                }
                if before.contains(n) {
                    let j = choose|j: int| 0 <= j < before.len() && before[j] == n;
                    assert(grown[j] == n);
                }
                assert(grown[before.len() as int] == id.0);
            }
        }
        i += 1;
    }
    proof {
        assert(numbers.take(numbers.len() as int) == numbers);
    }
    out
}

/// Collects the ids in the anime graph that some records carry: each id
/// once, in the order of first appearance.
pub fn present_anilist_ids(records: &Vec<Anisong>) -> (r: Vec<AnilistAnimeID>)
    ensures
        r@ == as_anilist_ids(unique(linked_ids(animes_of(records@)))),
{
    let ghost animes = animes_of(records@);
    let mut ids: Vec<AnilistAnimeID> = Vec::new();
    let mut i: usize = 0;
    while i < records.len()
        invariant
            i <= records@.len(),
            animes == animes_of(records@),
            id_numbers(ids@) == linked_ids(animes.take(i as int)),
        decreases records@.len() - i,
    {
        let ghost held = id_numbers(ids@);
        proof {
            let upto = animes.take(i as int + 1);
            assert(upto.drop_last() == animes.take(i as int));
            assert(upto.last() == records@[i as int].anime);
        }
        match records[i].anime.linked_ids.anilist {
            Some(id) => {
                ids.push(id);
                proof {
                    assert(id_numbers(ids@) =~= held.push(id.0));
                }
            },
            None => {},
        }
        i += 1;
    }
    proof {
        assert(animes.take(animes.len() as int) == animes);
    }
    distinct_ids(&ids)
}

/// The most ids that one question to the anime graph may hold.
pub const ANILIST_CHUNK: usize = 50;

/// Cuts a list of ids into the questions to the anime graph: chunks of 50
/// ids, the last one of what is left. Laid end to end the chunks are the
/// list.
pub fn id_chunks(ids: &Vec<AnilistAnimeID>) -> (r: Vec<Vec<AnilistAnimeID>>)
    ensures
        r@.len() == (ids@.len() + ANILIST_CHUNK - 1) / ANILIST_CHUNK as int,
        forall|c: int|
            0 <= c < r@.len() ==> (#[trigger] r@[c])@ == ids@.subrange(
                c * ANILIST_CHUNK,
                if (c + 1) * ANILIST_CHUNK <= ids@.len() {
                    (c + 1) * ANILIST_CHUNK
                } else {
                    ids@.len() as int
                },
            ),
        forall|c: int| 0 <= c < r@.len() ==> 0 < (#[trigger] r@[c])@.len() <= ANILIST_CHUNK,
{
    let mut chunks: Vec<Vec<AnilistAnimeID>> = Vec::new();
    let mut start: usize = 0;
    while start < ids.len()
        invariant
            start <= ids@.len(),
            start == chunks@.len() * ANILIST_CHUNK,
            forall|c: int|
                0 <= c < chunks@.len() ==> (#[trigger] chunks@[c])@ == ids@.subrange(
                    c * ANILIST_CHUNK,
                    (c + 1) * ANILIST_CHUNK,
                ),
        decreases ids@.len() - start,
    {
        let end = if ids.len() - start >= ANILIST_CHUNK {
            start + ANILIST_CHUNK
        } else {
            ids.len()
        };
        let mut chunk: Vec<AnilistAnimeID> = Vec::new();
        let mut i: usize = start;
        while i < end
            invariant
                start <= i <= end <= ids@.len(),
                chunk@ == ids@.subrange(start as int, i as int),
            decreases end - i,
        {
            chunk.push(ids[i]);
            proof {
                assert(ids@.subrange(start as int, i as int + 1) == ids@.subrange(
                    start as int,
                    i as int,
                ).push(ids@[i as int]));
            }
            i += 1;
        }
        if end < ids.len() || end - start == ANILIST_CHUNK {
            chunks.push(chunk);
            start = end;
        } else {
            // The last chunk, shorter than the others.
            let ghost full = chunks@.len();
            chunks.push(chunk);
            proof {
                assert(ids@.len() - start < ANILIST_CHUNK);
                assert((ids@.len() + ANILIST_CHUNK - 1) / ANILIST_CHUNK as int == full + 1);
            }
            return chunks;
        }
    }
    chunks
}

/// What a batch of records comes to for the catalog.
#[derive(Debug, Clone)]
pub struct IngestPlan {
    /// The animes, enriched where the anime graph knows them.
    pub animes: Vec<DBAnime>,
    /// The songs, each once, with their uses.
    pub groups: Vec<SongGroup>,
    /// Everyone credited on the songs, each once.
    pub artists: Vec<SimplifiedArtist>,
}

/// The songs of a list of records.
pub open spec fn songs_of(records: Seq<Anisong>) -> Seq<AnisongSong> {
    records.map_values(|r: Anisong| r.song)
}

/// The uses of a list of records.
pub open spec fn binds_of(records: Seq<Anisong>) -> Seq<AnisongBind> {
    records.map_values(|r: Anisong| r.anisong_bind)
}

/// Prepares a batch of records for the catalog. The animes are merged with
/// the entries of the anime graph; the songs are flattened and gathered by
/// name and performers; everyone credited is listed once. The catalog is to
/// store the animes first, then the songs, then the uses with the ids that
/// it allocated to the songs, then the artists.
pub fn plan_ingest(records: Vec<Anisong>, media: Vec<Media>) -> (r: IngestPlan)
    ensures
        r.animes@.len() == records@.len(),
        origins(r.animes@) == ordered_by(animes_of(records@), anime_order()),
        forall|i: int|
            0 <= i < r.animes@.len() ==> (#[trigger] r.animes@[i]).enrichment() == enrichment_for(
                media@,
                r.animes@[i].origin(),
            ),
        artist_views(r.artists@) == distinct(all_credits(songs_of(records@))),
        exists|flat: Seq<SimplifiedAnisongSong>|
            {
                &&& flat.len() == records@.len()
                &&& forall|i: int|
                    0 <= i < flat.len() ==> simplifies(records@[i].song, #[trigger] flat[i])
                &&& group_songs_of(r.groups@) == grouped_songs(flat)
                &&& group_binds_of(r.groups@) == grouped_binds(flat, binds_of(records@))
            },
        forall|i: int, j: int|
            0 <= i < j < r.groups@.len() ==> song_key((#[trigger] r.groups@[i]).song) != song_key(
                (#[trigger] r.groups@[j]).song,
            ),
{
    let ghost input = records@;
    let mut animes: Vec<AnisongAnime> = Vec::new();
    let mut songs: Vec<AnisongSong> = Vec::new();
    let mut binds: Vec<AnisongBind> = Vec::new();
    for record in it: records
        invariant
            it.seq() == input,
            animes@ == animes_of(input.take(it.index())),
            songs@ == songs_of(input.take(it.index())),
            binds@ == binds_of(input.take(it.index())),
    {
        proof {
            assert(input.take(it.index() + 1) == input.take(it.index()).push(record));
        }
        animes.push(record.anime);
        songs.push(record.song);
        binds.push(record.anisong_bind);
        proof {
            assert(animes@ =~= animes_of(input.take(it.index() + 1)));
            assert(songs@ =~= songs_of(input.take(it.index() + 1)));
            assert(binds@ =~= binds_of(input.take(it.index() + 1)));
        }
    }
    proof {
        assert(input.take(input.len() as int) == input);
    }
    let (flat, artists) = SimplifiedAnisongSong::decompose_all(songs);
    let ghost flat_songs = flat@;
    let groups = match group_songs(flat, binds) {
        Some(groups) => groups,
        None => Vec::new(),
    };
    let animes = DBAnime::combine(animes, media);
    IngestPlan { animes, groups, artists }
}

/// How often the worker wakes between two refreshes of the current season.
pub const HEARTBEATS_PER_REFRESH: u32 = 24;

/// Counts one heartbeat of the worker. The count comes back with the word
/// whether the season is to be refreshed now: on every 24th heartbeat, after
/// which the count starts over.
pub fn heartbeat(counter: u32) -> (r: (u32, bool))
    ensures
        r.1 == (counter + 1 == HEARTBEATS_PER_REFRESH),
        r.0 == if counter + 1 == HEARTBEATS_PER_REFRESH {
            0
        } else if counter == u32::MAX {
            counter
        } else {
            (counter + 1) as u32
        },
{
    if counter == HEARTBEATS_PER_REFRESH - 1 {
        (0, true)
    } else if counter == u32::MAX {
        (counter, false)
    } else {
        (counter + 1, false)
    }
}

} // verus!
