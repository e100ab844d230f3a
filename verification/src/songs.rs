//! Songs and artists of the catalog, and how the nested records of the song
//! database are flattened into them.

use std::collections::HashSet;
use vstd::prelude::*;
use crate::anilist::duplicate_texts;
use crate::anisong::{AnisongSong, Artist, RelatedArtist, SongCategory};
use crate::ids::{AnisongArtistID, Fraction, SongID};

verus! {

/// An artist of the catalog. Groups and members are held as ids only, one
/// level deep.
#[derive(Debug, Clone)]
pub struct SimplifiedArtist {
    pub names: Vec<String>,
    pub id: AnisongArtistID,
    pub line_up_id: Option<i32>,
    pub group_ids: Vec<AnisongArtistID>,
    pub member_ids: Vec<AnisongArtistID>,
}

/// An artist of the catalog with every list as the sequence of its items.
pub struct ArtistView {
    pub names: Seq<String>,
    pub id: AnisongArtistID,
    pub line_up_id: Option<i32>,
    pub group_ids: Seq<AnisongArtistID>,
    pub member_ids: Seq<AnisongArtistID>,
}

impl View for SimplifiedArtist {
    type V = ArtistView;

    open spec fn view(&self) -> ArtistView {
        ArtistView {
            names: self.names@,
            id: self.id,
            line_up_id: self.line_up_id,
            group_ids: self.group_ids@,
            member_ids: self.member_ids@,
        }
    }
}

/// The views of a list of artists.
pub open spec fn artist_views(artists: Seq<SimplifiedArtist>) -> Seq<ArtistView> {
    artists.map_values(|a: SimplifiedArtist| a@)
}

/// A copy of a list of artist ids, in the same order.
pub fn duplicate_ids(v: &Vec<AnisongArtistID>) -> (r: Vec<AnisongArtistID>)
    ensures
        r@ == v@,
{
    let mut r: Vec<AnisongArtistID> = Vec::new();
    let mut i: usize = 0;
    while i < v.len()
        invariant
            i <= v.len(),
            r@ == v@.take(i as int),
        decreases v.len() - i,
    {
        r.push(v[i]);
        proof {
            assert(v@.take(i as int + 1) == v@.take(i as int).push(v@[i as int]));
        }
        i += 1;
    }
    proof {
        assert(v@.take(v.len() as int) == v@);
    }
    r
}

impl SimplifiedArtist {
    /// A copy of the artist: the same names, ids and line-up.
    pub fn duplicate(&self) -> (r: SimplifiedArtist)
        ensures
            r@ == self@,
    {
        SimplifiedArtist {
            names: duplicate_texts(&self.names),
            id: self.id,
            line_up_id: self.line_up_id,
            group_ids: duplicate_ids(&self.group_ids),
            member_ids: duplicate_ids(&self.member_ids),
        }
    }
}

/// A copy of a list of artists, in the same order.
pub fn duplicate_artists(v: &Vec<SimplifiedArtist>) -> (r: Vec<SimplifiedArtist>)
    ensures
        artist_views(r@) == artist_views(v@),
{
    let mut r: Vec<SimplifiedArtist> = Vec::new();
    let mut i: usize = 0;
    while i < v.len()
        invariant
            i <= v.len(),
            artist_views(r@) == artist_views(v@.take(i as int)),
        decreases v.len() - i,
    {
        let ghost held = artist_views(r@);
        r.push(v[i].duplicate());
        proof {
            assert(v@.take(i as int + 1) == v@.take(i as int).push(v@[i as int]));
            assert(artist_views(r@) =~= held.push(v@[i as int]@));
            assert(artist_views(v@.take(i as int + 1)) =~= held.push(v@[i as int]@));
        }
        i += 1;
    }
    proof {
        assert(v@.take(v.len() as int) == v@);
    }
    r
}

/// A song of the catalog. The id is allocated when the song is stored; a
/// song that was never stored has none.
#[derive(Debug, Clone)]
pub struct SimplifiedAnisongSong {
    pub id: Option<SongID>,
    pub name: String,
    pub artist_name: String,
    pub composer_name: String,
    pub arranger_name: String,
    pub category: SongCategory,
    pub length: Option<Fraction>,
    pub is_dub: bool,
    pub hq: Option<String>,
    pub mq: Option<String>,
    pub audio: Option<String>,
    pub artists: Vec<SimplifiedArtist>,
    pub composers: Vec<SimplifiedArtist>,
    pub arrangers: Vec<SimplifiedArtist>,
}

/// The ids of a list of embedded artists.
pub open spec fn related_ids(related: Seq<RelatedArtist>) -> Seq<AnisongArtistID> {
    related.map_values(|g: RelatedArtist| g.id)
}

/// The catalog's form of an artist of the song database: groups and members
/// reduced to their ids.
pub open spec fn simplified(artist: Artist) -> ArtistView {
    ArtistView {
        names: artist.names@,
        id: artist.id,
        line_up_id: artist.line_up_id,
        group_ids: related_ids(artist.groups@),
        member_ids: related_ids(artist.members@),
    }
}

/// The catalog's form of each artist of a list.
pub open spec fn simplified_all(artists: Seq<Artist>) -> Seq<ArtistView> {
    artists.map_values(|a: Artist| simplified(a))
}

/// Everyone credited on a song: performers, then composers, then arrangers.
pub open spec fn credits(song: AnisongSong) -> Seq<ArtistView> {
    simplified_all(song.artists@) + simplified_all(song.composers@) + simplified_all(
        song.arrangers@,
    )
}

/// Everyone credited on the songs of a list, song by song.
pub open spec fn all_credits(songs: Seq<AnisongSong>) -> Seq<ArtistView>
    decreases songs.len(),
{
    if songs.len() == 0 {
        Seq::empty()
    } else {
        all_credits(songs.drop_last()) + credits(songs.last())
    }
}

/// The ids that occur in a list of artists.
pub open spec fn ids_of(artists: Seq<ArtistView>) -> Set<i32> {
    Set::new(|id: i32| exists|j: int| 0 <= j < artists.len() && (#[trigger] artists[j]).id.0 == id)
}

/// The artists of a list whose id is neither in `seen` nor carried by an
/// earlier artist of the list, in their order.
pub open spec fn fresh(seen: Set<i32>, artists: Seq<ArtistView>) -> Seq<ArtistView>
    decreases artists.len(),
{
    if artists.len() == 0 {
        Seq::empty()
    } else {
        let head = fresh(seen, artists.drop_last());
        let last = artists.last();
        if seen.contains(last.id.0) || ids_of(artists.drop_last()).contains(last.id.0) {
            head
        } else {
            head.push(last)
        }
    }
}

/// The artists of a list without repetition: of the artists with one id the
/// first stays.
pub open spec fn distinct(artists: Seq<ArtistView>) -> Seq<ArtistView> {
    fresh(Set::empty(), artists)
}

/// The ids of a list that grows by one artist.
pub proof fn lemma_ids_push(artists: Seq<ArtistView>, next: ArtistView)
    ensures
        ids_of(artists.push(next)) == ids_of(artists).insert(next.id.0),
{
    let grown = artists.push(next);
    assert forall|id: i32| ids_of(grown).contains(id) <==> ids_of(artists).insert(
        next.id.0,
    ).contains(id) by {
        if ids_of(grown).contains(id) {
            let j = choose|j: int| 0 <= j < grown.len() && (#[trigger] grown[j]).id.0 == id;
            if j < artists.len() {
                assert(artists[j].id.0 == id);
            }
        }
        if ids_of(artists).contains(id) {
            let j = choose|j: int| 0 <= j < artists.len() && (#[trigger] artists[j]).id.0 == id;
            assert(grown[j].id.0 == id);
        }
        if id == next.id.0 {
            assert(grown[artists.len() as int].id.0 == id);
        }
    }
    assert(ids_of(grown) =~= ids_of(artists).insert(next.id.0));
}

/// The fresh artists of two lists in a row: those of the first list, then
/// those of the second that the first did not already bring.
pub proof fn lemma_fresh_append(seen: Set<i32>, a: Seq<ArtistView>, b: Seq<ArtistView>)
    ensures
        fresh(seen, a + b) == fresh(seen, a) + fresh(seen + ids_of(a), b),
        ids_of(a + b) == ids_of(a) + ids_of(b),
    decreases b.len(),
{
    if b.len() == 0 {
        assert(a + b == a);
        assert(ids_of(b) =~= Set::<i32>::empty());
        assert(ids_of(a) + ids_of(b) =~= ids_of(a));
        assert(fresh(seen, a) + Seq::<ArtistView>::empty() == fresh(seen, a));
    } else {
        let init = b.drop_last();
        let last = b.last();
        lemma_fresh_append(seen, a, init);
        assert((a + b).drop_last() == a + init);
        assert((a + b).last() == last);
        assert(b == init.push(last));
        assert(a + b == (a + init).push(last));
        lemma_ids_push(a + init, last);
        lemma_ids_push(init, last);
        assert(ids_of(a + b) =~= ids_of(a) + ids_of(b));
        let known = seen + ids_of(a);
        assert((seen.contains(last.id.0) || ids_of(a + init).contains(last.id.0)) == (
        known.contains(last.id.0) || ids_of(init).contains(last.id.0)));
        if known.contains(last.id.0) || ids_of(init).contains(last.id.0) {
        } else {
            assert(fresh(seen, a) + fresh(known, init).push(last) == (fresh(seen, a) + fresh(
                known,
                init,
            )).push(last));
        }
    }
}

fn ids_of_related(related: &Vec<RelatedArtist>) -> (r: Vec<AnisongArtistID>)
    ensures
        r@ == related_ids(related@),
{
    let mut r: Vec<AnisongArtistID> = Vec::new();
    let mut i: usize = 0;
    while i < related.len()
        invariant
            i <= related.len(),
            r@ == related_ids(related@.take(i as int)),
        decreases related.len() - i,
    {
        r.push(related[i].id);
        proof {
            assert(related@.take(i as int + 1) == related@.take(i as int).push(related@[i as int]));
            assert(r@ =~= related_ids(related@.take(i as int + 1)));
        }
        i += 1;
    }
    proof {
        assert(related@.take(related.len() as int) == related@);
    }
    r
}

fn simplify(artist: Artist) -> (r: SimplifiedArtist)
    ensures
        r@ == simplified(artist),
{
    let group_ids = ids_of_related(&artist.groups);
    let member_ids = ids_of_related(&artist.members);
    SimplifiedArtist {
        names: artist.names,
        id: artist.id,
        line_up_id: artist.line_up_id,
        group_ids,
        member_ids,
    }
}

/// Flattens the artists credited in one role. Each goes to the role's list;
/// one whose id was not seen before also goes to the list of new artists.
fn absorb(
    credited: Vec<Artist>,
    seen: &mut HashSet<i32>,
    artists: &mut Vec<SimplifiedArtist>,
) -> (list: Vec<SimplifiedArtist>)
    ensures
        artist_views(list@) == simplified_all(credited@),
        artist_views(final(artists)@) == artist_views(old(artists)@) + fresh(
            old(seen)@,
            simplified_all(credited@),
        ),
        final(seen)@ == old(seen)@ + ids_of(simplified_all(credited@)),
{
    broadcast use vstd::std_specs::hash::group_hash_axioms;

    let ghost input = credited@;
    let ghost all = simplified_all(input);
    let ghost before = artist_views(artists@);
    let ghost known = seen@;
    let mut list: Vec<SimplifiedArtist> = Vec::new();
    proof {
        assert(ids_of(all.take(0)) =~= Set::<i32>::empty());
        assert(seen@ =~= known + ids_of(all.take(0)));
        assert(artist_views(artists@) =~= before + fresh(known, all.take(0)));
        assert(artist_views(list@) =~= all.take(0));
    }
    for artist in it: credited
        invariant
            it.seq() == input,
            all == simplified_all(input),
            artist_views(list@) == all.take(it.index()),
            artist_views(artists@) == before + fresh(known, all.take(it.index())),
            seen@ == known + ids_of(all.take(it.index())),
    {
        let ghost done = all.take(it.index());
        let ghost next = all.take(it.index() + 1);
        let s = simplify(artist);
        proof {
            assert(next.drop_last() == done);
            assert(next.last() == s@);
            assert(next == done.push(s@));
            lemma_ids_push(done, s@);
        }
        let is_new = seen.insert(s.id.0);
        if is_new {
            let copy = s.duplicate();
            let ghost held = artist_views(artists@);
            artists.push(copy);
            proof {
                assert(artist_views(artists@) =~= held.push(s@));
                assert(before + fresh(known, done).push(s@) == (before + fresh(known, done)).push(
                    s@,
                ));
            }
        }
        let ghost listed = artist_views(list@);
        list.push(s);
        proof {
            assert(artist_views(list@) =~= listed.push(s@));
            assert(seen@ =~= known + ids_of(next));
        }
    }
    proof {
        assert(all.take(all.len() as int) == all);
    }
    list
}

/// Whether `song` is the catalog's form of the song `anisong` of the song
/// database: the same texts and numbers, no id yet, and in each role the
/// catalog's form of the credited artists.
pub open spec fn simplifies(anisong: AnisongSong, song: SimplifiedAnisongSong) -> bool {
    &&& song.id is None
    &&& song.name == anisong.name
    &&& song.artist_name == anisong.artist_name
    &&& song.composer_name == anisong.composer_name
    &&& song.arranger_name == anisong.arranger_name
    &&& song.category == anisong.category
    &&& song.length == anisong.length
    &&& song.is_dub == anisong.is_dub
    &&& song.hq == anisong.hq
    &&& song.mq == anisong.mq
    &&& song.audio == anisong.audio
    &&& artist_views(song.artists@) == simplified_all(anisong.artists@)
    &&& artist_views(song.composers@) == simplified_all(anisong.composers@)
    &&& artist_views(song.arrangers@) == simplified_all(anisong.arrangers@)
}

fn decompose_into(
    anisong: AnisongSong,
    seen: &mut HashSet<i32>,
    artists: &mut Vec<SimplifiedArtist>,
) -> (song: SimplifiedAnisongSong)
    ensures
        simplifies(anisong, song),
        artist_views(final(artists)@) == artist_views(old(artists)@) + fresh(
            old(seen)@,
            credits(anisong),
        ),
        final(seen)@ == old(seen)@ + ids_of(credits(anisong)),
{
    let ghost known = seen@;
    let ghost a = simplified_all(anisong.artists@);
    let ghost b = simplified_all(anisong.composers@);
    let ghost c = simplified_all(anisong.arrangers@);
    let ghost before = artist_views(artists@);
    let performers = absorb(anisong.artists, seen, artists);
    let composers = absorb(anisong.composers, seen, artists);
    let arrangers = absorb(anisong.arrangers, seen, artists);
    proof {
        lemma_fresh_append(known, a, b);
        lemma_fresh_append(known, a + b, c);
        assert(known + ids_of(a) + ids_of(b) =~= known + (ids_of(a) + ids_of(b)));
        assert(before + fresh(known, a) + fresh(known + ids_of(a), b) + fresh(
            known + ids_of(a) + ids_of(b),
            c,
        ) =~= before + (fresh(known, a) + fresh(known + ids_of(a), b) + fresh(
            known + ids_of(a + b),
            c,
        )));
        assert(seen@ =~= known + ids_of(a + b + c));
    }
    SimplifiedAnisongSong {
        id: None,
        name: anisong.name,
        artist_name: anisong.artist_name,
        composer_name: anisong.composer_name,
        arranger_name: anisong.arranger_name,
        category: anisong.category,
        length: anisong.length,
        is_dub: anisong.is_dub,
        hq: anisong.hq,
        mq: anisong.mq,
        audio: anisong.audio,
        artists: performers,
        composers,
        arrangers,
    }
}

impl SimplifiedAnisongSong {
    /// Flattens a song of the song database into the catalog's form, and
    /// lists everyone credited on it once, in the order of first credit.
    pub fn decompose(anisong: AnisongSong) -> (r: (SimplifiedAnisongSong, Vec<SimplifiedArtist>))
        ensures
            simplifies(anisong, r.0),
            artist_views(r.1@) == distinct(credits(anisong)),
    {
        let mut seen: HashSet<i32> = HashSet::new();
        let mut artists: Vec<SimplifiedArtist> = Vec::new();
        let song = decompose_into(anisong, &mut seen, &mut artists);
        proof {
            assert(artist_views(Seq::<SimplifiedArtist>::empty()) =~= Seq::<ArtistView>::empty());
            assert(Seq::<ArtistView>::empty() + distinct(credits(anisong)) =~= distinct(
                credits(anisong),
            ));
        }
        (song, artists)
    }

    /// Flattens a batch of songs, and lists everyone credited on any of them
    /// once, in the order of first credit.
    pub fn decompose_all(anisongs: Vec<AnisongSong>) -> (r: (
        Vec<SimplifiedAnisongSong>,
        Vec<SimplifiedArtist>,
    ))
        ensures
            r.0@.len() == anisongs@.len(),
            forall|i: int| 0 <= i < r.0@.len() ==> simplifies(anisongs@[i], #[trigger] r.0@[i]),
            artist_views(r.1@) == distinct(all_credits(anisongs@)),
    {
        let ghost input = anisongs@;
        let mut seen: HashSet<i32> = HashSet::new();
        let mut artists: Vec<SimplifiedArtist> = Vec::new();
        let mut songs: Vec<SimplifiedAnisongSong> = Vec::new();
        proof {
            assert(artist_views(artists@) =~= distinct(all_credits(input.take(0))));
            assert(seen@ =~= ids_of(all_credits(input.take(0))));
        }
        for anisong in it: anisongs
            invariant
                it.seq() == input,
                songs@.len() == it.index(),
                forall|i: int| 0 <= i < songs@.len() ==> simplifies(input[i], #[trigger] songs@[i]),
                artist_views(artists@) == distinct(all_credits(input.take(it.index()))),
                seen@ == ids_of(all_credits(input.take(it.index()))),
        {
            let ghost done = input.take(it.index());
            let ghost next = input.take(it.index() + 1);
            proof {
                assert(next.drop_last() == done);
                assert(next.last() == anisong);
                lemma_fresh_append(Set::empty(), all_credits(done), credits(anisong));
                assert(Set::<i32>::empty() + ids_of(all_credits(done)) =~= ids_of(all_credits(done)));
            }
            let song = decompose_into(anisong, &mut seen, &mut artists);
            songs.push(song);
        }
        proof {
            assert(input.take(input.len() as int) == input);
        }
        (songs, artists)
    }
}

} // verus!
