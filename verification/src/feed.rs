//! Talking to the two feeds: the questions put to the song database, what
//! its answers mean, and the paging of the anime graph.

use vstd::prelude::*;
use crate::anisong::Anisong;
use crate::ids::AnisongArtistID;
use crate::strings::str_eq;

verus! {

/// One filter of a search of the song database.
#[derive(Debug, Clone)]
pub struct SearchFilter {
    pub search: String,
    pub partial_match: bool,
    pub group_granularity: Option<i32>,
    pub max_other_artist: Option<i32>,
    pub arrangement: Option<bool>,
}

/// A search of the song database by names.
#[derive(Debug, Clone)]
pub struct SearchRequest {
    pub anime_search_filter: Option<SearchFilter>,
    pub song_name_search_filter: Option<SearchFilter>,
    pub artist_search_filter: Option<SearchFilter>,
    pub composer_search_filter: Option<SearchFilter>,
    pub and_logic: Option<bool>,
    pub ignore_duplicate: Option<bool>,
    pub opening_filter: Option<bool>,
    pub ending_filter: Option<bool>,
    pub insert_filter: Option<bool>,
    pub normal_broadcast: Option<bool>,
    pub dub: Option<bool>,
    pub rebroadcast: Option<bool>,
    pub standard: Option<bool>,
    pub instrumental: Option<bool>,
    pub chanting: Option<bool>,
    pub character: Option<bool>,
}

/// A search of the song database by artist ids.
#[derive(Debug, Clone)]
pub struct ArtistIDSearchRequest {
    pub artist_ids: Vec<AnisongArtistID>,
    pub group_granularity: i32,
    pub max_other_artist: i32,
    pub ignore_duplicate: bool,
    pub opening_filter: bool,
    pub ending_filter: bool,
    pub insert_filter: bool,
    pub normal_broadcast: bool,
    pub dub: bool,
    pub rebroadcast: bool,
    pub standard: bool,
    pub instrumental: bool,
    pub chanting: bool,
    pub character: bool,
}

impl ArtistIDSearchRequest {
    /// Whether every kind of song and of broadcast is asked for, with
    /// duplicates.
    pub open spec fn is_unfiltered(self) -> bool {
        &&& !self.ignore_duplicate
        &&& self.opening_filter
        &&& self.ending_filter
        &&& self.insert_filter
        &&& self.normal_broadcast
        &&& self.dub
        &&& self.rebroadcast
        &&& self.standard
        &&& self.instrumental
        &&& self.chanting
        &&& self.character
    }

    fn unfiltered(
        artist_ids: Vec<AnisongArtistID>,
        group_granularity: i32,
        max_other_artist: i32,
    ) -> (r: ArtistIDSearchRequest)
        ensures
            r.is_unfiltered(),
            r.artist_ids == artist_ids,
            r.group_granularity == group_granularity,
            r.max_other_artist == max_other_artist,
    {
        ArtistIDSearchRequest {
            artist_ids,
            group_granularity,
            max_other_artist,
            ignore_duplicate: false,
            opening_filter: true,
            ending_filter: true,
            insert_filter: true,
            normal_broadcast: true,
            dub: true,
            rebroadcast: true,
            standard: true,
            instrumental: true,
            chanting: true,
            character: true,
        }
    }

    /// The question for every song that any of the artists had a part in,
    /// alone or with up to 99 others; `None` for no artists, for whom
    /// nothing is asked.
    pub fn any_songs_of(ids: Vec<AnisongArtistID>) -> (r: Option<ArtistIDSearchRequest>)
        ensures
            r is None <==> ids@.len() == 0,
            r is Some ==> r->0.is_unfiltered() && r->0.artist_ids == ids && r->0.group_granularity
                == 0 && r->0.max_other_artist == 99,
    {
        if ids.len() == 0 {
            None
        } else {
            Some(Self::unfiltered(ids, 0, 99))
        }
    }

    /// The question for the songs of exactly these artists together; `None`
    /// for no artists, for whom nothing is asked.
    pub fn songs_of_exactly(ids: Vec<AnisongArtistID>) -> (r: Option<ArtistIDSearchRequest>)
        ensures
            r is None <==> ids@.len() == 0,
            r is Some ==> r->0.is_unfiltered() && r->0.artist_ids == ids && r->0.group_granularity
                == 99 && r->0.max_other_artist == 0,
    {
        if ids.len() == 0 {
            None
        } else {
            Some(Self::unfiltered(ids, 99, 0))
        }
    }
}

impl SearchFilter {
    /// Whether this is the exact filter for the text `s`.
    pub open spec fn is_exact(self, s: Seq<char>) -> bool {
        &&& self.search@ == s
        &&& !self.partial_match
        &&& self.group_granularity == Some(0i32)
        &&& self.max_other_artist == Some(99i32)
        &&& self.arrangement == Some(true)
    }

    /// The filter that matches the text exactly.
    pub fn exact(search: String) -> (r: SearchFilter)
        ensures
            r.is_exact(search@),
            r.search == search,
    {
        SearchFilter {
            search,
            partial_match: false,
            group_granularity: Some(0),
            max_other_artist: Some(99),
            arrangement: Some(true),
        }
    }
}

impl SearchRequest {
    /// Whether every kind of song and of broadcast is asked for, with
    /// duplicates, and one matching filter is enough.
    pub open spec fn is_unfiltered(self) -> bool {
        &&& self.anime_search_filter is None
        &&& self.and_logic == Some(false)
        &&& self.ignore_duplicate == Some(false)
        &&& self.opening_filter == Some(true)
        &&& self.ending_filter == Some(true)
        &&& self.insert_filter == Some(true)
        &&& self.normal_broadcast == Some(true)
        &&& self.dub == Some(true)
        &&& self.rebroadcast == Some(true)
        &&& self.standard == Some(true)
        &&& self.instrumental == Some(true)
        &&& self.chanting == Some(true)
        &&& self.character == Some(true)
    }

    /// Whether this question asks for the song title `title`, if one is
    /// given, and for the artist `artist`, if one is given, as performer or
    /// as composer.
    pub open spec fn asks_for(self, title: Option<Seq<char>>, artist: Option<Seq<char>>) -> bool {
        &&& self.is_unfiltered()
        &&& match title {
            Some(t) => self.song_name_search_filter is Some
                && self.song_name_search_filter->0.is_exact(t),
            None => self.song_name_search_filter is None,
        }
        &&& match artist {
            Some(a) => {
                &&& self.artist_search_filter is Some
                &&& self.artist_search_filter->0.is_exact(a)
                &&& self.composer_search_filter is Some
                &&& self.composer_search_filter->0.is_exact(a)
            },
            None => self.artist_search_filter is None && self.composer_search_filter is None,
        }
    }

    fn asking(title: Option<String>, artist: Option<String>) -> (r: SearchRequest)
        ensures
            r.asks_for(
                match title {
                    Some(t) => Some(t@),
                    None => None,
                },
                match artist {
                    Some(a) => Some(a@),
                    None => None,
                },
            ),
    {
        let song_name_search_filter = match title {
            Some(t) => Some(SearchFilter::exact(t)),
            None => None,
        };
        let (artist_search_filter, composer_search_filter) = match artist {
            Some(a) => (Some(SearchFilter::exact(a.clone())), Some(SearchFilter::exact(a))),
            None => (None, None),
        };
        SearchRequest {
            anime_search_filter: None,
            song_name_search_filter,
            artist_search_filter,
            composer_search_filter,
            and_logic: Some(false),
            ignore_duplicate: Some(false),
            opening_filter: Some(true),
            insert_filter: Some(true),
            ending_filter: Some(true),
            normal_broadcast: Some(true),
            dub: Some(true),
            rebroadcast: Some(true),
            standard: Some(true),
            instrumental: Some(true),
            chanting: Some(true),
            character: Some(true),
        }
    }
}

/// The questions by which a song is looked for by title and artists. The
/// artists are asked for one by one, from the last to the first, and the
/// title goes with the first question only. Without artists the title is
/// asked for alone.
pub fn search_requests(song_title: String, artist_names: Vec<String>) -> (r: Vec<SearchRequest>)
    ensures
        artist_names@.len() == 0 ==> r@.len() == 1 && r@[0].asks_for(Some(song_title@), None),
        artist_names@.len() > 0 ==> r@.len() == artist_names@.len() && forall|i: int|
            0 <= i < r@.len() ==> (#[trigger] r@[i]).asks_for(
                if i == 0 {
                    Some(song_title@)
                } else {
                    None
                },
                Some(artist_names@[artist_names@.len() - 1 - i]@),
            ),
{
    let mut names = artist_names;
    let ghost all = names@;
    let mut requests: Vec<SearchRequest> = Vec::new();
    if names.len() == 0 {
        requests.push(SearchRequest::asking(Some(song_title), None));
        return requests;
    }
    let mut title = Some(song_title);
    while names.len() > 0
        invariant
            all.len() > 0,
            names@ == all.take(names@.len() as int),
            names@.len() <= all.len(),
            requests@.len() == all.len() - names@.len(),
            title is Some <==> requests@.len() == 0,
            title is Some ==> title->0@ == song_title@,
            forall|i: int|
                0 <= i < requests@.len() ==> (#[trigger] requests@[i]).asks_for(
                    if i == 0 {
                        Some(song_title@)
                    } else {
                        None
                    },
                    Some(all[all.len() - 1 - i]@),
                ),
        decreases names@.len(),
    {
        let ghost before = names@;
        let name = names.pop();
        proof {
            assert(names@ == all.take(names@.len() as int));
        }
        let first = title;
        title = None;
        requests.push(SearchRequest::asking(first, name));
    }
    requests
}

/// What the status of an answer of the song database asks for.
#[derive(Debug, Clone, Copy, PartialEq, Eq, Structural)]
pub enum AnswerStatus {
    /// A success: the body holds the records.
    Records,
    /// The song database is out of service for the moment, status 503 or
    /// 500: no records, worth a warning.
    Unavailable,
    /// Any other status: no records, worth an error message.
    Refused,
}

/// Sorts the status of an answer of the song database. Whatever is no
/// success counts as an empty answer.
pub fn answer_status(status: u16) -> (r: AnswerStatus)
    ensures
        r == if 200 <= status < 300 {
            AnswerStatus::Records
        } else if status == 503 || status == 500 {
            AnswerStatus::Unavailable
        } else {
            AnswerStatus::Refused
        },
{
    if 200 <= status && status < 300 {
        AnswerStatus::Records
    } else if status == 503 || status == 500 {
        AnswerStatus::Unavailable
    } else {
        AnswerStatus::Refused
    }
}

/// The test for a record to be of the song with the given title.
pub open spec fn has_title(title: Seq<char>) -> spec_fn(Anisong) -> bool {
    |record: Anisong| record.song.name@ == title
}

/// Keeps the records of the song with exactly the given title.
pub fn with_title(records: Vec<Anisong>, song_title: &str) -> (r: Vec<Anisong>)
    ensures
        r@ == records@.filter(has_title(song_title@)),
{
    let ghost input = records@;
    let mut kept: Vec<Anisong> = Vec::new();
    for record in it: records
        invariant
            it.seq() == input,
            kept@ == input.take(it.index()).filter(has_title(song_title@)),
    {
        proof {
            let done = input.take(it.index());
            assert(input.take(it.index() + 1) == done.push(record));
            done.lemma_filter_push(record, has_title(song_title@));
        }
        if str_eq(record.song.name.as_str(), song_title) {
            kept.push(record);
        }
    }
    proof {
        assert(input.take(input.len() as int) == input);
    }
    kept
}

/// The number of entries that one page of the anime graph holds.
pub const PAGE_SIZE: u32 = 50;

/// The page of the anime graph to ask for after the page `page` has come.
/// There is a next page where the answer was a success and says that more
/// follows; an answer without that word, or a failure, ends the paging.
pub fn next_page(page: u32, success: bool, has_next_page: Option<bool>) -> (r: Option<u32>)
    ensures
        r is Some <==> success && has_next_page == Some(true) && page < u32::MAX,
        r is Some ==> r->0 == page + 1,
{
    if success && page < u32::MAX {
        match has_next_page {
            Some(true) => Some(page + 1),
            _ => None,
        }
    } else {
        None
    }
}

} // verus!
