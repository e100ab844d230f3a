//! Broadcast seasons, and the arithmetic by which the ingestion worker walks
//! through them.

use vstd::prelude::*;
use crate::error::Error;
use crate::strings::str_eq;

verus! {

/// One of the four broadcast seasons of a year.
#[derive(Debug, Clone, Copy, PartialEq, Eq, Structural)]
pub enum ReleaseSeason {
    Winter,
    Spring,
    Summer,
    Fall,
}

impl ReleaseSeason {
    /// The name under which the catalog stores the value.
    pub open spec fn stored_name(self) -> Seq<char> {
        match self {
            ReleaseSeason::Winter => "winter"@,
            ReleaseSeason::Spring => "spring"@,
            ReleaseSeason::Summer => "summer"@,
            ReleaseSeason::Fall => "fall"@,
        }
    }

    /// The value that a stored name stands for.
    pub open spec fn of_stored_name(s: Seq<char>) -> Option<ReleaseSeason> {
        if s == "winter"@ {
            Some(ReleaseSeason::Winter)
        }         else if s == "spring"@ {
            Some(ReleaseSeason::Spring)
        }         else if s == "summer"@ {
            Some(ReleaseSeason::Summer)
        }         else if s == "fall"@ {
            Some(ReleaseSeason::Fall)
        } else {
            None
        }
    }

    /// The name of the catalog's column type for this kind of value.
    pub fn type_info() -> (r: &'static str)
        ensures
            r@ == "release_season"@,
    {
        "release_season"
    }

    /// Gives the name under which the catalog stores the value.
    pub fn encode_by_ref(&self) -> (r: &'static str)
        ensures
            r@ == self.stored_name(),
    {
        match self {
            ReleaseSeason::Winter => "winter",
            ReleaseSeason::Spring => "spring",
            ReleaseSeason::Summer => "summer",
            ReleaseSeason::Fall => "fall",
        }
    }

    /// Reads a stored name; a name that the catalog does not know is an error
    /// that carries the name.
    pub fn decode(s: &str) -> (r: Result<ReleaseSeason, Error>)
        ensures
            r is Ok <==> Self::of_stored_name(s@) is Some,
            r is Ok ==> Some(r->Ok_0) == Self::of_stored_name(s@),
            r is Err ==> r->Err_0.is_parse_error_of(s@),
    {
        if str_eq(s, "winter") {
            Ok(ReleaseSeason::Winter)
        }         else if str_eq(s, "spring") {
            Ok(ReleaseSeason::Spring)
        }         else if str_eq(s, "summer") {
            Ok(ReleaseSeason::Summer)
        }         else if str_eq(s, "fall") {
            Ok(ReleaseSeason::Fall)
        } else {
            Err(Error::ParseError(s.to_owned()))
        }
    }

    /// Reading the stored name of a value gives the value back.
    pub proof fn lemma_stored_name_round_trip(value: ReleaseSeason)
        ensures
            Self::of_stored_name(value.stored_name()) == Some(value),
    {
        reveal_strlit("winter");
        assert("winter"@.len() == 6 && "winter"@[0] == 'w' && "winter"@[1] == 'i' &&
            "winter"@[2] == 'n' && "winter"@[3] == 't' && "winter"@[4] == 'e' &&
            "winter"@[5] == 'r');
        reveal_strlit("spring");
        assert("spring"@.len() == 6 && "spring"@[0] == 's' && "spring"@[1] == 'p' &&
            "spring"@[2] == 'r' && "spring"@[3] == 'i' && "spring"@[4] == 'n' &&
            "spring"@[5] == 'g');
        reveal_strlit("summer");
        assert("summer"@.len() == 6 && "summer"@[0] == 's' && "summer"@[1] == 'u' &&
            "summer"@[2] == 'm' && "summer"@[3] == 'm' && "summer"@[4] == 'e' &&
            "summer"@[5] == 'r');
        reveal_strlit("fall");
        assert("fall"@.len() == 4 && "fall"@[0] == 'f' && "fall"@[1] == 'a' &&
            "fall"@[2] == 'l' && "fall"@[3] == 'l');
    }

    /// The season that has the number `n` in the order of the year.
    pub open spec fn of_number(n: int) -> Option<ReleaseSeason> {
        if n == 0 {
            Some(ReleaseSeason::Winter)
        } else if n == 1 {
            Some(ReleaseSeason::Spring)
        } else if n == 2 {
            Some(ReleaseSeason::Summer)
        } else if n == 3 {
            Some(ReleaseSeason::Fall)
        } else {
            None
        }
    }

    /// The season with the number `value`, counted from 0 for winter; an
    /// error for a number above 3.
    pub fn try_from(value: u32) -> (r: Result<ReleaseSeason, ()>)
        ensures
            r is Ok <==> value <= 3,
            r is Ok ==> Some(r->Ok_0) == Self::of_number(value as int),
    {
        if value == 0 {
            Ok(ReleaseSeason::Winter)
        } else if value == 1 {
            Ok(ReleaseSeason::Spring)
        } else if value == 2 {
            Ok(ReleaseSeason::Summer)
        } else if value == 3 {
            Ok(ReleaseSeason::Fall)
        } else {
            Err(())
        }
    }

    /// The number of the season in the order of the year, from 0 for winter.
    pub open spec fn number(self) -> int {
        match self {
            ReleaseSeason::Winter => 0,
            ReleaseSeason::Spring => 1,
            ReleaseSeason::Summer => 2,
            ReleaseSeason::Fall => 3,
        }
    }

    /// The number of the season in the order of the year, from 0 for winter.
    pub fn index(&self) -> (r: u32)
        ensures
            r == self.number(),
            Self::of_number(r as int) == Some(*self),
    {
        match self {
            ReleaseSeason::Winter => 0,
            ReleaseSeason::Spring => 1,
            ReleaseSeason::Summer => 2,
            ReleaseSeason::Fall => 3,
        }
    }

    /// The number of a season names the season.
    pub proof fn lemma_number_round_trip(value: ReleaseSeason)
        ensures
            Self::of_number(value.number()) == Some(value),
            0 <= value.number() <= 3,
    {
    }

    /// The English name of the season.
    pub open spec fn name(self) -> Seq<char> {
        match self {
            ReleaseSeason::Winter => "Winter"@,
            ReleaseSeason::Spring => "Spring"@,
            ReleaseSeason::Summer => "Summer"@,
            ReleaseSeason::Fall => "Fall"@,
        }
    }

    /// The season that an English name stands for.
    pub open spec fn of_name(s: Seq<char>) -> Option<ReleaseSeason> {
        if s == "Summer"@ {
            Some(ReleaseSeason::Summer)
        } else if s == "Fall"@ {
            Some(ReleaseSeason::Fall)
        } else if s == "Winter"@ {
            Some(ReleaseSeason::Winter)
        } else if s == "Spring"@ {
            Some(ReleaseSeason::Spring)
        } else {
            None
        }
    }

    /// The English name of the season, as the song database writes it.
    pub fn to_string(&self) -> (r: String)
        ensures
            r@ == self.name(),
    {
        match self {
            ReleaseSeason::Winter => "Winter".to_owned(),
            ReleaseSeason::Spring => "Spring".to_owned(),
            ReleaseSeason::Summer => "Summer".to_owned(),
            ReleaseSeason::Fall => "Fall".to_owned(),
        }
    }

    /// Reads the English name of a season; any other text is a parse error
    /// that carries the text.
    pub fn from_str(s: &str) -> (r: Result<ReleaseSeason, Error>)
        ensures
            r is Ok <==> Self::of_name(s@) is Some,
            r is Ok ==> Some(r->Ok_0) == Self::of_name(s@),
            r is Err ==> r->Err_0.is_parse_error_of(s@),
    {
        if str_eq(s, "Summer") {
            Ok(ReleaseSeason::Summer)
        } else if str_eq(s, "Fall") {
            Ok(ReleaseSeason::Fall)
        } else if str_eq(s, "Winter") {
            Ok(ReleaseSeason::Winter)
        } else if str_eq(s, "Spring") {
            Ok(ReleaseSeason::Spring)
        } else {
            Err(Error::ParseError(s.to_owned()))
        }
    }

    /// Reading the English name of a season gives the season back.
    pub proof fn lemma_name_round_trip(value: ReleaseSeason)
        ensures
            Self::of_name(value.name()) == Some(value),
    {
        reveal_strlit("Winter");
        assert("Winter"@.len() == 6 && "Winter"@[0] == 'W' && "Winter"@[1] == 'i' &&
            "Winter"@[2] == 'n' && "Winter"@[3] == 't' && "Winter"@[4] == 'e' &&
            "Winter"@[5] == 'r');
        reveal_strlit("Spring");
        assert("Spring"@.len() == 6 && "Spring"@[0] == 'S' && "Spring"@[1] == 'p' &&
            "Spring"@[2] == 'r' && "Spring"@[3] == 'i' && "Spring"@[4] == 'n' &&
            "Spring"@[5] == 'g');
        reveal_strlit("Summer");
        assert("Summer"@.len() == 6 && "Summer"@[0] == 'S' && "Summer"@[1] == 'u' &&
            "Summer"@[2] == 'm' && "Summer"@[3] == 'm' && "Summer"@[4] == 'e' &&
            "Summer"@[5] == 'r');
        reveal_strlit("Fall");
        assert("Fall"@.len() == 4 && "Fall"@[0] == 'F' && "Fall"@[1] == 'a' &&
            "Fall"@[2] == 'l' && "Fall"@[3] == 'l');
    }
}

/// The season and year in which an anime was first broadcast.
#[derive(Debug, Clone, Copy, PartialEq, Eq)]
pub struct Release {
    pub season: ReleaseSeason,
    pub year: i32,
}

/// The season that the worker refreshes in a given month of the year: the
/// months are taken in blocks of four, January to April as winter, May to
/// August as spring, and September to December as summer.
pub open spec fn season_of_month(month: int) -> Option<ReleaseSeason> {
    if 1 <= month <= 12 {
        ReleaseSeason::of_number((month - 1) / 4)
    } else {
        None
    }
}

/// The season to refresh in the month `month`, counted from 1 for January;
/// `None` for a number that is no month.
pub fn current_season(month: u32) -> (r: Option<ReleaseSeason>)
    ensures
        r == season_of_month(month as int),
        1 <= month <= 12 ==> r is Some && r != Some(ReleaseSeason::Fall),
{
    if month < 1 || month > 12 {
        return None;
    }
    match ReleaseSeason::try_from((month - 1) / 4) {
        Ok(s) => Some(s),
        Err(_) => None,
    }
}

/// The release that follows `release`: the next season of the year, or the
/// winter of the next year after a fall.
pub open spec fn following(release: Release) -> Release {
    if release.season == ReleaseSeason::Fall {
        Release { season: ReleaseSeason::Winter, year: (release.year + 1) as i32 }
    } else {
        Release {
            season: ReleaseSeason::of_number(release.season.number() + 1)->0,
            year: release.year,
        }
    }
}

/// The number of a release when all releases are counted through the years.
pub open spec fn ordinal(release: Release) -> int {
    release.year * 4 + release.season.number()
}

/// Whether `a` lies before `b` in time.
pub open spec fn precedes(a: Release, b: Release) -> bool {
    a.year < b.year || (a.year == b.year && a.season.number() < b.season.number())
}

/// Steps from one release to the one that follows it.
pub fn next_release(release: Release) -> (r: Release)
    requires
        release.season == ReleaseSeason::Fall ==> release.year < i32::MAX,
    ensures
        r == following(release),
        precedes(release, r),
        ordinal(r) == ordinal(release) + 1,
{
    match release.season {
        ReleaseSeason::Winter => Release { season: ReleaseSeason::Spring, year: release.year },
        ReleaseSeason::Spring => Release { season: ReleaseSeason::Summer, year: release.year },
        ReleaseSeason::Summer => Release { season: ReleaseSeason::Fall, year: release.year },
        ReleaseSeason::Fall => Release { season: ReleaseSeason::Winter, year: release.year + 1 },
    }
}

/// The first year of which the song database knows anything.
pub const FIRST_YEAR: i32 = 1951;

/// The season that a choice from 1 to 4 stands for; none for another number.
pub fn season_choice(choice: u32) -> (r: Option<ReleaseSeason>)
    ensures
        r == if 1 <= choice <= 4 {
            ReleaseSeason::of_number(choice - 1)
        } else {
            None
        },
{
    if choice < 1 || choice > 4 {
        return None;
    }
    match ReleaseSeason::try_from(choice - 1) {
        Ok(s) => Some(s),
        Err(_) => None,
    }
}

/// Whether a year can be fetched in the year `current_year`: none before
/// 1951, and none beyond the year after the current one.
pub fn is_valid_year(year: i32, current_year: i32) -> (b: bool)
    ensures
        b == (FIRST_YEAR <= year <= current_year + 1),
{
    FIRST_YEAR <= year && (year <= current_year || (current_year < i32::MAX && year == current_year
        + 1))
}

/// Whether two releases are the same or the first lies before the second.
pub fn not_after(a: Release, b: Release) -> (r: bool)
    ensures
        r == (ordinal(a) <= ordinal(b)),
        r == (a == b || precedes(a, b)),
{
    a.year < b.year || (a.year == b.year && a.season.index() <= b.season.index())
}

/// The releases from `start` to `end`, both included, in the order of time:
/// each is one step after the one before it. `None` where `end` lies before
/// `start`.
pub fn span(start: Release, end: Release) -> (r: Option<Vec<Release>>)
    ensures
        r is None <==> precedes(end, start),
        r is Some ==> {
            &&& r->0@.len() == ordinal(end) - ordinal(start) + 1
            &&& r->0@[0] == start
            &&& r->0@[r->0@.len() - 1] == end
            &&& forall|i: int|
                0 <= i < r->0@.len() ==> ordinal(#[trigger] r->0@[i]) == ordinal(start) + i
        },
{
    if !not_after(start, end) {
        return None;
    }
    let mut releases: Vec<Release> = Vec::new();
    let mut at = start;
    releases.push(at);
    while !(at.year == end.year && at.season.index() == end.season.index())
        invariant
            ordinal(start) <= ordinal(at) <= ordinal(end),
            releases@.len() == ordinal(at) - ordinal(start) + 1,
            releases@[0] == start,
            releases@[releases@.len() - 1] == at,
            forall|i: int|
                0 <= i < releases@.len() ==> ordinal(#[trigger] releases@[i]) == ordinal(start) + i,
        decreases ordinal(end) - ordinal(at),
    {
        at = next_release(at);
        releases.push(at);
    }
    proof {
        ReleaseSeason::lemma_number_round_trip(at.season);
        ReleaseSeason::lemma_number_round_trip(end.season);
    }
    Some(releases)
}

} // verus!
