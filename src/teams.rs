//! The team directory and the choice of teams to follow.

use vstd::prelude::*;

use crate::text::{contains_part, contains_text, same_text};

verus! {

/// The directory of teams known to the service.
pub struct Teams {
    pub copyright: String,
    pub teams: Vec<Team>,
}

/// One team of the directory.
pub struct Team {
    pub id: i64,
    pub name: String,
    pub league: League,
    pub team_name: String,
    pub short_name: String,
    pub abbreviation: Option<String>,
}

/// The league a team plays in.
pub struct League {
    pub id: Option<i64>,
    pub name: Option<String>,
    pub link: String,
    pub abbreviation: Option<String>,
}

/// What `str::to_lowercase` returns for a text.
pub uninterp spec fn lower_of(s: Seq<char>) -> Seq<char>;

/// Relies on `str::to_lowercase`: the result depends on the characters alone.
#[verifier::external_body]
fn lowercase(s: &str) -> (r: String)
    ensures
        r@ == lower_of(s@),
{
    s.to_lowercase()
}

/// Name that stands for a league without one.
pub const UNKNOWN_LEAGUE: &'static str = "ERROR";

/// The first of the two leagues followed, in lower case.
pub const AMERICAN_LEAGUE: &'static str = "american league";

/// The second of the two leagues followed, in lower case.
pub const NATIONAL_LEAGUE: &'static str = "national league";

/// Whether a lower-cased league name is one of the leagues followed.
pub open spec fn is_followed_league(lowered: Seq<char>) -> bool {
    lowered == AMERICAN_LEAGUE@ || lowered == NATIONAL_LEAGUE@
}

/// The league name of a team, or `UNKNOWN_LEAGUE` where it has none.
pub open spec fn league_name_of(team: Team) -> Seq<char> {
    match team.league.name {
        Some(n) => n@,
        None => UNKNOWN_LEAGUE@,
    }
}

/// Whether a team plays in a followed league.
pub open spec fn in_league(team: Team) -> bool {
    is_followed_league(lower_of(league_name_of(team)))
}

/// Whether a team is chosen: it plays in a followed league and, where a
/// name is asked for, its lower-cased team name contains that name.
pub open spec fn team_selected(team: Team, wanted: Option<Seq<char>>) -> bool {
    in_league(team) && match wanted {
        Some(w) => contains_part(lower_of(team.team_name@), w),
        None => true,
    }
}

/// Whether a lower-cased league name is one of the leagues followed.
pub fn followed_league(lowered: &str) -> (r: bool)
    ensures
        r == is_followed_league(lowered@),
{
    same_text(lowered, AMERICAN_LEAGUE) || same_text(lowered, NATIONAL_LEAGUE)
}

/// Whether a team plays in the American or the National League, whatever
/// the case of its league's name.
pub fn is_in_league(team: &Team) -> (r: bool)
    ensures
        r == in_league(*team),
{
    let lowered = match &team.league.name {
        Some(n) => lowercase(n.as_str()),
        None => lowercase(UNKNOWN_LEAGUE),
    };
    followed_league(lowered.as_str())
}

/// The view of an optional name.
pub open spec fn wanted_view(wanted: Option<&str>) -> Option<Seq<char>> {
    match wanted {
        Some(w) => Some(w@),
        None => None,
    }
}

/// Whether a team is chosen for `wanted`: see `team_selected`.
pub fn team_matches(team: &Team, wanted: Option<&str>) -> (r: bool)
    ensures
        r == team_selected(*team, wanted_view(wanted)),
{
    match wanted {
        Some(w) => {
            let lowered = lowercase(team.team_name.as_str());
            contains_text(lowered.as_str(), w) && is_in_league(team)
        },
        None => is_in_league(team),
    }
}

/// The teams chosen for `wanted`, in the order of the directory.
pub open spec fn selected(teams: Seq<Team>, wanted: Option<Seq<char>>) -> Seq<Team>
    decreases teams.len(),
{
    if teams.len() == 0 {
        Seq::empty()
    } else {
        let front = selected(teams.drop_last(), wanted);
        if team_selected(teams.last(), wanted) {
            front.push(teams.last())
        } else {
            front
        }
    }
}

/// Keeps, in order, the teams chosen for `wanted`; the others are dropped.
pub fn select_teams(teams: Vec<Team>, wanted: Option<&str>) -> (r: Vec<Team>)
    ensures
        r@ == selected(teams@, wanted_view(wanted)),
{
    let ghost all = teams@;
    let total = teams.len();
    let mut rest = teams;
    let mut out: Vec<Team> = Vec::new();
    let mut k: usize = 0;
    while rest.len() > 0
        invariant
            k <= all.len(),
            total == all.len(),
            rest@ == all.skip(k as int),
            out@ == selected(all.take(k as int), wanted_view(wanted)),
        decreases rest@.len(),
    {
        let t = rest.remove(0);
        proof {
            assert(all.take(k + 1).drop_last() =~= all.take(k as int));
            assert(all.take(k + 1).last() == t);
            assert(rest@ =~= all.skip(k + 1));
        }
        if team_matches(&t, wanted) {
            out.push(t);
        }
        k = k + 1;
    }
    proof {
        assert(all.take(k as int) =~= all);
    }
    out
}

}
