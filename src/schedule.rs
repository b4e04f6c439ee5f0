//! A team's schedule and the choice of the game to follow.

use vstd::prelude::*;

use crate::link::Link;
use crate::live::LiveGame;
use crate::requests::{base_text, pairs_view, parsed_text_with, Request, BASE_URL, DEFAULT_API};
use crate::text::{decimal, decimal_string};

verus! {

/// The schedule of a team, by date.
pub struct Schedule {
    pub copyright: String,
    pub total_items: i64,
    pub total_events: i64,
    pub total_games: i64,
    pub total_games_in_progress: i64,
    pub dates: Vec<Date>,
}

/// The games of one date.
pub struct Date {
    pub date: String,
    pub total_items: i64,
    pub total_events: i64,
    pub total_games: i64,
    pub total_games_in_progress: i64,
    pub games: Vec<Game>,
    pub events: Vec<Option<Event>>,
}

/// An event of a date other than a game; nothing of it is read.
#[derive(Clone, Copy, Debug, PartialEq, Eq, Structural)]
pub struct Event {}

/// A scheduled game, with a reference to its live feed.
pub struct Game {
    pub game_pk: i64,
    pub link: Link<LiveGame>,
    pub teams: Teams,
    pub public_facing: bool,
    pub double_header: String,
    pub scheduled_innings: i64,
}

/// The state of a game.
pub struct Status {
    pub abstract_game_state: String,
    pub coded_game_state: String,
    pub detailed_state: String,
    pub status_code: String,
    pub start_time_tbd: bool,
    pub abstract_game_code: String,
}

/// The two teams of a scheduled game.
pub struct Teams {
    pub away: Team,
    pub home: Team,
}

/// One team of a scheduled game.
pub struct Team {
    pub league_record: LeagueRecord,
    pub team: Venue,
    pub split_squad: bool,
    pub series_number: i64,
}

/// A team's record in its league.
pub struct LeagueRecord {
    pub wins: i64,
    pub losses: i64,
    pub pct: String,
}

/// A named place or team, with its id.
pub struct Venue {
    pub id: i64,
    pub name: String,
}

/// Whether the schedule has a game on its first date.
pub open spec fn has_first_game(s: Schedule) -> bool {
    s.dates@.len() > 0 && s.dates@[0].games@.len() > 0
}

/// The first game of the first date; only that one is followed.
pub open spec fn first_game_of(s: Schedule) -> Game {
    s.dates@[0].games@[0]
}

impl Schedule {
    /// The first game of the first date, where there is one. Later games of
    /// that date and later dates are not considered.
    pub fn first_game(&self) -> (r: Option<&Game>)
        ensures
            r is Some == has_first_game(*self),
            r is Some ==> *r->Some_0 == first_game_of(*self),
    {
        if self.dates.len() == 0 {
            return None;
        }
        let date = &self.dates[0];
        if date.games.len() == 0 {
            return None;
        }
        Some(&date.games[0])
    }
}

/// The request for the schedule of the team with this id: the `schedule`
/// endpoint of the default API, with `sportId=1` and `teamId=<id>`.
pub fn schedule_request(team_id: i64) -> (r: Request)
    ensures
        r.base_url@ == BASE_URL@,
        r.api@ == DEFAULT_API@,
        r.endpoint@ == "schedule"@,
        r.params@.len() == 2,
        r.params@[0].0@ == "sportId"@,
        r.params@[0].1@ == "1"@,
        r.params@[1].0@ == "teamId"@,
        r.params@[1].1@ == decimal(team_id as int),
        r.parsed_address() == parsed_text_with(
            base_text(BASE_URL@, DEFAULT_API@, "schedule"@),
            seq![("sportId"@, "1"@), ("teamId"@, decimal(team_id as int))],
        ),
{
    let id = decimal_string(team_id);
    let r = Request::new().with_endpoint("schedule").with_params(
        vec![("sportId", "1"), ("teamId", id.as_str())],
    );
    proof {
        assert(pairs_view(r.params@) =~= seq![("sportId"@, "1"@), ("teamId"@, decimal(team_id as int))]);
    }
    r
}

/// The request for the live feed of the first game of a schedule; none
/// where the schedule has no game on its first date.
pub fn game_request(schedule: &Schedule) -> (r: Option<Request>)
    ensures
        r is Some == has_first_game(*schedule),
        r is Some ==> {
            &&& r->Some_0.base_url@ == BASE_URL@
            &&& r->Some_0.api@ == Seq::<char>::empty()
            &&& r->Some_0.endpoint@ == first_game_of(*schedule).link.locator()
            &&& r->Some_0.params@.len() == 0
        },
{
    match schedule.first_game() {
        Some(game) => Some(game.link.request()),
        None => None,
    }
}

}
