//! A live game and what is derived from it: the box score, the inning, and
//! the scheduled start in a time zone.

use vstd::prelude::*;

use crate::text::{decimal, decimal_string, digit_text};

verus! {

/// The live feed of one game.
pub struct LiveGame {
    pub game_pk: i64,
    pub link: String,
    pub game_data: GameData,
    pub live_data: LiveData,
}

/// The teams and the scheduled start of a game.
pub struct GameData {
    pub teams: GameDataTeams,
    pub date_time: GameDateTime,
}

/// The scheduled start of a game.
pub struct GameDateTime {
    /// Seconds since the Unix epoch, in UTC.
    pub date_time: i64,
}

/// The two teams of a game.
pub struct GameDataTeams {
    pub away: GameDataTeam,
    pub home: GameDataTeam,
}

/// One team of a game.
pub struct GameDataTeam {
    pub id: i64,
    pub name: String,
    pub abbreviation: String,
    pub team_name: String,
    pub record: Record,
}

/// A win-loss record.
#[derive(Clone, Copy, Debug, PartialEq, Eq, Structural)]
pub struct Record {
    pub wins: i64,
    pub losses: i64,
}

/// The live part of the feed.
pub struct LiveData {
    pub linescore: Linescore,
}

/// The line score: the inning being played and each team's line.
pub struct Linescore {
    pub current_inning: Option<i64>,
    pub inning_state: Option<String>,
    pub teams: LinescoreTeams,
}

/// One team's line: runs, hits, errors and runners left on base.
#[derive(Clone, Copy, Debug, PartialEq, Eq, Structural)]
pub struct TeamLinescore {
    pub runs: i64,
    pub hits: i64,
    pub errors: i64,
    pub left_on_base: i64,
}

/// A value that the service may send as an empty object instead.
#[derive(Clone, Copy, Debug, PartialEq, Eq, Structural)]
pub enum OrEmpty<T> {
    Full(T),
    Empty,
}

/// The lines of the two teams; each is empty until the game has started.
pub struct LinescoreTeams {
    pub home: OrEmpty<TeamLinescore>,
    pub away: OrEmpty<TeamLinescore>,
}

/// The score of a game under way or over.
pub struct BoxScore {
    pub away: TeamBoxScore,
    pub home: TeamBoxScore,
    pub inning_state: String,
    pub inning: i64,
}

/// One row of a box score.
pub struct TeamBoxScore {
    pub team: String,
    pub runs: i64,
    pub hits: i64,
    pub errors: i64,
}

/// The scheduled start of a game that has not begun.
pub struct GameStart {
    pub away: String,
    pub home: String,
    /// Seconds since the Unix epoch, in UTC.
    pub start_time: i64,
}

/// What is shown for a followed team.
pub enum Outcome {
    /// The game is under way or over.
    Score(BoxScore),
    /// The game has not started.
    Start(GameStart),
    /// No game could be found.
    NoGame,
}

/// Text shown when no game could be found for a team.
pub const NO_GAME_TEXT: &'static str = "No game(s) today";

/// Whether `b` is the row of `line` under the name `team`.
pub open spec fn team_box_of(line: TeamLinescore, team: Seq<char>, b: TeamBoxScore) -> bool {
    &&& b.team@ == team
    &&& b.runs == line.runs
    &&& b.hits == line.hits
    &&& b.errors == line.errors
}

/// Whether a box score can be given: both lines are full, and the inning
/// and its state are known.
pub open spec fn score_ready(ls: Linescore) -> bool {
    &&& ls.teams.away is Full
    &&& ls.teams.home is Full
    &&& ls.inning_state is Some
    &&& ls.current_inning is Some
}

/// Whether `b` is the box score of `ls` with these team names.
pub open spec fn box_of(ls: Linescore, away: Seq<char>, home: Seq<char>, b: BoxScore) -> bool {
    &&& team_box_of(ls.teams.away->Full_0, away, b.away)
    &&& team_box_of(ls.teams.home->Full_0, home, b.home)
    &&& b.inning_state@ == ls.inning_state->Some_0@
    &&& b.inning == ls.current_inning->Some_0
}

/// The inning as shown: its state, a space, and its number.
pub open spec fn inning_line(state: Seq<char>, inning: i64) -> Seq<char> {
    state + seq![' '] + decimal(inning as int)
}

/// Whether `b` is the box score of `g`, its teams named by abbreviation.
pub open spec fn score_of(g: LiveGame, b: BoxScore) -> bool {
    box_of(
        g.live_data.linescore,
        g.game_data.teams.away.abbreviation@,
        g.game_data.teams.home.abbreviation@,
        b,
    )
}

/// Whether `s` is the scheduled start of `g`.
pub open spec fn start_of(g: LiveGame, s: GameStart) -> bool {
    &&& s.away@ == g.game_data.teams.away.abbreviation@
    &&& s.home@ == g.game_data.teams.home.abbreviation@
    &&& s.start_time == g.game_data.date_time.date_time
}

/// Bound on the instants, in seconds from the Unix epoch, whose clock time
/// is always given; it lies well inside chrono's range of years.
pub const CLOCK_RANGE: i64 = 8_000_000_000_000;

/// The two-digit text of a number below 100.
pub open spec fn two_digits(n: int) -> Seq<char> {
    digit_text((n / 10) as nat) + digit_text((n % 10) as nat)
}

/// The twelve-hour clock time `hh:mm AM` (or `PM`) of an instant, given in
/// seconds since the Unix epoch, seen at a fixed offset from UTC in seconds.
/// The hour runs from 12 through 11, and both hour and minute take two
/// digits.
pub open spec fn clock_line(utc_seconds: int, offset_seconds: int) -> Seq<char> {
    let local = (utc_seconds + offset_seconds) % 86400;
    let hour = local / 3600;
    let minute = (local % 3600) / 60;
    let hour12 = if hour % 12 == 0 {
        12
    } else {
        hour % 12
    };
    two_digits(hour12) + seq![':'] + two_digits(minute) + seq![' '] + if hour < 12 {
        seq!['A', 'M']
    } else {
        seq!['P', 'M']
    }
}

/// Relies on chrono: `DateTime::from_timestamp` for the instant (none only
/// beyond chrono's range of years), `FixedOffset::east_opt` for the zone, and
/// `format("%I:%M %p")`, which writes the zero-padded twelve-hour hour, the
/// zero-padded minute, and `AM` or `PM`.
#[verifier::external_body]
fn clock_at(utc_seconds: i64, offset_seconds: i32) -> (r: Option<String>)
    requires
        -86400 < offset_seconds < 86400,
    ensures
        -CLOCK_RANGE <= utc_seconds <= CLOCK_RANGE ==> r is Some,
        r is Some ==> r->Some_0@ == clock_line(utc_seconds as int, offset_seconds as int),
{
    let zone = chrono::FixedOffset::east_opt(offset_seconds).unwrap();
    match chrono::DateTime::from_timestamp(utc_seconds, 0) {
        Some(t) => Some(t.with_timezone(&zone).format("%I:%M %p").to_string()),
        None => None,
    }
}

/// The start line `AWAY @ HOME - hh:mm AM` at a fixed offset from UTC.
pub open spec fn start_line(s: GameStart, offset_seconds: int) -> Seq<char> {
    s.away@ + " @ "@ + s.home@ + " - "@ + clock_line(s.start_time as int, offset_seconds)
}

impl TeamLinescore {
    /// The box-score row of this line under the name `team`.
    pub fn make_boxscore(&self, team: &str) -> (r: TeamBoxScore)
        ensures
            team_box_of(*self, team@, r),
    {
        TeamBoxScore { team: String::from_str(team), runs: self.runs, hits: self.hits, errors: self.errors }
    }
}

impl Linescore {
    /// The box score, given only when both lines are full and the inning
    /// and its state are known.
    pub fn make_boxscore(&self, away_name: &str, home_name: &str) -> (r: Option<BoxScore>)
        ensures
            r is Some <==> score_ready(*self),
            r is Some ==> box_of(*self, away_name@, home_name@, r->Some_0),
    {
        match (self.teams.away, self.teams.home) {
            (OrEmpty::Full(away), OrEmpty::Full(home)) => {
                let inning_state = match &self.inning_state {
                    Some(s) => s.clone(),
                    None => return None,
                };
                let inning = match self.current_inning {
                    Some(i) => i,
                    None => return None,
                };
                Some(
                    BoxScore {
                        away: away.make_boxscore(away_name),
                        home: home.make_boxscore(home_name),
                        inning_state,
                        inning,
                    },
                )
            },
            _ => None,
        }
    }
}

/// The inning as shown, `state number`, as in `Bottom 7`.
fn inning_string(state: &str, inning: i64) -> (r: String)
    ensures
        r@ == inning_line(state@, inning),
{
    proof {
        reveal_strlit(" ");
        assert(" "@ =~= seq![' ']);
    }
    let number = decimal_string(inning);
    String::from_str(state).concat(" ").concat(number.as_str())
}

impl BoxScore {
    /// The inning of this score as shown, as in `Bottom 7`.
    pub fn inning_text(&self) -> (r: String)
        ensures
            r@ == inning_line(self.inning_state@, self.inning),
    {
        inning_string(self.inning_state.as_str(), self.inning)
    }
}

impl GameStart {
    /// The start line at a fixed offset from UTC, in seconds; always given
    /// for a start within `CLOCK_RANGE` seconds of the epoch.
    pub fn text_at(&self, offset_seconds: i32) -> (r: Option<String>)
        requires
            -86400 < offset_seconds < 86400,
        ensures
            -CLOCK_RANGE <= self.start_time <= CLOCK_RANGE ==> r is Some,
            r is Some ==> r->Some_0@ == start_line(*self, offset_seconds as int),
    {
        match clock_at(self.start_time, offset_seconds) {
            Some(clock) => {
                let s = self.away.clone().concat(" @ ").concat(self.home.as_str());
                Some(s.concat(" - ").concat(clock.as_str()))
            },
            None => None,
        }
    }
}

impl LiveGame {
    /// The box score of this game, its teams named by abbreviation; none
    /// before the game has started.
    pub fn get_score(&self) -> (r: Option<BoxScore>)
        ensures
            r is Some <==> score_ready(self.live_data.linescore),
            r is Some ==> score_of(*self, r->Some_0),
    {
        let teams = &self.game_data.teams;
        self.live_data.linescore.make_boxscore(teams.away.abbreviation.as_str(), teams.home.abbreviation.as_str())
    }

    /// The inning as shown, as in `Bottom 7`, where it is known.
    pub fn current_inning(&self) -> (r: Option<String>)
        ensures
            r is Some <==> (self.live_data.linescore.inning_state is Some
                && self.live_data.linescore.current_inning is Some),
            r is Some ==> r->Some_0@ == inning_line(
                self.live_data.linescore.inning_state->Some_0@,
                self.live_data.linescore.current_inning->Some_0,
            ),
    {
        let linescore = &self.live_data.linescore;
        match (&linescore.inning_state, linescore.current_inning) {
            (Some(state), Some(inning)) => Some(inning_string(state.as_str(), inning)),
            _ => None,
        }
    }

    /// The scheduled start of this game; always given.
    pub fn get_start_time(&self) -> (r: Option<GameStart>)
        ensures
            r is Some,
            start_of(*self, r->Some_0),
    {
        let teams = &self.game_data.teams;
        Some(
            GameStart {
                away: teams.away.abbreviation.clone(),
                home: teams.home.abbreviation.clone(),
                start_time: self.game_data.date_time.date_time,
            },
        )
    }
}

/// What is shown for a team: the box score where the game has started, else
/// its scheduled start; `NoGame` where no game was found.
pub fn outcome(game: Option<LiveGame>) -> (r: Outcome)
    ensures
        match game {
            None => r is NoGame,
            Some(g) => if score_ready(g.live_data.linescore) {
                r is Score && score_of(g, r->Score_0)
            } else {
                r is Start && start_of(g, r->Start_0)
            },
        },
{
    match game {
        None => Outcome::NoGame,
        Some(g) => match g.get_score() {
            Some(b) => Outcome::Score(b),
            None => match g.get_start_time() {
                Some(s) => Outcome::Start(s),
                None => Outcome::NoGame,
            },
        },
    }
}

}
