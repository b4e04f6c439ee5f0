use mlb::link::Link;
use mlb::live::{
    outcome, GameData, GameDataTeam, GameDataTeams, GameDateTime, LiveData, LiveGame,
    Linescore, LinescoreTeams, OrEmpty, Outcome, Record, TeamLinescore, NO_GAME_TEXT,
};
use mlb::pipeline::sequence_results;
use mlb::requests::{FetchError, Request, BASE_URL, DEFAULT_API};
use mlb::schedule::{
    game_request, schedule_request, Date, Game, LeagueRecord, Schedule, Team as GameTeam, Teams as GameTeams,
    Venue,
};
use mlb::teams::{followed_league, is_in_league, select_teams, team_matches, League, Team};
use mlb::text::{contains_text, decimal_string, same_text};

// 2024-04-01T23:10:00Z
const START: i64 = 1_712_013_000;

fn team(id: i64, team_name: &str, league: Option<&str>) -> Team {
    Team {
        id,
        name: format!("{} club", team_name),
        league: League {
            id: Some(103),
            name: league.map(|l| l.to_string()),
            link: "/api/v1/league/103".to_string(),
            abbreviation: None,
        },
        team_name: team_name.to_string(),
        short_name: team_name.to_string(),
        abbreviation: None,
    }
}

fn game_team(id: i64, abbreviation: &str) -> GameDataTeam {
    GameDataTeam {
        id,
        name: abbreviation.to_string(),
        abbreviation: abbreviation.to_string(),
        team_name: abbreviation.to_string(),
        record: Record { wins: 1, losses: 2 },
    }
}

fn line(runs: i64) -> OrEmpty<TeamLinescore> {
    OrEmpty::Full(TeamLinescore { runs, hits: runs + 4, errors: 1, left_on_base: 6 })
}

fn live_game(
    away: OrEmpty<TeamLinescore>,
    home: OrEmpty<TeamLinescore>,
    inning_state: Option<&str>,
    current_inning: Option<i64>,
) -> LiveGame {
    LiveGame {
        game_pk: 745_000,
        link: "/api/v1.1/game/745000/feed/live".to_string(),
        game_data: GameData {
            teams: GameDataTeams { away: game_team(111, "NYY"), home: game_team(147, "BOS") },
            date_time: GameDateTime { date_time: START },
        },
        live_data: LiveData {
            linescore: Linescore {
                current_inning,
                inning_state: inning_state.map(|s| s.to_string()),
                teams: LinescoreTeams { home, away },
            },
        },
    }
}

fn scheduled_game(link: &str) -> Game {
    let side = |id: i64| GameTeam {
        league_record: LeagueRecord { wins: 3, losses: 4, pct: ".429".to_string() },
        team: Venue { id, name: "club".to_string() },
        split_squad: false,
        series_number: 1,
    };
    Game {
        game_pk: 745_000,
        link: Link::new(link.to_string()),
        teams: GameTeams { away: side(111), home: side(147) },
        public_facing: true,
        double_header: "N".to_string(),
        scheduled_innings: 9,
    }
}

fn schedule(dates: Vec<Vec<Game>>) -> Schedule {
    Schedule {
        copyright: "c".to_string(),
        total_items: 1,
        total_events: 0,
        total_games: 1,
        total_games_in_progress: 0,
        dates: dates
            .into_iter()
            .map(|games| Date {
                date: "2024-04-01".to_string(),
                total_items: 1,
                total_events: 0,
                total_games: games.len() as i64,
                total_games_in_progress: 0,
                games,
                events: vec![],
            })
            .collect(),
    }
}

#[test]
fn decimal_matches_to_string() {
    for n in [0i64, 7, 10, 147, 2024, -5, -100, i64::MAX, i64::MIN] {
        assert_eq!(decimal_string(n), n.to_string());
    }
}

#[test]
fn substring_and_equality() {
    assert!(contains_text("yankees", "yank"));
    assert!(contains_text("yankees", "kees"));
    assert!(contains_text("yankees", ""));
    assert!(!contains_text("yankees", "Yank"));
    assert!(!contains_text("red", "red sox"));
    assert!(same_text("american league", "american league"));
    assert!(!same_text("american league", "american leagu"));
    assert!(!same_text("abc", "abd"));
}

#[test]
fn new_request_uses_default_api() {
    let r = Request::new();
    assert_eq!(r.base_url, BASE_URL);
    assert_eq!(r.api, DEFAULT_API);
    assert_eq!(r.endpoint, "");
    assert!(r.params.is_empty());
    let d = Request::default();
    assert_eq!(d.base_url, "https://statsapi.mlb.com");
    assert_eq!(d.api, "api/v1/");
}

#[test]
fn builders_replace_one_part() {
    let r = Request::new()
        .with_endpoint("teams")
        .with_params(vec![("a", "1"), ("a", "2"), ("b", "x")])
        .with_api("api/v2/");
    assert_eq!(r.endpoint, "teams");
    assert_eq!(r.api, "api/v2/");
    assert_eq!(
        r.params,
        vec![
            ("a".to_string(), "1".to_string()),
            ("a".to_string(), "2".to_string()),
            ("b".to_string(), "x".to_string())
        ]
    );
    assert_eq!(r.base(), "https://statsapi.mlb.com/api/v2/teams");
}

#[test]
fn address_without_params() {
    let address = Request::new().with_endpoint("teams").address().unwrap();
    assert_eq!(address.text, "https://statsapi.mlb.com/api/v1/teams");
    assert_eq!(address.url.as_str(), address.text);
    assert!(address.url.query().is_none());
}

#[test]
fn address_keeps_param_order_and_duplicates() {
    let url = Request::new()
        .with_endpoint("schedule")
        .with_params(vec![("teamId", "1"), ("sportId", "1"), ("teamId", "2")])
        .address()
        .unwrap();
    assert_eq!(url.text, "https://statsapi.mlb.com/api/v1/schedule?teamId=1&sportId=1&teamId=2");
    assert_eq!(url.url.as_str(), url.text);
}

#[test]
fn address_encodes_query_values() {
    let url = Request::new()
        .with_endpoint("search")
        .with_params(vec![("q", "red sox"), ("a&b", "1=2")])
        .address()
        .unwrap();
    assert_eq!(url.text, "https://statsapi.mlb.com/api/v1/search?q=red+sox&a%26b=1%3D2");
}

#[test]
fn malformed_address_is_url_error() {
    let mut r = Request::new().with_endpoint("teams");
    r.base_url = "not a host".to_string();
    assert!(matches!(r.address(), Err(FetchError::Url)));
    let mut r = Request::new().with_params(vec![("sportId", "1")]);
    r.base_url = String::new();
    assert!(matches!(r.address(), Err(FetchError::Url)));
}

#[test]
fn link_request_is_absolute() {
    let link: Link<LiveGame> = Link::new("/api/v1.1/game/745000/feed/live".to_string());
    assert_eq!(link.as_str(), "/api/v1.1/game/745000/feed/live");
    let r = link.request();
    assert_eq!(r.api, "");
    assert!(r.params.is_empty());
    assert_eq!(r.base(), "https://statsapi.mlb.com//api/v1.1/game/745000/feed/live");
}

#[test]
fn schedule_request_for_team() {
    let r = schedule_request(147);
    assert_eq!(r.endpoint, "schedule");
    assert_eq!(
        r.params,
        vec![("sportId".to_string(), "1".to_string()), ("teamId".to_string(), "147".to_string())]
    );
    let url = r.address().unwrap();
    assert_eq!(url.text, "https://statsapi.mlb.com/api/v1/schedule?sportId=1&teamId=147");
    assert_eq!(url.url.as_str(), url.text);
}

#[test]
fn league_membership_ignores_case() {
    assert!(is_in_league(&team(147, "Yankees", Some("American League"))));
    assert!(is_in_league(&team(121, "Mets", Some("NATIONAL LEAGUE"))));
    assert!(!is_in_league(&team(5, "Bisons", Some("International League"))));
    assert!(!is_in_league(&team(6, "Nobody", None)));
    assert!(followed_league("american league"));
    assert!(!followed_league("American League"));
}

#[test]
fn team_name_filter() {
    let yankees = team(147, "Yankees", Some("American League"));
    assert!(team_matches(&yankees, None));
    assert!(team_matches(&yankees, Some("yank")));
    assert!(team_matches(&yankees, Some("")));
    assert!(!team_matches(&yankees, Some("mets")));
    assert!(!team_matches(&yankees, Some("Yank")));
    let minor = team(5, "Yankees", Some("Eastern League"));
    assert!(!team_matches(&minor, Some("yank")));
}

#[test]
fn selection_keeps_order_and_drops_others() {
    let teams = vec![
        team(1, "Orioles", Some("American League")),
        team(2, "Bisons", Some("International League")),
        team(3, "Mets", Some("National League")),
        team(4, "Red Sox", Some("American League")),
        team(5, "Nobody", None),
    ];
    let ids: Vec<i64> = select_teams(teams, None).iter().map(|t| t.id).collect();
    assert_eq!(ids, vec![1, 3, 4]);
    let teams = vec![
        team(1, "Orioles", Some("American League")),
        team(4, "Red Sox", Some("American League")),
        team(7, "White Sox", Some("American League")),
    ];
    let ids: Vec<i64> = select_teams(teams, Some("sox")).iter().map(|t| t.id).collect();
    assert_eq!(ids, vec![4, 7]);
    assert!(select_teams(vec![], Some("sox")).is_empty());
}

#[test]
fn results_return_to_input_order() {
    let done = vec![(2usize, Some("c")), (0, Some("a")), (1, None)];
    assert_eq!(sequence_results(3, done), vec![Some("a"), None, Some("c")]);
    let other = vec![(1usize, None), (2, Some("c")), (0, Some("a"))];
    assert_eq!(sequence_results(3, other), vec![Some("a"), None, Some("c")]);
}

#[test]
fn missing_and_stray_results() {
    let done = vec![(5usize, Some(9)), (1, Some(4))];
    assert_eq!(sequence_results(3, done), vec![None, Some(4), None]);
    assert_eq!(sequence_results::<i32>(0, vec![]), vec![]);
    assert_eq!(sequence_results::<i32>(2, vec![]), vec![None, None]);
}

#[test]
fn box_score_needs_both_full_lines() {
    let empty = || OrEmpty::Empty;
    let full_full = live_game(line(3), line(5), Some("Bottom"), Some(7));
    assert!(full_full.get_score().is_some());
    assert!(live_game(line(3), empty(), Some("Bottom"), Some(7)).get_score().is_none());
    assert!(live_game(empty(), line(5), Some("Bottom"), Some(7)).get_score().is_none());
    assert!(live_game(empty(), empty(), Some("Bottom"), Some(7)).get_score().is_none());
}

#[test]
fn box_score_needs_inning_and_state() {
    assert!(live_game(line(3), line(5), None, Some(7)).get_score().is_none());
    assert!(live_game(line(3), line(5), Some("Top"), None).get_score().is_none());
}

#[test]
fn box_score_rows() {
    let score = live_game(line(3), line(5), Some("Bottom"), Some(7)).get_score().unwrap();
    assert_eq!(score.away.team, "NYY");
    assert_eq!((score.away.runs, score.away.hits, score.away.errors), (3, 7, 1));
    assert_eq!(score.home.team, "BOS");
    assert_eq!((score.home.runs, score.home.hits, score.home.errors), (5, 9, 1));
    assert_eq!(score.inning_state, "Bottom");
    assert_eq!(score.inning, 7);
    assert_eq!(score.inning_text(), "Bottom 7");
}

#[test]
fn team_line_to_row() {
    let l = TeamLinescore { runs: 2, hits: 8, errors: 0, left_on_base: 5 };
    let row = l.make_boxscore("TOR");
    assert_eq!((row.team.as_str(), row.runs, row.hits, row.errors), ("TOR", 2, 8, 0));
}

#[test]
fn current_inning_text() {
    assert_eq!(live_game(line(0), line(0), Some("Top"), Some(12)).current_inning().unwrap(), "Top 12");
    assert_eq!(live_game(OrEmpty::Empty, OrEmpty::Empty, Some("Middle"), Some(1)).current_inning().unwrap(), "Middle 1");
    assert!(live_game(line(0), line(0), None, Some(3)).current_inning().is_none());
    assert!(live_game(line(0), line(0), Some("Top"), None).current_inning().is_none());
}

#[test]
fn start_time_at_fixed_offset() {
    let start = live_game(OrEmpty::Empty, OrEmpty::Empty, None, None).get_start_time().unwrap();
    assert_eq!(start.away, "NYY");
    assert_eq!(start.home, "BOS");
    assert_eq!(start.start_time, START);
    assert_eq!(start.text_at(-4 * 3600).unwrap(), "NYY @ BOS - 07:10 PM");
    assert_eq!(start.text_at(0).unwrap(), "NYY @ BOS - 11:10 PM");
    assert_eq!(start.text_at(2 * 3600).unwrap(), "NYY @ BOS - 01:10 AM");
    assert_eq!(start.text_at(-4 * 3600), start.text_at(-4 * 3600));
    assert_eq!(start.text_at(-11 * 3600).unwrap(), "NYY @ BOS - 12:10 PM");
    assert_eq!(start.text_at(3600 - 10 * 60).unwrap(), "NYY @ BOS - 12:00 AM");
    assert_eq!(start.text_at(86_399).unwrap(), "NYY @ BOS - 11:09 PM");
}

#[test]
fn scenario_game_in_progress() {
    let directory = vec![
        team(147, "Yankees", Some("American League")),
        team(121, "Mets", Some("National League")),
    ];
    let chosen = select_teams(directory, Some("yankees"));
    assert_eq!(chosen.len(), 1);
    assert_eq!(chosen[0].id, 147);
    assert_eq!(schedule_request(chosen[0].id).params[1].1, "147");
    let sched = schedule(vec![vec![scheduled_game("/api/v1.1/game/745000/feed/live")]]);
    let follow = game_request(&sched).unwrap();
    assert_eq!(follow.endpoint, "/api/v1.1/game/745000/feed/live");
    let game = live_game(line(3), line(5), Some("Bottom"), Some(7));
    match outcome(Some(game)) {
        Outcome::Score(score) => {
            assert_eq!(score.away.runs, 3);
            assert_eq!(score.home.runs, 5);
            assert_eq!(score.inning_text(), "Bottom 7");
        }
        _ => panic!("expected a box score"),
    }
}

#[test]
fn scenario_no_game_today() {
    let sched = schedule(vec![]);
    assert!(game_request(&sched).is_none());
    assert!(matches!(outcome(None), Outcome::NoGame));
    assert_eq!(NO_GAME_TEXT, "No game(s) today");
    let sched = schedule(vec![vec![]]);
    assert!(game_request(&sched).is_none());
}

#[test]
fn scenario_game_not_started() {
    let game = live_game(OrEmpty::Empty, OrEmpty::Empty, None, None);
    match outcome(Some(game)) {
        Outcome::Start(start) => assert_eq!(start.text_at(-4 * 3600).unwrap(), "NYY @ BOS - 07:10 PM"),
        _ => panic!("expected a start time"),
    }
}

#[test]
fn only_first_game_of_first_date() {
    let sched = schedule(vec![
        vec![scheduled_game("/first"), scheduled_game("/second")],
        vec![scheduled_game("/third")],
    ]);
    assert_eq!(sched.first_game().unwrap().link.as_str(), "/first");
    assert_eq!(game_request(&sched).unwrap().base(), "https://statsapi.mlb.com//first");
}
