use macht_api::api::match_client::{Match, Score, ScoreDetail, Team};
use macht_api::service::score_helper::ScoreHelper;

fn team() -> Team {
    Team {
        id: Some(1),
        name: Some("Team".to_string()),
        shortName: None,
        tla: Some("TEA".to_string()),
        flag: None,
    }
}

fn match_with(
    full: (Option<isize>, Option<isize>),
    regular: Option<(Option<isize>, Option<isize>)>,
) -> Match {
    Match {
        id: 1,
        utcDate: "2026-06-11T19:00:00Z".to_string(),
        homeTeam: team(),
        awayTeam: team(),
        score: Score {
            winner: None,
            duration: "REGULAR".to_string(),
            fullTime: ScoreDetail {
                home: full.0,
                away: full.1,
            },
            halfTime: ScoreDetail {
                home: None,
                away: None,
            },
            regularTime: regular.map(|(home, away)| ScoreDetail { home, away }),
        },
        status: "FINISHED".to_string(),
        homeScore: None,
        awayScore: None,
    }
}

#[test]
fn uses_full_time_when_no_regular_time() {
    let mut matches = vec![match_with((Some(2), Some(1)), None)];
    ScoreHelper::set_home_and_away_score(&mut matches);
    assert_eq!(matches[0].homeScore, Some(2));
    assert_eq!(matches[0].awayScore, Some(1));
}

#[test]
fn prefers_regular_time_over_full_time() {
    // Knockout decided in extra time: fullTime includes ET, regularTime is
    // the 90-minute score the app scores against.
    let mut matches = vec![match_with((Some(3), Some(2)), Some((Some(1), Some(1))))];
    ScoreHelper::set_home_and_away_score(&mut matches);
    assert_eq!(matches[0].homeScore, Some(1));
    assert_eq!(matches[0].awayScore, Some(1));
}

#[test]
fn carries_nulls_and_handles_multiple_matches() {
    let mut matches = vec![
        match_with((None, None), None),
        match_with((Some(0), Some(0)), None),
    ];
    ScoreHelper::set_home_and_away_score(&mut matches);
    assert_eq!(matches[0].homeScore, None);
    assert_eq!(matches[0].awayScore, None);
    assert_eq!(matches[1].homeScore, Some(0));
    assert_eq!(matches[1].awayScore, Some(0));
}

#[test]
fn regular_time_with_missing_goals_still_wins_over_full_time() {
    let mut matches = vec![match_with((Some(2), Some(2)), Some((None, Some(1))))];
    ScoreHelper::set_home_and_away_score(&mut matches);
    assert_eq!(matches[0].homeScore, None);
    assert_eq!(matches[0].awayScore, Some(1));
}

#[test]
fn previous_scores_are_overwritten_and_other_fields_kept() {
    let mut m = match_with((Some(4), Some(0)), None);
    m.homeScore = Some(9);
    m.awayScore = Some(9);
    let mut matches = vec![m];
    ScoreHelper::set_home_and_away_score(&mut matches);
    assert_eq!(matches[0].homeScore, Some(4));
    assert_eq!(matches[0].awayScore, Some(0));
    assert_eq!(matches[0].id, 1);
    assert_eq!(matches[0].status, "FINISHED");
    assert_eq!(matches[0].score.fullTime.home, Some(4));
}

#[test]
fn deriving_scores_twice_is_deriving_once() {
    let mut matches = vec![
        match_with((Some(3), Some(2)), Some((Some(1), Some(1)))),
        match_with((Some(2), Some(1)), None),
    ];
    ScoreHelper::set_home_and_away_score(&mut matches);
    let once: Vec<(Option<isize>, Option<isize>)> =
        matches.iter().map(|m| (m.homeScore, m.awayScore)).collect();
    ScoreHelper::set_home_and_away_score(&mut matches);
    let twice: Vec<(Option<isize>, Option<isize>)> =
        matches.iter().map(|m| (m.homeScore, m.awayScore)).collect();
    assert_eq!(once, twice);
    assert_eq!(twice, vec![(Some(1), Some(1)), (Some(2), Some(1))]);
}

#[test]
fn empty_list_stays_empty() {
    let mut matches: Vec<Match> = Vec::new();
    ScoreHelper::set_home_and_away_score(&mut matches);
    assert!(matches.is_empty());
}
