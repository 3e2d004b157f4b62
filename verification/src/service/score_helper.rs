use vstd::prelude::*;

use crate::api::match_client::{Match, Score, ScoreDetail};

verus! {

/// The score that a match is judged by: the score after regular time where
/// the feed gives one (a knockout decided in extra time or on penalties),
/// else the full-time score.
pub open spec fn decisive_score(score: Score) -> ScoreDetail {
    match score.regularTime {
        Some(regular) => regular,
        None => score.fullTime,
    }
}

/// `after` is `before` with its home and away score taken from the
/// decisive score; every other field is kept.
pub open spec fn scored(before: Match, after: Match) -> bool {
    after == (Match {
        homeScore: decisive_score(before.score).home,
        awayScore: decisive_score(before.score).away,
        ..before
    })
}

/// Deriving the scores twice is deriving them once: the second pass
/// changes nothing.
pub proof fn score_derivation_idempotent(before: Seq<Match>, once: Seq<Match>, twice: Seq<Match>)
    requires
        once.len() == before.len(),
        twice.len() == once.len(),
        forall|i: int| 0 <= i < before.len() ==> scored(#[trigger] before[i], once[i]),
        forall|i: int| 0 <= i < once.len() ==> scored(#[trigger] once[i], twice[i]),
    ensures
        twice == once,
{
    assert forall|i: int| 0 <= i < once.len() implies twice[i] == once[i] by {
        assert(scored(before[i], once[i]));
        assert(scored(once[i], twice[i]));
    }
    assert(twice =~= once);
}

/// The derived scores depend on the score block alone: two matches with
/// the same score block get the same home and away score, whatever they held.
pub proof fn derived_scores_depend_on_score_only(a: Match, a_after: Match, b: Match, b_after: Match)
    requires
        a.score == b.score,
        scored(a, a_after),
        scored(b, b_after),
    ensures
        a_after.homeScore == b_after.homeScore,
        a_after.awayScore == b_after.awayScore,
{
}

/// Without a regular-time score, the derived home and away score are the
/// full-time goals, whatever the half-time score holds.
pub proof fn full_time_score_without_regular_time(before: Match, after: Match)
    requires
        scored(before, after),
        before.score.regularTime is None,
    ensures
        after.homeScore == before.score.fullTime.home,
        after.awayScore == before.score.fullTime.away,
{
}

/// With a regular-time score, the derived home and away score are its
/// goals, whatever the full-time and half-time scores hold.
pub proof fn regular_time_score_wins(before: Match, after: Match, regular: ScoreDetail)
    requires
        scored(before, after),
        before.score.regularTime == Some(regular),
    ensures
        after.homeScore == regular.home,
        after.awayScore == regular.away,
{
}

/// Deriving the scores touches no field but the two derived scores.
pub proof fn derivation_keeps_the_feed_fields(before: Match, after: Match)
    requires
        scored(before, after),
    ensures
        after.id == before.id,
        after.utcDate == before.utcDate,
        after.homeTeam == before.homeTeam,
        after.awayTeam == before.awayTeam,
        after.score == before.score,
        after.status == before.status,
{
}

/// Namespace of the score derivation.
pub struct ScoreHelper {}

impl ScoreHelper {
    /// Sets every match's home and away score from its decisive score.
    pub fn set_home_and_away_score(matches: &mut Vec<Match>)
        ensures
            final(matches)@.len() == old(matches)@.len(),
            forall|i: int|
                0 <= i < old(matches)@.len() ==> scored(
                    old(matches)@[i],
                    #[trigger] final(matches)@[i],
                ),
    {
        let n = matches.len();
        for i in 0..n
            invariant
                n == old(matches)@.len(),
                matches@.len() == n,
                forall|j: int| 0 <= j < i ==> scored(#[trigger] old(matches)@[j], matches@[j]),
                forall|j: int| i <= j < n ==> #[trigger] matches@[j] == old(matches)@[j],
        {
            let decisive = match &matches[i].score.regularTime {
                Some(regular) => *regular,
                None => matches[i].score.fullTime,
            };
            matches[i].homeScore = decisive.home;
            matches[i].awayScore = decisive.away;
        }
    }
}

} // verus!
