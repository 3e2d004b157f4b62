use vstd::prelude::*;
use vstd::string::*;

use crate::api::text::{field_has_text, has_text, unicode_white_space};
use crate::window::pair_view;

verus! {

/// The upstream answer: the list of matches, absent when the feed carries none.
#[derive(Debug, Clone)]
pub struct ApiResult {
    pub matches: Option<Vec<Match>>,
}

/// One fixture as delivered by the upstream feed, plus the two scores that
/// the importer derives from it (`homeScore`, `awayScore`).
#[allow(non_snake_case)]
#[derive(Debug, Clone)]
pub struct Match {
    pub id: isize,
    pub utcDate: String,
    pub homeTeam: Team,
    pub awayTeam: Team,
    pub score: Score,
    pub status: String,
    pub homeScore: Option<isize>,
    pub awayScore: Option<isize>,
}

/// A team of a fixture; every field may be missing for knockout placeholders.
#[allow(non_snake_case)]
#[derive(Debug, Clone)]
pub struct Team {
    pub id: Option<isize>,
    pub name: Option<String>,
    pub shortName: Option<String>,
    pub tla: Option<String>,
    pub flag: Option<String>,
}

/// The score block of a fixture.
#[allow(non_snake_case)]
#[derive(Debug, Clone)]
pub struct Score {
    pub winner: Option<String>,
    pub duration: String,
    pub fullTime: ScoreDetail,
    pub halfTime: ScoreDetail,
    pub regularTime: Option<ScoreDetail>,
}

/// Goals of both sides at one point of a match.
#[derive(Debug, Clone, Copy)]
pub struct ScoreDetail {
    pub home: Option<isize>,
    pub away: Option<isize>,
}

/// Longest team name or three-letter code (in characters) that is stored.
pub const TEAM_FIELD_MAX_LEN: usize = 255;

/// The text of an optional field, the empty text where it is missing.
pub open spec fn field_text(value: Option<String>) -> Seq<char> {
    match value {
        Some(s) => s@,
        None => Seq::empty(),
    }
}

/// A text cut to at most `TEAM_FIELD_MAX_LEN` characters.
pub open spec fn capped(text: Seq<char>) -> Seq<char> {
    if text.len() <= TEAM_FIELD_MAX_LEN {
        text
    } else {
        text.take(TEAM_FIELD_MAX_LEN as int)
    }
}

/// A team is determined once the feed names it: it has a name or a
/// three-letter code that is not blank.
pub open spec fn determined(team: Team) -> bool {
    has_text(team.name) || has_text(team.tla)
}

/// `after` is `before` with its name and code stored in their normal form:
/// present, and cut to `TEAM_FIELD_MAX_LEN` characters; the other fields kept.
pub open spec fn normalized(before: Team, after: Team) -> bool {
    &&& after.id == before.id
    &&& after.shortName == before.shortName
    &&& after.flag == before.flag
    &&& after.name matches Some(name) && name@ == capped(field_text(before.name))
    &&& after.tla matches Some(tla) && tla@ == capped(field_text(before.tla))
}

/// Seconds since 1970-01-01T00:00:00Z of the instant that an RFC 3339
/// date-time text names, as chrono reads it; `None` where chrono rejects it.
pub uninterp spec fn rfc3339_timestamp(text: Seq<char>) -> Option<i64>;

/// Calls `chrono::DateTime::parse_from_rfc3339` on `text` and, where that
/// succeeds, `DateTime::timestamp` on the parsed value. Claimed of the pair:
/// the outcome depends on the text alone, and is named `rfc3339_timestamp`.
/// Which texts parse, and to which instant, is left unsaid.
#[verifier::external_body]
fn parse_rfc3339_timestamp(text: &str) -> (res: Option<i64>)
    ensures
        res == rfc3339_timestamp(text@),
{
    match chrono::DateTime::parse_from_rfc3339(text) {
        Ok(datetime) => Some(datetime.timestamp()),
        Err(_) => None,
    }
}

/// What the import does with one match.
#[derive(Debug, Clone, Copy, PartialEq, Eq, Structural)]
pub enum ImportStep {
    /// The kick-off time is not a valid RFC 3339 date-time: skipped.
    InvalidDate,
    /// One of the teams is not determined yet: skipped.
    Undetermined,
    /// Stored, with its kick-off at `timestamp` (seconds since the epoch).
    Store { timestamp: i64 },
}

/// The import decision for a match whose kick-off time parsed to `parsed`,
/// and what it does to the match: a stored match gets both teams
/// normalized, a skipped one is left as it was.
pub open spec fn planned(parsed: Option<i64>, before: Match, after: Match, step: ImportStep) -> bool {
    match parsed {
        None => step == ImportStep::InvalidDate && after == before,
        Some(timestamp) => if determined(before.homeTeam) && determined(before.awayTeam) {
            &&& step == (ImportStep::Store { timestamp })
            &&& normalized(before.homeTeam, after.homeTeam)
            &&& normalized(before.awayTeam, after.awayTeam)
            &&& after == (Match { homeTeam: after.homeTeam, awayTeam: after.awayTeam, ..before })
        } else {
            step == ImportStep::Undetermined && after == before
        },
    }
}

/// A match that the import stores is stored again when it is imported
/// once more with the same kick-off time, and is left as it is, provided
/// both its normalized teams are still determined.
pub proof fn stored_match_stores_again(
    parsed: Option<i64>,
    before: Match,
    once: Match,
    twice: Match,
    first: ImportStep,
    second: ImportStep,
)
    requires
        planned(parsed, before, once, first),
        first is Store,
        planned(parsed, once, twice, second),
        determined(once.homeTeam),
        determined(once.awayTeam),
    ensures
        second == first,
        twice == (Match { homeTeam: twice.homeTeam, awayTeam: twice.awayTeam, ..once }),
        field_text(twice.homeTeam.name) == field_text(once.homeTeam.name),
        field_text(twice.homeTeam.tla) == field_text(once.homeTeam.tla),
        field_text(twice.awayTeam.name) == field_text(once.awayTeam.name),
        field_text(twice.awayTeam.tla) == field_text(once.awayTeam.tla),
{
}

/// A kick-off time that parsed, on a match whose two teams each have a
/// name or code with a character that is not white space, is stored at
/// exactly that time, whatever the time is.
pub proof fn parsed_and_determined_is_stored(
    timestamp: i64,
    before: Match,
    after: Match,
    step: ImportStep,
)
    requires
        planned(Some(timestamp), before, after, step),
        (before.homeTeam.name matches Some(n) && exists|i: int|
            0 <= i < n@.len() && !unicode_white_space(#[trigger] n@[i]))
        || (before.homeTeam.tla matches Some(c) && exists|i: int|
            0 <= i < c@.len() && !unicode_white_space(#[trigger] c@[i])),
        (before.awayTeam.name matches Some(n) && exists|i: int|
            0 <= i < n@.len() && !unicode_white_space(#[trigger] n@[i]))
        || (before.awayTeam.tla matches Some(c) && exists|i: int|
            0 <= i < c@.len() && !unicode_white_space(#[trigger] c@[i])),
    ensures
        step == (ImportStep::Store { timestamp }),
{
    determined_by_name_or_code(before.homeTeam);
    determined_by_name_or_code(before.awayTeam);
}

/// Each step tells what decided it: `InvalidDate` only a kick-off time that
/// did not parse, `Store` only a parsed one, at that time, and
/// `Undetermined` only a parsed one with a team that is not determined. A
/// skipped match is left as it was.
pub proof fn step_follows_from_its_cause(
    parsed: Option<i64>,
    before: Match,
    after: Match,
    step: ImportStep,
)
    requires
        planned(parsed, before, after, step),
    ensures
        step == ImportStep::InvalidDate <==> parsed is None,
        step matches ImportStep::Store { timestamp } ==> parsed == Some(timestamp),
        step == ImportStep::Undetermined ==> parsed is Some && !(determined(before.homeTeam)
            && determined(before.awayTeam)),
        !(step is Store) ==> after == before,
{
}

/// The SQL text that stores a match: an update of the row where the
/// match is already stored, an insert otherwise.
pub open spec fn persist_sql(already_exists: bool) -> Seq<char> {
    if already_exists {
        "UPDATE match set homeTeam = ?1, awayTeam = ?2, status = ?3, utcDate = ?4, score = ?5, homeScore = ?6, awayScore = ?7 WHERE id = ?8"@
    } else {
        "INSERT INTO match (id, homeTeam, awayTeam, status, utcDate, score, homeScore, awayScore) VALUES (?1, ?2, ?3, ?4, ?5, ?6, ?7, ?8)"@
    }
}

/// The address of the matches request: the base address, with the
/// inclusive `dateFrom`/`dateTo` filter where a window is given.
pub open spec fn matches_uri_text(base: Seq<char>, window: Option<(Seq<char>, Seq<char>)>) -> Seq<char> {
    match window {
        Some((from, to)) => base + "?dateFrom="@ + from + "&dateTo="@ + to,
        None => base,
    }
}

/// The request address for a window is the base address followed by
/// `?dateFrom=`, the first date, `&dateTo=` and the second date, whatever the
/// dates hold; without a window it is the base address.
pub proof fn uri_carries_the_window(
    base: String,
    window: Option<(String, String)>,
    uri: Seq<char>,
)
    requires
        uri == matches_uri_text(base@, pair_view(window)),
    ensures
        window matches Some((from, to)) ==> uri == base@ + "?dateFrom="@ + from@ + "&dateTo="@
            + to@,
        window is None ==> uri == base@,
        uri.take(base@.len() as int) == base@,
{
}

/// An update of a stored match and an insert of a new one.
pub proof fn persist_sql_texts()
    ensures
        persist_sql(true)
            == "UPDATE match set homeTeam = ?1, awayTeam = ?2, status = ?3, utcDate = ?4, score = ?5, homeScore = ?6, awayScore = ?7 WHERE id = ?8"@,
        persist_sql(false)
            == "INSERT INTO match (id, homeTeam, awayTeam, status, utcDate, score, homeScore, awayScore) VALUES (?1, ?2, ?3, ?4, ?5, ?6, ?7, ?8)"@,
{
}

/// Tally of an import run.
pub struct ImportSummary {
    pub saved: usize,
    pub skipped: usize,
}

impl ImportSummary {
    /// A tally with nothing counted yet.
    pub fn new() -> (res: ImportSummary)
        ensures
            res.saved == 0,
            res.skipped == 0,
    {
        ImportSummary { saved: 0, skipped: 0 }
    }

    /// Counts one more match, as saved or as skipped.
    pub fn record(&mut self, saved: bool)
        requires
            old(self).saved + old(self).skipped < usize::MAX,
        ensures
            final(self).saved == old(self).saved + (if saved { 1int } else { 0int }),
            final(self).skipped == old(self).skipped + (if saved { 0int } else { 1int }),
    {
        if saved {
            self.saved = self.saved + 1;
        } else {
            self.skipped = self.skipped + 1;
        }
    }
}

/// A stored team field holds at most `TEAM_FIELD_MAX_LEN` characters, is
/// the start of the text it came from, equals that text where it was short
/// enough, and storing it once more leaves it as it is.
pub proof fn sanitize_field_laws(value: Option<String>, stored: String)
    requires
        stored@ == capped(field_text(value)),
    ensures
        stored@.len() <= TEAM_FIELD_MAX_LEN,
        stored@ == field_text(value).take(stored@.len() as int),
        field_text(value).len() <= TEAM_FIELD_MAX_LEN ==> stored@ == field_text(value),
        capped(field_text(Some(stored))) == stored@,
{
}

/// Normalizing a team twice is normalizing it once: the second pass keeps
/// every field, the texts of name and code included.
pub proof fn normalize_team_idempotent(team: Team, once: Team, twice: Team)
    requires
        normalized(team, once),
        normalized(once, twice),
    ensures
        twice.id == once.id,
        twice.shortName == once.shortName,
        twice.flag == once.flag,
        field_text(twice.name) == field_text(once.name),
        field_text(twice.tla) == field_text(once.tla),
{
}

/// A team is determined exactly when its name or its code is present and
/// holds a character that is not white space; no other field counts.
pub proof fn determined_by_name_or_code(team: Team)
    ensures
        determined(team) <==> (
        (team.name matches Some(name) && exists|i: int|
            0 <= i < name@.len() && !unicode_white_space(#[trigger] name@[i]))
        || (team.tla matches Some(tla) && exists|i: int|
            0 <= i < tla@.len() && !unicode_white_space(#[trigger] tla@[i]))),
{
}

/// Two teams with the same name and code are both determined or both not,
/// whatever their id, short name and crest.
pub proof fn determined_ignores_other_fields(a: Team, b: Team)
    requires
        a.name == b.name,
        a.tla == b.tla,
    ensures
        determined(a) == determined(b),
{
}

/// A stored field, given the field it came from: empty where the field was
/// missing, the whole text where it has at most `TEAM_FIELD_MAX_LEN`
/// characters, else exactly its first `TEAM_FIELD_MAX_LEN` characters.
pub proof fn stored_field_of(value: Option<String>, stored: Seq<char>)
    requires
        stored == capped(field_text(value)),
    ensures
        value is None ==> stored.len() == 0,
        value matches Some(s) ==> (s@.len() <= TEAM_FIELD_MAX_LEN ==> stored == s@),
        value matches Some(s) ==> (s@.len() > TEAM_FIELD_MAX_LEN ==> stored.len()
            == TEAM_FIELD_MAX_LEN && forall|i: int|
            0 <= i < TEAM_FIELD_MAX_LEN ==> #[trigger] stored[i] == s@[i]),
{
}

/// A normalized team keeps id, short name and crest, and its name and code
/// are present and hold the stored form of the fields they came from.
pub proof fn normalized_team_fields(before: Team, after: Team)
    requires
        normalized(before, after),
    ensures
        after.id == before.id,
        after.shortName == before.shortName,
        after.flag == before.flag,
        after.name is Some,
        after.tla is Some,
        before.name is None ==> after.name->0@.len() == 0,
        before.tla is None ==> after.tla->0@.len() == 0,
        before.name matches Some(s) ==> (s@.len() <= TEAM_FIELD_MAX_LEN ==> after.name->0@ == s@),
        before.tla matches Some(s) ==> (s@.len() <= TEAM_FIELD_MAX_LEN ==> after.tla->0@ == s@),
        before.name matches Some(s) ==> (s@.len() > TEAM_FIELD_MAX_LEN ==> after.name->0@
            == s@.take(TEAM_FIELD_MAX_LEN as int)),
        before.tla matches Some(s) ==> (s@.len() > TEAM_FIELD_MAX_LEN ==> after.tla->0@
            == s@.take(TEAM_FIELD_MAX_LEN as int)),
{
}

/// Namespace of the import operations.
pub struct MatchClient {}

impl MatchClient {
    /// The stored form of an optional team field: missing becomes empty, and
    /// the text is cut to its first `TEAM_FIELD_MAX_LEN` characters.
    pub fn sanitize_field(value: Option<String>) -> (res: String)
        ensures
            res@ == capped(field_text(value)),
    {
        let value = value.unwrap_or_default();
        if value.as_str().unicode_len() <= TEAM_FIELD_MAX_LEN {
            return value;
        }
        value.as_str().substring_char(0, TEAM_FIELD_MAX_LEN).to_string()
    }

    /// Whether the feed has settled which team this is (knockout
    /// placeholders come with every field missing or blank).
    pub fn team_determined(team: &Team) -> (res: bool)
        ensures
            res == determined(*team),
    {
        field_has_text(&team.name) || field_has_text(&team.tla)
    }

    /// Puts the team's name and code in their stored form.
    pub fn normalize_team(team: &mut Team)
        ensures
            normalized(*old(team), *final(team)),
    {
        team.name = Some(Self::sanitize_field(team.name.take()));
        team.tla = Some(Self::sanitize_field(team.tla.take()));
    }

    /// Decides what the import does with a match whose kick-off time parsed
    /// to `parsed` (`None`: it did not parse), and prepares a match to be
    /// stored by normalizing both teams.
    pub fn plan_import(parsed: Option<i64>, single_match: &mut Match) -> (step: ImportStep)
        ensures
            planned(parsed, *old(single_match), *final(single_match), step),
    {
        match parsed {
            None => ImportStep::InvalidDate,
            Some(timestamp) => {
                if !Self::team_determined(&single_match.homeTeam) || !Self::team_determined(
                    &single_match.awayTeam,
                ) {
                    return ImportStep::Undetermined;
                }
                Self::normalize_team(&mut single_match.homeTeam);
                Self::normalize_team(&mut single_match.awayTeam);
                ImportStep::Store { timestamp }
            },
        }
    }

    /// Reads the match's kick-off time and decides what the import does
    /// with it, as `plan_import` does.
    pub fn prepare_import(single_match: &mut Match) -> (step: ImportStep)
        ensures
            planned(
                rfc3339_timestamp(old(single_match).utcDate@),
                *old(single_match),
                *final(single_match),
                step,
            ),
    {
        let parsed = parse_rfc3339_timestamp(single_match.utcDate.as_str());
        Self::plan_import(parsed, single_match)
    }

    /// The SQL statement that stores a match, given whether it is stored already.
    pub fn persist_statement(already_exists: bool) -> (sql: &'static str)
        ensures
            sql@ == persist_sql(already_exists),
    {
        if already_exists {
            "UPDATE match set homeTeam = ?1, awayTeam = ?2, status = ?3, utcDate = ?4, score = ?5, homeScore = ?6, awayScore = ?7 WHERE id = ?8"
        } else {
            "INSERT INTO match (id, homeTeam, awayTeam, status, utcDate, score, homeScore, awayScore) VALUES (?1, ?2, ?3, ?4, ?5, ?6, ?7, ?8)"
        }
    }

    /// The address of the matches request for the base address `base`,
    /// filtered to the inclusive date window where one is given.
    pub fn matches_uri(base: String, window: Option<(String, String)>) -> (uri: String)
        ensures
            uri@ == matches_uri_text(base@, pair_view(window)),
    {
        match window {
            Some((from, to)) => {
                let mut uri = base;
                uri.append("?dateFrom=");
                uri.append(from.as_str());
                uri.append("&dateTo=");
                uri.append(to.as_str());
                uri
            },
            None => base,
        }
    }
}

} // verus!
