use vstd::prelude::*;

verus! {

/// The calendar date `days` days after 1970-01-01 as chrono writes a
/// `NaiveDate` (`%Y-%m-%d`); `None` where that day lies outside chrono's
/// range of dates.
pub uninterp spec fn epoch_day_text(days: i32) -> Option<Seq<char>>;

/// The views of an optional text.
pub open spec fn text_view(text: Option<String>) -> Option<Seq<char>> {
    match text {
        Some(t) => Some(t@),
        None => None,
    }
}

/// The view of a present text is that text, and of a missing one nothing.
pub proof fn text_view_is_the_text(text: Option<String>)
    ensures
        text matches Some(t) ==> text_view(text) == Some(t@),
        text is None ==> text_view(text) is None,
{
}

/// Calls `chrono::NaiveDate::from_epoch_days` on `days` and, where that
/// gives a date, its `Display` (`to_string`). Claimed of the pair: the
/// outcome depends on `days` alone, and is named `epoch_day_text`. Which
/// days are in range, and how a date is spelled, is left unsaid.
#[verifier::external_body]
fn epoch_day_to_text(days: i32) -> (res: Option<String>)
    ensures
        text_view(res) == epoch_day_text(days),
{
    match chrono::NaiveDate::from_epoch_days(days) {
        Some(date) => Some(date.to_string()),
        None => None,
    }
}

/// The texts of the inclusive window of the incremental import around the
/// day `today` (days since 1970-01-01): the day before and the day after;
/// `None` where one of them is no date chrono can hold.
pub open spec fn window_texts(today: int) -> Option<(Seq<char>, Seq<char>)> {
    if i32::MIN < today && today < i32::MAX {
        match (epoch_day_text((today - 1) as i32), epoch_day_text((today + 1) as i32)) {
            (Some(from), Some(to)) => Some((from, to)),
            _ => None,
        }
    } else {
        None
    }
}

/// The views of an optional pair of texts.
pub open spec fn pair_view(pair: Option<(String, String)>) -> Option<(Seq<char>, Seq<char>)> {
    match pair {
        Some((from, to)) => Some((from@, to@)),
        None => None,
    }
}

/// The window of a day is the text of the day before and the text of the
/// day after, on every day; it is there exactly when both neighbours are
/// days that chrono can write.
pub proof fn window_is_day_before_to_day_after(today: i32, window: Option<(String, String)>)
    requires
        pair_view(window) == window_texts(today as int),
    ensures
        window matches Some((from, to)) ==> i32::MIN < today < i32::MAX && epoch_day_text(
            (today - 1) as i32,
        ) == Some(from@) && epoch_day_text((today + 1) as i32) == Some(to@),
        (i32::MIN < today < i32::MAX && epoch_day_text((today - 1) as i32) is Some
            && epoch_day_text((today + 1) as i32) is Some) ==> window is Some,
        window is None ==> (today == i32::MIN || today == i32::MAX || epoch_day_text(
            (today - 1) as i32,
        ) is None || epoch_day_text((today + 1) as i32) is None),
{
}

/// Inclusive `(dateFrom, dateTo)` window for the per-minute incremental
/// import, around the day `today` (days since 1970-01-01, UTC): it spans the
/// day before to the day after, so that a match still in play across the
/// 00:00 UTC rollover stays inside the queried range and keeps updating to
/// its final score. `None` where the day before or after is out of range.
pub fn incremental_window(today: i32) -> (window: Option<(String, String)>)
    ensures
        pair_view(window) == window_texts(today as int),
{
    if today == i32::MIN || today == i32::MAX {
        return None;
    }
    let from = epoch_day_to_text(today - 1);
    let to = epoch_day_to_text(today + 1);
    match (from, to) {
        (Some(from), Some(to)) => Some((from, to)),
        _ => None,
    }
}

} // verus!
