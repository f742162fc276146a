//! The camera's clock: what a timestamp is, and what is read and set.
use crate::command::{CgiCommand, ResponseModel};
use crate::error::ErrorModel;
use crate::exchange::StepModel;
use crate::json::{same_name, tree_get, JsonTree};
use crate::laws::answers::{is_answer, is_integer, lemma_answer};
use crate::laws::device::{is_first_text, lemma_text_is_found};
use crate::reolink::device::TextField;
use crate::reolink::system::{days_in, is_timestamp, leap_year, set_time_step, time_of};
use crate::text::trim;
use vstd::prelude::*;

verus! {

/// A year has a day more every four years, but not in the years that end a century, unless
/// they end four of them.
pub proof fn law_leap_years(year: int)
    ensures
        leap_year(year) <==> year % 4 == 0 && (year % 100 == 0 ==> year % 400 == 0),
        leap_year(year + 400) == leap_year(year),
        leap_year(year) ==> !leap_year(year + 1) && !leap_year(year + 2) && !leap_year(year + 3),
{
}

/// The days of the months, and of the year together.
pub proof fn law_days_of_the_months(year: int)
    ensures
        days_in(year, 1) == 31,
        days_in(year, 2) == if leap_year(year) {
            29int
        } else {
            28int
        },
        days_in(year, 3) == 31,
        days_in(year, 4) == 30,
        days_in(year, 5) == 31,
        days_in(year, 6) == 30,
        days_in(year, 7) == 31,
        days_in(year, 8) == 31,
        days_in(year, 9) == 30,
        days_in(year, 10) == 31,
        days_in(year, 11) == 30,
        days_in(year, 12) == 31,
{
}

/// Two digits of a text, as a number.
pub open spec fn number_at(s: Seq<char>, i: int) -> int {
    10 * (s[i] as int - '0' as int) + (s[i + 1] as int - '0' as int)
}

pub open spec fn digits_at(s: Seq<char>, i: int) -> bool {
    '0' <= s[i] <= '9' && '0' <= s[i + 1] <= '9'
}

/// A text that is laid out as a day and a time of it.
pub open spec fn is_laid_out(s: Seq<char>) -> bool {
    &&& s.len() >= 20
    &&& digits_at(s, 0) && digits_at(s, 2) && s[4] == '-' && digits_at(s, 5) && s[7] == '-'
        && digits_at(s, 8)
    &&& s[10] == 'T'
    &&& digits_at(s, 11) && s[13] == ':' && digits_at(s, 14) && s[16] == ':' && digits_at(s, 17)
}

/// There is such a day and such a time of it.
pub open spec fn exists_in_the_calendar(s: Seq<char>) -> bool {
    let year = 100 * number_at(s, 0) + number_at(s, 2);
    &&& 1 <= number_at(s, 5) <= 12
    &&& 1 <= number_at(s, 8) <= days_in(year, number_at(s, 5))
    &&& number_at(s, 11) <= 23
    &&& number_at(s, 14) <= 59
    &&& number_at(s, 17) <= 60
}

/// In universal time and whole seconds, a text that is laid out so is a timestamp exactly
/// where there is such a moment.
pub proof fn law_timestamps_in_universal_time(s: Seq<char>)
    requires
        is_laid_out(s),
        s.len() == 20,
        s[19] == 'Z',
    ensures
        is_timestamp(s) <==> exists_in_the_calendar(s),
{
    let date = s.take(10);
    let time = s.subrange(11, 19);
    assert(date.len() == 10 && time.len() == 8);
    assert(forall|i: int| 0 <= i < 10 ==> #[trigger] date[i] == s[i]);
    assert(forall|i: int| 0 <= i < 8 ==> #[trigger] time[i] == s[11 + i]);
}

/// With a distance from universal time, it has to be one of less than a day besides.
pub proof fn law_timestamps_with_a_distance(s: Seq<char>)
    requires
        is_laid_out(s),
        s.len() == 25,
        s[19] == '+' || s[19] == '-',
        digits_at(s, 20),
        s[22] == ':',
        digits_at(s, 23),
    ensures
        is_timestamp(s) <==> exists_in_the_calendar(s) && number_at(s, 20) <= 23 && number_at(s, 23)
            <= 59,
{
    let date = s.take(10);
    let time = s.subrange(11, 19);
    let offset = s.subrange(19, 25);
    assert(date.len() == 10 && time.len() == 8 && offset.len() == 6);
    assert(forall|i: int| 0 <= i < 10 ==> #[trigger] date[i] == s[i]);
    assert(forall|i: int| 0 <= i < 8 ==> #[trigger] time[i] == s[11 + i]);
    assert(forall|i: int| 0 <= i < 6 ==> #[trigger] offset[i] == s[19 + i]);
    assert(s.last() == s[24]);
}

/// Every timestamp is laid out as a day, a `T` and a time, and ends with a `Z` or with a
/// distance from universal time.
pub proof fn law_every_timestamp_is_laid_out(s: Seq<char>)
    requires
        is_timestamp(s),
    ensures
        is_laid_out(s),
        exists_in_the_calendar(s),
        s.last() == 'Z' || (s[s.len() - 6] == '+' || s[s.len() - 6] == '-'),
{
    let date = s.take(10);
    assert(forall|i: int| 0 <= i < 10 ==> #[trigger] date[i] == s[i]);
    if s.last() == 'Z' {
        let time = s.subrange(11, s.len() - 1);
        assert(forall|i: int| 0 <= i < time.len() ==> #[trigger] time[i] == s[11 + i]);
        assert(time[0] == s[11] && time[1] == s[12] && time[2] == s[13] && time[3] == s[14]
            && time[4] == s[15] && time[5] == s[16] && time[6] == s[17] && time[7] == s[18]);
    } else {
        let time = s.subrange(11, s.len() - 6);
        let offset = s.subrange(s.len() - 6, s.len() as int);
        assert(offset[0] == s[s.len() - 6]);
        assert(time[0] == s[11] && time[1] == s[12] && time[2] == s[13] && time[3] == s[14]
            && time[4] == s[15] && time[5] == s[16] && time[6] == s[17] && time[7] == s[18]);
    }
}

/// The time that is sent is the text that was given, but for white space around it; once the
/// camera answers with the code zero, that is the time, and any other code is an error.
pub proof fn law_time_is_set_as_given(
    iso8601: Seq<char>,
    raw_json: Seq<char>,
    entry: JsonTree,
    code: i64,
)
    requires
        is_timestamp(trim(iso8601)),
        is_answer(raw_json, "SetTime"@, entry),
        tree_get(entry, "code"@) matches Some(raw) && is_integer(raw, code as int),
    ensures
        set_time_step(iso8601, Seq::empty()) matches StepModel::Send(request) && request.command
            == CgiCommand::SetTime && request.params.payload == Some(trim(iso8601)),
        code == 0 ==> set_time_step(
            iso8601,
            seq![Ok(ResponseModel { command: CgiCommand::SetTime, raw_json })],
        ) == StepModel::Done(Ok::<Seq<char>, ErrorModel>(trim(iso8601))),
        code != 0 ==> (set_time_step(
            iso8601,
            seq![Ok(ResponseModel { command: CgiCommand::SetTime, raw_json })],
        ) matches StepModel::Done(Err(_))),
{
    lemma_answer(entry, CgiCommand::SetTime);
    let reply = Ok::<ResponseModel, ErrorModel>(
        ResponseModel { command: CgiCommand::SetTime, raw_json },
    );
    assert(seq![reply][0] == reply);
}

/// The names under which a camera tells the time.
pub open spec fn is_time_name(name: Seq<char>) -> bool {
    same_name(name, "time"@) || same_name(name, "localTime"@) || same_name(name, "iso8601"@)
        || same_name(name, "dateTime"@) || same_name(name, "timeStr"@) || same_name(
        name,
        "utcTime"@,
    )
}

/// The time is what the camera tells under such a name.
pub proof fn law_time_is_what_the_camera_says(
    raw_json: Seq<char>,
    entry: JsonTree,
    members: Seq<(Seq<char>, JsonTree)>,
    k: int,
    text: Seq<char>,
)
    requires
        is_answer(raw_json, "GetTime"@, entry),
        tree_get(entry, "value"@) == Some(JsonTree::Object(members)),
        is_first_text(members, |name: Seq<char>| is_time_name(name), k, text),
    ensures
        time_of(raw_json) == Ok::<Seq<char>, ErrorModel>(trim(text)),
{
    lemma_answer(entry, CgiCommand::GetTime);
    lemma_text_is_found(
        members,
        TextField::Time,
        |name: Seq<char>| is_time_name(name),
        k,
        text,
    );
}

} // verus!
