//! The clock of the camera.
use crate::command::{
    no_params, payload_params, request_model, CgiCommand, CommandRequest, ResponseModel,
};
use crate::error::{error_model, result_model, AppError, AppResult, ErrorKind, ErrorModel};
use crate::exchange::{reply_models, reply_text, single_step, step_model, CgiReply, Step, StepModel};
use crate::json::{
    or_tree, parse_response_json, payload_or_all, payload_or_whole, response_tree, tree_get,
    tree_int, Json, JsonTree,
};
use crate::model::SystemTime;
use crate::reolink::device::{find_string_by_keys, text_by_keys, TextField};
use crate::text::{
    all_digits, chars_all_digits, dec_i64, dec_int, is_digit, join2, to_chars, trim, trim_text,
};
use vstd::prelude::*;

verus! {

// ---------------------------------------------------------------- timestamps

/// The number of the digit at a position.
pub open spec fn digit_at(s: Seq<char>, i: int) -> int {
    s[i] as int - 48
}

/// The number of two digits.
pub open spec fn two_digits(s: Seq<char>, i: int) -> int {
    digit_at(s, i) * 10 + digit_at(s, i + 1)
}

/// Two digits stand at a position.
pub open spec fn has_two_digits(s: Seq<char>, i: int) -> bool {
    is_digit(s[i]) && is_digit(s[i + 1])
}

pub open spec fn leap_year(year: int) -> bool {
    (year % 4 == 0 && year % 100 != 0) || year % 400 == 0
}

/// How many days a month has.
pub open spec fn days_in(year: int, month: int) -> int {
    if month == 2 {
        if leap_year(year) {
            29
        } else {
            28
        }
    } else if month == 4 || month == 6 || month == 9 || month == 11 {
        30
    } else {
        31
    }
}

/// A day of the calendar, as `YYYY-MM-DD`.
pub open spec fn is_date(s: Seq<char>) -> bool {
    &&& s.len() == 10
    &&& has_two_digits(s, 0) && has_two_digits(s, 2) && s[4] == '-'
    &&& has_two_digits(s, 5) && s[7] == '-' && has_two_digits(s, 8)
    &&& 1 <= two_digits(s, 5) <= 12
    &&& 1 <= two_digits(s, 8) <= days_in(
        two_digits(s, 0) * 100 + two_digits(s, 2),
        two_digits(s, 5),
    )
}

/// A time of day, as `hh:mm:ss`, with a fraction where it has a point.
pub open spec fn is_time(s: Seq<char>) -> bool {
    &&& s.len() >= 8
    &&& has_two_digits(s, 0) && s[2] == ':' && has_two_digits(s, 3) && s[5] == ':'
    &&& has_two_digits(s, 6)
    &&& two_digits(s, 0) <= 23 && two_digits(s, 3) <= 59 && two_digits(s, 6) <= 60
    &&& s.len() > 8 ==> s[8] == '.' && s.len() > 9 && all_digits(s.skip(9))
}

/// A distance from universal time, as `+hh:mm` or `-hh:mm`.
pub open spec fn is_offset(s: Seq<char>) -> bool {
    &&& s.len() == 6
    &&& (s[0] == '+' || s[0] == '-') && has_two_digits(s, 1) && s[3] == ':' && has_two_digits(s, 4)
    &&& two_digits(s, 1) <= 23 && two_digits(s, 4) <= 59
}

/// A day and a time with a `T` between them, and a `Z` or an offset after them.
pub open spec fn is_timestamp(s: Seq<char>) -> bool {
    &&& s.len() > 11
    &&& is_date(s.take(10))
    &&& s[10] == 'T'
    &&& if s.last() == 'Z' {
        is_time(s.subrange(11, s.len() - 1))
    } else {
        s.len() >= 17 && is_time(s.subrange(11, s.len() - 6)) && is_offset(
            s.subrange(s.len() - 6, s.len() as int),
        )
    }
}

fn char_digit(c: char) -> (r: Option<u32>)
    ensures
        match r {
            Some(d) => is_digit(c) && d == c as int - 48 && d <= 9,
            None => !is_digit(c),
        },
{
    if '0' <= c && c <= '9' {
        Some(c as u32 - 48)
    } else {
        None
    }
}

fn parse_two_digits(s: &[char], i: usize) -> (r: Option<u32>)
    requires
        i + 1 < s.len(),
    ensures
        match r {
            Some(n) => has_two_digits(s@, i as int) && n == two_digits(s@, i as int) && n <= 99,
            None => !has_two_digits(s@, i as int),
        },
{
    match (char_digit(s[i]), char_digit(s[i + 1])) {
        (Some(a), Some(b)) => Some(a * 10 + b),
        _ => None,
    }
}

fn is_leap_year(year: u32) -> (r: bool)
    ensures
        r == leap_year(year as int),
{
    (year % 4 == 0 && year % 100 != 0) || year % 400 == 0
}

fn is_valid_date(s: &[char]) -> (r: bool)
    ensures
        r == is_date(s@),
{
    if s.len() != 10 || s[4] != '-' || s[7] != '-' {
        return false;
    }
    let (century, rest) = match (parse_two_digits(s, 0), parse_two_digits(s, 2)) {
        (Some(century), Some(rest)) => (century, rest),
        _ => {
            return false;
        },
    };
    let (month, day) = match (parse_two_digits(s, 5), parse_two_digits(s, 8)) {
        (Some(month), Some(day)) => (month, day),
        _ => {
            return false;
        },
    };
    if month < 1 || month > 12 {
        return false;
    }
    let max_day: u32 = if month == 2 {
        if is_leap_year(century * 100 + rest) {
            29
        } else {
            28
        }
    } else if month == 4 || month == 6 || month == 9 || month == 11 {
        30
    } else {
        31
    };
    1 <= day && day <= max_day
}

fn is_valid_time(s: &[char]) -> (r: bool)
    ensures
        r == is_time(s@),
{
    if s.len() < 8 || s[2] != ':' || s[5] != ':' {
        return false;
    }
    let in_range = match (
        parse_two_digits(s, 0),
        parse_two_digits(s, 3),
        parse_two_digits(s, 6),
    ) {
        (Some(hours), Some(minutes), Some(seconds)) => hours <= 23 && minutes <= 59 && seconds <= 60,
        _ => false,
    };
    if !in_range {
        return false;
    }
    if s.len() == 8 {
        return true;
    }
    if s[8] != '.' || s.len() == 9 {
        return false;
    }
    let fraction = vstd::slice::slice_subrange(s, 9, s.len());
    proof {
        assert(fraction@ =~= s@.skip(9));
    }
    chars_all_digits(fraction)
}

fn is_valid_offset(s: &[char]) -> (r: bool)
    ensures
        r == is_offset(s@),
{
    if s.len() != 6 || !(s[0] == '+' || s[0] == '-') || s[3] != ':' {
        return false;
    }
    match (parse_two_digits(s, 1), parse_two_digits(s, 4)) {
        (Some(hours), Some(minutes)) => hours <= 23 && minutes <= 59,
        _ => false,
    }
}

/// The text is a timestamp.
pub fn is_rfc3339_like_timestamp(value: &str) -> (r: bool)
    ensures
        r == is_timestamp(value@),
{
    let chars = to_chars(value);
    let n: usize = chars.len();
    if n <= 11 || chars[10] != 'T' {
        return false;
    }
    let all = chars.as_slice();
    let date = vstd::slice::slice_subrange(all, 0, 10);
    proof {
        assert(date@ =~= value@.take(10));
    }
    if !is_valid_date(date) {
        return false;
    }
    if chars[n - 1] == 'Z' {
        return is_valid_time(vstd::slice::slice_subrange(all, 11, n - 1));
    }
    n >= 17 && is_valid_time(vstd::slice::slice_subrange(all, 11, n - 6)) && is_valid_offset(
        vstd::slice::slice_subrange(all, n - 6, n),
    )
}

// ---------------------------------------------------------------- reading

/// What a `GetTime` response says.
pub open spec fn time_in(tree: JsonTree) -> Result<Seq<char>, ErrorModel> {
    let payload = payload_or_all(tree, CgiCommand::GetTime);
    match text_by_keys(or_tree(tree_get(payload, "value"@), payload), TextField::Time) {
        Some(text) => Ok(text),
        None => Err(
            error_model(
                ErrorKind::UnexpectedResponse,
                "GetTime response did not include a time string"@,
            ),
        ),
    }
}

pub open spec fn time_of(raw_json: Seq<char>) -> Result<Seq<char>, ErrorModel> {
    match response_tree(CgiCommand::GetTime, raw_json) {
        Ok(tree) => time_in(tree),
        Err(error) => Err(error),
    }
}

/// What a `GetTime` response says.
pub fn time_from_json(parsed: &Json) -> (r: AppResult<SystemTime>)
    ensures
        result_model(r) == time_in(parsed@),
{
    let payload = payload_or_whole(parsed, CgiCommand::GetTime);
    let part = match payload.get("value") {
        Some(value) => value,
        None => payload,
    };
    match find_string_by_keys(part, TextField::Time) {
        Some(iso8601) => Ok(SystemTime { iso8601 }),
        None => Err(
            AppError::new(
                ErrorKind::UnexpectedResponse,
                "GetTime response did not include a time string",
            ),
        ),
    }
}

fn parse_time(raw_json: &str) -> (r: AppResult<SystemTime>)
    ensures
        result_model(r) == time_of(raw_json@),
{
    match parse_response_json(raw_json, CgiCommand::GetTime) {
        Ok(parsed) => time_from_json(&parsed),
        Err(error) => Err(error),
    }
}

/// The time on the camera's clock.
pub fn get_time(replies: &[CgiReply]) -> (r: Step<SystemTime>)
    ensures
        step_model(r) == single_step(
            request_model(CgiCommand::GetTime, no_params()),
            reply_models(replies@),
            |raw_json: Seq<char>| time_of(raw_json),
        ),
{
    if replies.len() == 0 {
        return Step::Send(CommandRequest::new(CgiCommand::GetTime));
    }
    match reply_text(&replies[0]) {
        Ok(raw_json) => Step::Done(parse_time(raw_json)),
        Err(error) => Step::Done(Err(error)),
    }
}

// ---------------------------------------------------------------- setting

/// What a `SetTime` response says of the time that was set.
pub open spec fn set_time_in(iso8601: Seq<char>, tree: JsonTree) -> Result<Seq<char>, ErrorModel> {
    let payload = payload_or_all(tree, CgiCommand::SetTime);
    let code = match tree_get(payload, "code"@) {
        Some(raw) => tree_int(raw),
        None => None,
    };
    match code {
        None => Err(
            error_model(
                ErrorKind::UnexpectedResponse,
                "SetTime response did not include result code"@,
            ),
        ),
        Some(code) => if code == 0 {
            Ok(iso8601)
        } else {
            Err(
                error_model(
                    ErrorKind::UnexpectedResponse,
                    "SetTime failed with code="@ + dec_int(code),
                ),
            )
        },
    }
}

pub open spec fn set_time_of(iso8601: Seq<char>, raw_json: Seq<char>) -> Result<
    Seq<char>,
    ErrorModel,
> {
    match response_tree(CgiCommand::SetTime, raw_json) {
        Ok(tree) => set_time_in(iso8601, tree),
        Err(error) => Err(error),
    }
}

/// What a `SetTime` response says of the time that was set.
pub fn set_time_from_json(iso8601: &str, parsed: &Json) -> (r: AppResult<SystemTime>)
    ensures
        result_model(r) == set_time_in(iso8601@, parsed@),
{
    let payload = payload_or_whole(parsed, CgiCommand::SetTime);
    let code = match payload.get("code") {
        Some(raw) => raw.as_int(),
        None => None,
    };
    match code {
        None => Err(
            AppError::new(
                ErrorKind::UnexpectedResponse,
                "SetTime response did not include result code",
            ),
        ),
        Some(code) => if code == 0 {
            Ok(SystemTime { iso8601: iso8601.to_owned() })
        } else {
            Err(
                AppError::with_message(
                    ErrorKind::UnexpectedResponse,
                    join2("SetTime failed with code=", dec_i64(code).as_str()),
                ),
            )
        },
    }
}

fn parse_set_time(iso8601: &str, raw_json: &str) -> (r: AppResult<SystemTime>)
    ensures
        result_model(r) == set_time_of(iso8601@, raw_json@),
{
    match parse_response_json(raw_json, CgiCommand::SetTime) {
        Ok(parsed) => set_time_from_json(iso8601, &parsed),
        Err(error) => Err(error),
    }
}

/// Setting the clock: a text that is a timestamp, but for white space around it, is sent.
pub open spec fn set_time_step(
    iso8601: Seq<char>,
    replies: Seq<Result<ResponseModel, ErrorModel>>,
) -> StepModel<Seq<char>> {
    let normalized = trim(iso8601);
    if normalized.len() == 0 {
        StepModel::Done(Err(error_model(ErrorKind::InvalidInput, "iso8601 must not be empty"@)))
    } else if !is_timestamp(normalized) {
        StepModel::Done(
            Err(
                error_model(
                    ErrorKind::InvalidInput,
                    "iso8601 must be an RFC3339-like timestamp (e.g. 2026-02-25T10:00:00Z)"@,
                ),
            ),
        )
    } else {
        single_step(
            request_model(CgiCommand::SetTime, payload_params(normalized)),
            replies,
            |raw_json: Seq<char>| set_time_of(normalized, raw_json),
        )
    }
}

/// Sets the camera's clock.
pub fn set_time(iso8601: &str, replies: &[CgiReply]) -> (r: Step<SystemTime>)
    ensures
        step_model(r) == set_time_step(iso8601@, reply_models(replies@)),
{
    let normalized = trim_text(iso8601);
    if normalized.as_str().is_empty() {
        return Step::Done(
            Err(AppError::new(ErrorKind::InvalidInput, "iso8601 must not be empty")),
        );
    }
    if !is_rfc3339_like_timestamp(normalized.as_str()) {
        return Step::Done(
            Err(
                AppError::new(
                    ErrorKind::InvalidInput,
                    "iso8601 must be an RFC3339-like timestamp (e.g. 2026-02-25T10:00:00Z)",
                ),
            ),
        );
    }
    if replies.len() == 0 {
        return Step::Send(CommandRequest::with_payload(CgiCommand::SetTime, normalized));
    }
    match reply_text(&replies[0]) {
        Ok(raw_json) => Step::Done(parse_set_time(normalized.as_str(), raw_json)),
        Err(error) => Step::Done(Err(error)),
    }
}

/// The clock is set to nothing but a timestamp, and a success reports the timestamp that was
/// sent.
pub proof fn law_time_that_is_set_is_a_timestamp(
    iso8601: Seq<char>,
    replies: Seq<Result<ResponseModel, ErrorModel>>,
)
    ensures
        set_time_step(iso8601, replies) is Send ==> is_timestamp(trim(iso8601)),
        set_time_step(iso8601, replies) matches StepModel::Done(Ok(time)) ==> time == trim(iso8601)
            && is_timestamp(time),
{
}

} // verus!
