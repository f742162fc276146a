//! Arguments of commands and tools: numbers and words with names.
use crate::error::{error_model, result_model, AppError, AppResult, ErrorKind, ErrorModel};
use crate::text::{
    join2, lower, lower_text, parse_i64_text, parse_signed, parse_u16_text, parse_u64_text,
    parse_u8_text, parse_unsigned, same_text, trim, trim_text,
};
use vstd::prelude::*;

verus! {

/// The arguments, taken by their views.
pub open spec fn arg_models(args: Seq<String>) -> Seq<Seq<char>> {
    Seq::new(args.len(), |i: int| args[i]@)
}

/// The arguments after the first few.
pub fn args_from(args: &[String], from: usize) -> (r: &[String])
    requires
        from <= args.len(),
    ensures
        arg_models(r@) == arg_models(args@).skip(from as int),
{
    let rest = vstd::slice::slice_subrange(args, from, args.len());
    proof {
        assert(arg_models(rest@) =~= arg_models(args@).skip(from as int));
    }
    rest
}

/// A number from 0 to 255.
pub open spec fn u8_arg(raw: Seq<char>, name: Seq<char>) -> Result<u8, ErrorModel> {
    match parse_unsigned(raw, 255) {
        Some(n) => Ok(n as u8),
        None => Err(
            error_model(
                ErrorKind::InvalidInput,
                name + " must be an integer between 0 and 255"@,
            ),
        ),
    }
}

/// A number from 0 to 65535.
pub open spec fn u16_arg(raw: Seq<char>, name: Seq<char>) -> Result<u16, ErrorModel> {
    match parse_unsigned(raw, 65535) {
        Some(n) => Ok(n as u16),
        None => Err(
            error_model(
                ErrorKind::InvalidInput,
                name + " must be an integer between 0 and 65535"@,
            ),
        ),
    }
}

/// The number of a port, which is not 0.
pub open spec fn port_arg(raw: Seq<char>, name: Seq<char>) -> Result<u16, ErrorModel> {
    match u16_arg(raw, name) {
        Ok(port) => if port == 0 {
            Err(
                error_model(ErrorKind::InvalidInput, name + " must be in range 1..=65535, got 0"@),
            )
        } else {
            Ok(port)
        },
        Err(error) => Err(error),
    }
}

/// A number that is not negative.
pub open spec fn u64_arg(raw: Seq<char>, name: Seq<char>) -> Result<u64, ErrorModel> {
    match parse_unsigned(raw, u64::MAX as nat) {
        Some(n) => Ok(n as u64),
        None => Err(
            error_model(ErrorKind::InvalidInput, name + " must be a non-negative integer"@),
        ),
    }
}

/// An integer.
pub open spec fn i64_arg(raw: Seq<char>, name: Seq<char>) -> Result<i64, ErrorModel> {
    match parse_signed(raw) {
        Some(n) => Ok(n as i64),
        None => Err(error_model(ErrorKind::InvalidInput, name + " must be an integer"@)),
    }
}

/// A word for on or off.
pub open spec fn on_off_word(raw: Seq<char>) -> Option<bool> {
    let w = lower(trim(raw));
    if w == "1"@ || w == "true"@ || w == "on"@ || w == "enable"@ || w == "enabled"@ {
        Some(true)
    } else if w == "0"@ || w == "false"@ || w == "off"@ || w == "disable"@ || w == "disabled"@ {
        Some(false)
    } else {
        None
    }
}

pub fn parse_u8_arg(raw: &str, name: &str) -> (r: AppResult<u8>)
    ensures
        result_model(r) == u8_arg(raw@, name@),
{
    match parse_u8_text(raw) {
        Some(n) => Ok(n),
        None => Err(
            AppError::with_message(
                ErrorKind::InvalidInput,
                join2(name, " must be an integer between 0 and 255"),
            ),
        ),
    }
}

pub fn parse_u16_arg(raw: &str, name: &str) -> (r: AppResult<u16>)
    ensures
        result_model(r) == u16_arg(raw@, name@),
{
    match parse_u16_text(raw) {
        Some(n) => Ok(n),
        None => Err(
            AppError::with_message(
                ErrorKind::InvalidInput,
                join2(name, " must be an integer between 0 and 65535"),
            ),
        ),
    }
}

/// Reads the number of a port: one that is accepted is from 1 to 65535.
pub fn parse_port_arg(raw: &str, name: &str) -> (r: AppResult<u16>)
    ensures
        result_model(r) == port_arg(raw@, name@),
        r matches Ok(port) ==> 1 <= port <= 65535,
{
    match parse_u16_arg(raw, name) {
        Ok(port) => if port == 0 {
            Err(
                AppError::with_message(
                    ErrorKind::InvalidInput,
                    join2(name, " must be in range 1..=65535, got 0"),
                ),
            )
        } else {
            Ok(port)
        },
        Err(error) => Err(error),
    }
}

pub fn parse_u64_arg(raw: &str, name: &str) -> (r: AppResult<u64>)
    ensures
        result_model(r) == u64_arg(raw@, name@),
{
    match parse_u64_text(raw) {
        Some(n) => Ok(n),
        None => Err(
            AppError::with_message(
                ErrorKind::InvalidInput,
                join2(name, " must be a non-negative integer"),
            ),
        ),
    }
}

pub fn parse_i64_arg(raw: &str, name: &str) -> (r: AppResult<i64>)
    ensures
        result_model(r) == i64_arg(raw@, name@),
{
    match parse_i64_text(raw) {
        Some(n) => Ok(n),
        None => Err(
            AppError::with_message(ErrorKind::InvalidInput, join2(name, " must be an integer")),
        ),
    }
}

pub fn parse_on_off(raw: &str) -> (r: Option<bool>)
    ensures
        r == on_off_word(raw@),
{
    let trimmed = trim_text(raw);
    let lowered = lower_text(trimmed.as_str());
    let w = lowered.as_str();
    if same_text(w, "1") || same_text(w, "true") || same_text(w, "on") || same_text(w, "enable")
        || same_text(w, "enabled") {
        Some(true)
    } else if same_text(w, "0") || same_text(w, "false") || same_text(w, "off") || same_text(
        w,
        "disable",
    ) || same_text(w, "disabled") {
        Some(false)
    } else {
        None
    }
}

pub open spec fn invalid<V>(message: Seq<char>) -> Result<V, ErrorModel> {
    Err(error_model(ErrorKind::InvalidInput, message))
}

/// The error for input that is not accepted.
pub fn invalid_input(message: &str) -> (r: AppError)
    ensures
        r@ == error_model(ErrorKind::InvalidInput, message@),
{
    AppError::new(ErrorKind::InvalidInput, message)
}

/// The error for input that is not accepted, with the input at the end of its message.
pub fn invalid_value(message: &str, value: &str) -> (r: AppError)
    ensures
        r@ == error_model(ErrorKind::InvalidInput, message@ + value@),
{
    AppError::with_message(ErrorKind::InvalidInput, join2(message, value))
}

} // verus!
