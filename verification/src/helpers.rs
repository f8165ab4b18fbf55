use crate::error::ContractError;
use crate::math::{scale, Decimal};
use vstd::utf8::encode_utf8;
use vstd::prelude::*;

verus! {

/// Shortest and longest accepted stream names, in bytes.
pub const MIN_NAME_LENGTH: usize = 2;
pub const MAX_NAME_LENGTH: usize = 64;
/// Shortest and longest accepted stream urls, in bytes.
pub const MIN_URL_LENGTH: usize = 12;
pub const MAX_URL_LENGTH: usize = 128;

/// The fractional part of a decimal: the digits after the decimal point.
pub fn get_decimals(value: Decimal) -> (r: Result<Decimal, ContractError>)
    ensures
        r == Ok::<Decimal, ContractError>(Decimal { atomics: ((value.atomics as int) % scale()) as u128 }),
{
    Ok(value.fractional_part())
}

/// Special characters allowed in stream names besides ASCII letters, digits and whitespace.
pub open spec fn is_safe_text_char(c: char) -> bool {
    c == '<' || c == '>' || c == '$' || c == '!' || c == '&' || c == '?' || c == '#' || c == '('
        || c == ')' || c == '*' || c == '+' || c == '\'' || c == '-' || c == '.' || c == '/'
        || c == '"'
}

/// Special characters allowed in stream urls besides ASCII letters and digits.
pub open spec fn is_safe_url_char(c: char) -> bool {
    c == '-' || c == '_' || c == ':' || c == '/' || c == '?' || c == '#' || c == '@' || c == '!'
        || c == '$' || c == '&' || c == '(' || c == ')' || c == '*' || c == '+' || c == ','
        || c == ';' || c == '=' || c == '.' || c == '~' || c == '[' || c == ']' || c == '\''
        || c == '%'
}

pub open spec fn is_ascii_alphanumeric(c: char) -> bool {
    ('0' <= c && c <= '9') || ('a' <= c && c <= 'z') || ('A' <= c && c <= 'Z')
}

/// ASCII whitespace as Rust defines it: space, tab, line feed, form feed, carriage return.
pub open spec fn is_ascii_whitespace(c: char) -> bool {
    c == ' ' || c == '\t' || c == '\n' || c == '\x0C' || c == '\r'
}

pub open spec fn name_char_ok(c: char) -> bool {
    is_ascii_alphanumeric(c) || is_ascii_whitespace(c) || is_safe_text_char(c)
}

pub open spec fn url_char_ok(c: char) -> bool {
    is_ascii_alphanumeric(c) || is_safe_url_char(c)
}

fn name_char_allowed(c: char) -> (b: bool)
    ensures
        b == name_char_ok(c),
{
    ('0' <= c && c <= '9') || ('a' <= c && c <= 'z') || ('A' <= c && c <= 'Z') || c == ' ' || c
        == '\t' || c == '\n' || c == '\x0C' || c == '\r' || c == '<' || c == '>' || c == '$' || c
        == '!' || c == '&' || c == '?' || c == '#' || c == '(' || c == ')' || c == '*' || c == '+'
        || c == '\'' || c == '-' || c == '.' || c == '/' || c == '"'
}

fn url_char_allowed(c: char) -> (b: bool)
    ensures
        b == url_char_ok(c),
{
    ('0' <= c && c <= '9') || ('a' <= c && c <= 'z') || ('A' <= c && c <= 'Z') || c == '-' || c
        == '_' || c == ':' || c == '/' || c == '?' || c == '#' || c == '@' || c == '!' || c == '$'
        || c == '&' || c == '(' || c == ')' || c == '*' || c == '+' || c == ',' || c == ';' || c
        == '=' || c == '.' || c == '~' || c == '[' || c == ']' || c == '\'' || c == '%'
}

fn all_name_chars(s: &str) -> (b: bool)
    ensures
        b == (forall|i: int| 0 <= i < s@.len() ==> name_char_ok(#[trigger] s@[i])),
{
    let mut ok = true;
    for c in it: s.chars()
        invariant
            it.seq() == s@,
            ok == (forall|i: int| 0 <= i < it.index() ==> name_char_ok(#[trigger] s@[i])),
    {
        if !name_char_allowed(c) {
            ok = false;
        }
    }
    ok
}

fn all_url_chars(s: &str) -> (b: bool)
    ensures
        b == (forall|i: int| 0 <= i < s@.len() ==> url_char_ok(#[trigger] s@[i])),
{
    let mut ok = true;
    for c in it: s.chars()
        invariant
            it.seq() == s@,
            ok == (forall|i: int| 0 <= i < it.index() ==> url_char_ok(#[trigger] s@[i])),
    {
        if !url_char_allowed(c) {
            ok = false;
        }
    }
    ok
}

/// Length in bytes of the UTF-8 encoding, as a machine-sized length.
pub open spec fn byte_len(s: Seq<char>) -> usize {
    encode_utf8(s).len() as usize
}

/// The verdict on a stream name and an optional url: lengths are counted in bytes of their
/// UTF-8 encoding, and every character must be among the allowed ones.
pub open spec fn name_and_url_verdict(name: Seq<char>, url: Option<Seq<char>>) -> Result<(), ContractError> {
    if byte_len(name) < MIN_NAME_LENGTH {
        Err(ContractError::StreamNameTooShort)
    } else if byte_len(name) > MAX_NAME_LENGTH {
        Err(ContractError::StreamNameTooLong)
    } else if !(forall|i: int| 0 <= i < name.len() ==> name_char_ok(#[trigger] name[i])) {
        Err(ContractError::InvalidStreamName)
    } else {
        match url {
            None => Ok(()),
            Some(u) => if byte_len(u) < MIN_URL_LENGTH {
                Err(ContractError::StreamUrlTooShort)
            } else if byte_len(u) > MAX_URL_LENGTH {
                Err(ContractError::StreamUrlTooLong)
            } else if !(forall|i: int| 0 <= i < u.len() ==> url_char_ok(#[trigger] u[i])) {
                Err(ContractError::InvalidStreamUrl)
            } else {
                Ok(())
            },
        }
    }
}

/// Validates the name and the url of a new stream.
pub fn check_name_and_url(name: &String, url: &Option<String>) -> (r: Result<(), ContractError>)
    ensures
        r == name_and_url_verdict(
            name@,
            match url {
                Some(u) => Some(u@),
                None => None,
            },
        ),
{
    let name = name.as_str();
    if name.len() < MIN_NAME_LENGTH {
        return Err(ContractError::StreamNameTooShort);
    }
    if name.len() > MAX_NAME_LENGTH {
        return Err(ContractError::StreamNameTooLong);
    }
    if !all_name_chars(name) {
        return Err(ContractError::InvalidStreamName);
    }
    match url {
        Some(u) => {
            let u = u.as_str();
            if u.len() < MIN_URL_LENGTH {
                return Err(ContractError::StreamUrlTooShort);
            }
            if u.len() > MAX_URL_LENGTH {
                return Err(ContractError::StreamUrlTooLong);
            }
            if !all_url_chars(u) {
                return Err(ContractError::InvalidStreamUrl);
            }
            Ok(())
        },
        None => Ok(()),
    }
}

/// Refuses a pool that would take more out tokens than the stream sells.
pub fn check_create_pool_flag(out_amount: u128, pool_out_amount: Option<u128>) -> (r: Result<(), ContractError>)
    ensures
        (pool_out_amount matches Some(p) && out_amount < p) ==> r == Err::<(), ContractError>(
            ContractError::InvalidCreatePool,
        ),
        !(pool_out_amount matches Some(p) && out_amount < p) ==> r == Ok::<(), ContractError>(()),
{
    if let Some(p) = pool_out_amount {
        if out_amount < p {
            return Err(ContractError::InvalidCreatePool);
        }
    }
    Ok(())
}

} // verus!
