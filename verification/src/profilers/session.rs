//! Profiling sessions: the session identifier handed over by the launcher and
//! the directory in which a session's reports are written.

use vstd::prelude::*;
use vstd::string::StringExecFns;

use crate::api::hresult::HRESULT;

verus! {

/// The 128-bit value that `Uuid::parse_str` reads from a text, if it accepts it.
pub uninterp spec fn uuid_parse(text: Seq<char>) -> Option<u128>;

/// `Uuid::parse_str`, the UUID taken as its 128-bit value (`Uuid::as_u128`).
/// The contract names the result; which texts the parser accepts is not stated.
#[verifier::external_body]
fn parse_uuid(text: &str) -> (r: Option<u128>)
    ensures
        r == uuid_parse(text@),
{
    match uuid::Uuid::parse_str(text) {
        Ok(uuid) => Some(uuid.as_u128()),
        Err(_) => None,
    }
}

/// Lower-case hexadecimal digit of `d` (`0 <= d < 16`).
pub open spec fn hex_digit(d: int) -> char {
    if d < 10 { (48 + d) as char } else { (87 + d) as char }
}

/// Hexadecimal digit `k` of `v`, counted from the most significant one.
pub open spec fn uuid_nibble(v: u128, k: int) -> int {
    ((v >> ((124 - 4 * k) as u128)) & 0xf) as int
}

/// Position among the 32 digits of character `i` of the hyphenated form.
pub open spec fn uuid_digit_index(i: int) -> int {
    if i < 8 { i } else if i < 13 { i - 1 } else if i < 18 { i - 2 } else if i < 23 { i - 3 } else { i - 4 }
}

/// The hyphenated lower-case form of a UUID, `xxxxxxxx-xxxx-xxxx-xxxx-xxxxxxxxxxxx`,
/// with the most significant digit first.
pub open spec fn uuid_text(v: u128) -> Seq<char> {
    Seq::new(36, |i: int|
        if i == 8 || i == 13 || i == 18 || i == 23 { '-' } else { hex_digit(uuid_nibble(v, uuid_digit_index(i))) })
}

/// `Uuid::from_u128`, then its `Display`: the hyphenated lower-case form.
#[verifier::external_body]
fn uuid_to_string(v: u128) -> (r: String)
    ensures
        r@ == uuid_text(v),
{
    uuid::Uuid::from_u128(v).to_string()
}

/// Outcome of starting a session, given the length of the data handed over and
/// what the UUID parser read from it.
pub open spec fn spec_session(data_length: u32, parsed: Option<u128>) -> Result<u128, HRESULT> {
    if data_length == 0 {
        Err(HRESULT::E_FAIL)
    } else {
        match parsed {
            Some(v) => Ok(v),
            None => Err(HRESULT::E_FAIL),
        }
    }
}

/// The session identifier, given the length of the data handed over and what
/// the UUID parser read from it: the data must be non-empty and parse.
pub fn session_from_parse(data_length: u32, parsed: Option<u128>) -> (r: Result<u128, HRESULT>)
    ensures
        r == spec_session(data_length, parsed),
{
    if data_length == 0 {
        return Err(HRESULT::E_FAIL);
    }
    match parsed {
        Some(uuid) => Ok(uuid),
        None => Err(HRESULT::E_FAIL),
    }
}

/// Reads the session identifier from the data handed over at attach:
/// `E_FAIL` when the data is empty or is not a UUID.
pub fn init_session(data_length: u32, session_text: &str) -> (r: Result<u128, HRESULT>)
    ensures
        r == spec_session(data_length, uuid_parse(session_text@)),
{
    if data_length == 0 {
        return Err(HRESULT::E_FAIL);
    }
    session_from_parse(data_length, parse_uuid(session_text))
}

/// The session identifier written in `text`, if it is a UUID.
pub fn parse_session_id(text: &str) -> (r: Option<u128>)
    ensures
        r == uuid_parse(text@),
{
    parse_uuid(text)
}

/// Directory of a session's reports: `/dr-dotnet/` followed by the session's
/// identifier in hyphenated form.
pub fn get_directory(session_id: u128) -> (r: String)
    ensures
        r@ == "/dr-dotnet/"@ + uuid_text(session_id),
{
    let id = uuid_to_string(session_id);
    let dir = String::from_str("/dr-dotnet/");
    dir.concat(id.as_str())
}

} // verus!
