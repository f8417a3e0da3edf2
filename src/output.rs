use vstd::prelude::*;
use crate::error::PushProfileError;
use vstd::string::*;

verus! {

/// The characters with the Unicode White_Space property.
pub open spec fn is_white_space(c: char) -> bool {
    let u = c as u32;
    (0x9 <= u && u <= 0xd) || u == 0x20 || u == 0x85 || u == 0xa0 || u == 0x1680
        || (0x2000 <= u && u <= 0x200a) || u == 0x2028 || u == 0x2029 || u == 0x202f
        || u == 0x205f || u == 0x3000
}

pub open spec fn trim_start(s: Seq<char>) -> Seq<char>
    decreases s.len(),
{
    if s.len() > 0 && is_white_space(s[0]) {
        trim_start(s.drop_first())
    } else {
        s
    }
}

pub open spec fn trim_end(s: Seq<char>) -> Seq<char>
    decreases s.len(),
{
    if s.len() > 0 && is_white_space(s.last()) {
        trim_end(s.drop_last())
    } else {
        s
    }
}

/// `s` without leading and trailing white space.
pub open spec fn trimmed(s: Seq<char>) -> Seq<char> {
    trim_end(trim_start(s))
}

/// Relies on str::trim: removes leading and trailing White_Space characters
/// and keeps the rest.
#[verifier::external_body]
fn trim_text(s: &str) -> (r: &str)
    ensures
        r@ == trimmed(s@),
{
    s.trim()
}

/// The text that the bytes encode in UTF-8, if they are valid UTF-8.
pub uninterp spec fn utf8_text(bytes: Seq<u8>) -> Option<Seq<char>>;

/// Relies on core::str::from_utf8: the text of valid UTF-8, an error otherwise.
#[verifier::external_body]
fn decode_utf8(bytes: &[u8]) -> (r: Result<&str, core::str::Utf8Error>)
    ensures
        match r {
            Ok(s) => utf8_text(bytes@) == Some(s@),
            Err(_) => utf8_text(bytes@) is None,
        },
{
    core::str::from_utf8(bytes)
}

/// Relies on std::io::Error::new: wraps a decoding failure of a command's
/// output as an error of kind InvalidData, as reading text from a stream does.
#[verifier::external_body]
fn invalid_data(e: core::str::Utf8Error) -> std::io::Error {
    std::io::Error::new(std::io::ErrorKind::InvalidData, e)
}

/// The keys of the JSON object that `text` holds, when `text` decodes into a
/// map from borrowed strings to JSON values.
pub uninterp spec fn derivation_keys(text: Seq<char>) -> Option<Set<Seq<char>>>;

/// Relies on serde_json::from_str into a HashMap<&str, serde_json::Value>: the
/// keys of the object on success, an error otherwise; `{}` is the empty map.
/// The keys come in the map's iteration order, which is left open.
#[verifier::external_body]
fn parse_derivation_keys(text: &str) -> (r: Result<Vec<String>, serde_json::Error>)
    ensures
        match r {
            Ok(keys) => derivation_keys(text@) == Some(keys@.map_values(|k: String| k@).to_set()),
            Err(_) => derivation_keys(text@) is None,
        },
        text@ == "{}"@ ==> (r is Ok && r->Ok_0@.len() == 0),
{
    serde_json::from_str::<std::collections::HashMap<&str, serde_json::Value>>(text).map(
        |m| m.keys().map(|k| k.to_string()).collect(),
    )
}

/// What `derivation_name` may return for the text of a derivation listing.
pub open spec fn derivation_name_ok(text: Seq<char>, r: Result<Seq<char>, PushProfileError>) -> bool {
    match derivation_keys(text) {
        None => r matches Err(PushProfileError::ShowDerivationParse(_)),
        Some(keys) => if keys.is_empty() {
            r matches Err(PushProfileError::ShowDerivationEmpty)
        } else {
            r is Ok && keys.contains(r->Ok_0)
        },
    }
}

pub open spec fn view_res(r: Result<String, PushProfileError>) -> Result<Seq<char>, PushProfileError> {
    match r {
        Ok(s) => Ok(s@),
        Err(e) => Err(e),
    }
}

/// The derivation named by a derivation listing: one of its keys. The listing
/// `{}` is an error, never a guess.
pub fn derivation_name(text: &str) -> (r: Result<String, PushProfileError>)
    ensures
        derivation_name_ok(text@, view_res(r)),
        text@ == "{}"@ ==> r matches Err(PushProfileError::ShowDerivationEmpty),
{
    match parse_derivation_keys(text) {
        Err(e) => Err(PushProfileError::ShowDerivationParse(e)),
        Ok(keys) => {
            let ghost ks = keys@.map_values(|k: String| k@);
            if keys.len() == 0 {
                assert(ks.to_set() =~= Set::empty());
                Err(PushProfileError::ShowDerivationEmpty)
            } else {
                assert(ks.to_set().contains(ks[0]));
                assert(!ks.to_set().is_empty());
                Ok(keys[0].clone())
            }
        },
    }
}

/// What `locate_derivation` may return after the listing command exited
/// with `code` and wrote `stdout`.
pub open spec fn locate_ok(
    code: Option<i32>,
    stdout: Seq<u8>,
    r: Result<Seq<char>, PushProfileError>,
) -> bool {
    if code != Some(0i32) {
        r == Err::<Seq<char>, PushProfileError>(PushProfileError::ShowDerivationExit(code))
    } else {
        match utf8_text(stdout) {
            None => r matches Err(PushProfileError::ShowDerivationUtf8(_)),
            Some(text) => derivation_name_ok(text, r),
        }
    }
}

/// Interprets the outcome of the derivation listing command.
pub fn locate_derivation(code: Option<i32>, stdout: &Vec<u8>) -> (r: Result<String, PushProfileError>)
    ensures
        locate_ok(code, stdout@, view_res(r)),
{
    match code {
        Some(0) => {},
        _ => {
            return Err(PushProfileError::ShowDerivationExit(code));
        },
    }
    match decode_utf8(stdout.as_slice()) {
        Err(e) => Err(PushProfileError::ShowDerivationUtf8(e)),
        Ok(text) => derivation_name(text),
    }
}

/// The realized path that a content-addressed build printed, or `None` when
/// the output is not UTF-8.
pub open spec fn printed_path(stdout: Seq<u8>) -> Option<Seq<char>> {
    match utf8_text(stdout) {
        Some(t) => Some(trimmed(t)),
        None => None,
    }
}

/// Reads the realized path from a build's standard output: the trimmed text,
/// or a read error when the output is not UTF-8.
pub fn read_printed_path(stdout: &Vec<u8>) -> (r: Result<String, std::io::Error>)
    ensures
        match r {
            Ok(p) => printed_path(stdout@) == Some(p@),
            Err(_) => printed_path(stdout@) is None,
        },
{
    match decode_utf8(stdout.as_slice()) {
        Err(e) => Err(invalid_data(e)),
        Ok(text) => Ok(String::from_str(trim_text(text))),
    }
}

} // verus!
