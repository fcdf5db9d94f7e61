//! What the proofs of this library take on trust: the behaviour of functions
//! of other crates, and of the standard library where it comes without a
//! specification. Nothing here is verified; each item says what it assumes.

use crate::text::decimal;
use base64::Engine;
use vstd::prelude::*;

verus! {

/// `String::push` appends one character to the end of the string.
pub assume_specification[ std::string::String::push ](s: &mut std::string::String, c: char)
    ensures
        final(s)@ == old(s)@.push(c),
;

/// The patterns by which the clock is read: one for each time token.
pub open spec fn is_clock_pattern(pattern: Seq<char>) -> bool {
    ||| pattern == "%a %d %b %Y, %I:%M%p"@
    ||| pattern == "%+"@
    ||| pattern == "%-Y"@
    ||| pattern == "%-m"@
    ||| pattern == "%-d"@
    ||| pattern == "%-H"@
    ||| pattern == "%-M"@
}

/// `text` is the decimal numeral, without leading zeros, of a number from
/// `low` to `high`.
pub open spec fn is_numeral_within(text: Seq<char>, low: nat, high: nat) -> bool {
    exists|n: nat| low <= n <= high && text == #[trigger] decimal(n)
}

/// The numeral by which a year is written: plain for the years 0 to 9999, and
/// with its sign in front for any other.
pub open spec fn year_numeral(year: int) -> Seq<char> {
    if 0 <= year <= 9999 {
        decimal(year as nat)
    } else if year > 9999 {
        seq!['+'] + decimal(year as nat)
    } else {
        seq!['-'] + decimal((-year) as nat)
    }
}

/// `text` is the numeral of some year.
pub open spec fn is_year_numeral(text: Seq<char>) -> bool {
    exists|year: int| text == #[trigger] year_numeral(year)
}

/// Reads the local clock with `chrono::Local::now` and writes the reading
/// out with `DateTime::format` under `pattern`. Writing out fails on a pattern
/// that chrono cannot parse; the patterns admitted here are all made of
/// specifiers that chrono documents.
///
/// The reading differs from call to call, so what is claimed is what holds of
/// every reading. Under `%-m`, `%-d`, `%-H` and `%-M` chrono writes the month
/// (1 to 12), the day of the month (1 to 31), the hour (0 to 23) and the
/// minute (0 to 59) as a number without padding. Under `%-Y` it writes the
/// year as a number without padding, with a sign in front where the year lies
/// outside 0 to 9999. Nothing is claimed of the two longer patterns.
#[verifier::external_body]
pub(crate) fn local_time_text(pattern: &str) -> (text: String)
    requires
        is_clock_pattern(pattern@),
    ensures
        pattern@ == "%-Y"@ ==> is_year_numeral(text@),
        pattern@ == "%-m"@ ==> is_numeral_within(text@, 1, 12),
        pattern@ == "%-d"@ ==> is_numeral_within(text@, 1, 31),
        pattern@ == "%-H"@ ==> is_numeral_within(text@, 0, 23),
        pattern@ == "%-M"@ ==> is_numeral_within(text@, 0, 59),
{
    chrono::Local::now().format(pattern).to_string()
}

/// What `semver` decides on a requirement and a version, both as text:
/// `None` where `semver::VersionReq::parse` refuses the requirement or
/// `semver::Version::parse` refuses the version, and otherwise whether
/// `semver::VersionReq::matches` holds of the two.
pub uninterp spec fn semver_admits(requirement: Seq<char>, version: Seq<char>) -> Option<bool>;

/// Parses `requirement` with `semver::VersionReq::parse` and `version` with
/// `semver::Version::parse`, and asks `semver::VersionReq::matches` of the
/// two. All three depend on the texts alone.
#[verifier::external_body]
pub(crate) fn requirement_admits(requirement: &str, version: &str) -> (r: Option<bool>)
    ensures
        r == semver_admits(requirement@, version@),
{
    match (semver::VersionReq::parse(requirement), semver::Version::parse(version)) {
        (Ok(req), Ok(ver)) => Some(req.matches(&ver)),
        _ => None,
    }
}

/// The standard base64 encoding, with padding, of the UTF-8 bytes of `text`.
pub uninterp spec fn base64_standard(text: Seq<char>) -> Seq<char>;

/// Encodes the bytes of `text` with `base64::Engine::encode` on the engine
/// `base64::prelude::BASE64_STANDARD`.
#[verifier::external_body]
pub(crate) fn encode_base64(text: &str) -> (r: String)
    ensures
        r@ == base64_standard(text@),
{
    base64::prelude::BASE64_STANDARD.encode(text)
}

/// What a JSON document holds under `key` as a string: `None` where `bytes`
/// are no JSON text, `Some(None)` where the document is no object or holds no
/// string under `key`, and `Some(Some(text))` where it holds the string `text`.
pub uninterp spec fn json_string_member(bytes: Seq<u8>, key: Seq<char>) -> Option<
    Option<Seq<char>>,
>;

/// The text of what was found under a key of a JSON document.
pub open spec fn member_text(member: Option<Option<String>>) -> Option<Option<Seq<char>>> {
    match member {
        None => None,
        Some(None) => Some(None),
        Some(Some(text)) => Some(Some(text@)),
    }
}

/// Parses `bytes` with `serde_json::from_slice` into a `serde_json::Value`
/// and looks `key` up with `Value::get`.
#[verifier::external_body]
pub(crate) fn json_string_field(bytes: &[u8], key: &str) -> (r: Option<Option<String>>)
    ensures
        member_text(r) == json_string_member(bytes@, key@),
{
    match serde_json::from_slice::<serde_json::Value>(bytes) {
        Ok(document) => Some(
            match document.get(key) {
                Some(serde_json::Value::String(text)) => Some(text.clone()),
                _ => None,
            },
        ),
        Err(_) => None,
    }
}

} // verus!
