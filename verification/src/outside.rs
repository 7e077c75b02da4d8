//! The calls into other crates. What these items state is believed, not
//! proved; everything else in the library is proved from it.

use vstd::prelude::*;

use crate::date_time::{MAX_UNIX_NANOS, MIN_UNIX_NANOS, NANOS_PER_SECOND};

verus! {

/// A JSON document. The library carries such values and never looks inside.
#[verifier::external_type_specification]
#[verifier::external_body]
pub struct ExJsonValue(serde_json::Value);

/// `Clone::clone` of `serde_json::Value`, which is derived: the copy is the
/// same document.
pub assume_specification[ <serde_json::Value as Clone>::clone ](
    value: &serde_json::Value,
) -> (r: serde_json::Value)
    ensures
        r == *value,
;

/// Why a text is not a URL. Callers answer every cause alike.
#[verifier::external_type_specification]
#[verifier::external_body]
pub struct ExUrlParseError(url::ParseError);

/// What `url::Url::parse` makes of a text: the serialization of the URL, or
/// nothing where the text is not an absolute URL.
pub uninterp spec fn url_of(text: Seq<char>) -> Option<Seq<char>>;

/// `url::Url::parse`, with the URL handed on as its serialization. The result
/// depends on the text alone.
#[verifier::external_body]
pub(crate) fn parse_url(text: &str) -> (r: Result<String, url::ParseError>)
    ensures
        url_of(text@) == (match r {
            Ok(serialization) => Some(serialization@),
            Err(_) => None,
        }),
{
    match url::Url::parse(text) {
        Ok(parsed) => Ok(String::from(parsed)),
        Err(error) => Err(error),
    }
}

/// A digit of lower-case hexadecimal.
pub open spec fn hex_digit(value: int) -> char {
    if value < 10 {
        (('0' as int) + value) as char
    } else {
        (('a' as int) + (value - 10)) as char
    }
}

/// Bytes in lower-case hexadecimal: two digits for each byte, the higher one
/// first.
pub open spec fn hex_of(bytes: Seq<u8>) -> Seq<char> {
    Seq::new(
        2 * bytes.len(),
        |i: int|
            if i % 2 == 0 {
                hex_digit(bytes[i / 2] as int / 16)
            } else {
                hex_digit(bytes[i / 2] as int % 16)
            },
    )
}

/// `hex::encode`, which writes each byte as two lower-case hexadecimal digits.
#[verifier::external_body]
pub(crate) fn encode_hex(bytes: &Vec<u8>) -> (r: String)
    ensures
        r@ == hex_of(bytes@),
{
    hex::encode(bytes)
}

/// `nanoid::format` with its default source of randomness: `size` characters,
/// each of them one of the alphabet. Which ones is left to chance, so nothing
/// more is said of them.
#[verifier::external_body]
pub(crate) fn random_text(alphabet: &[char], size: usize) -> (r: String)
    requires
        0 < alphabet@.len() <= 255,
        forall|i: int| 0 <= i < alphabet@.len() ==> (#[trigger] alphabet@[i] as int) < 128,
        0 < size <= usize::MAX / 8,
    ensures
        r@.len() == size,
        forall|i: int| 0 <= i < r@.len() ==> alphabet@.contains(#[trigger] r@[i]),
{
    nanoid::format(nanoid::rngs::default, alphabet, size)
}

/// `time::PrimitiveDateTime::saturating_add` of a whole number of seconds, with
/// date-times as nanoseconds since the Unix epoch: the sum, held within the
/// first and the last date-time that can be expressed.
#[verifier::external_body]
pub(crate) fn saturating_add_seconds(unix_nanos: i128, seconds: i64) -> (r: i128)
    requires
        MIN_UNIX_NANOS <= unix_nanos <= MAX_UNIX_NANOS,
    ensures
        ({
            let sum = unix_nanos + seconds * NANOS_PER_SECOND;
            r == (if sum < MIN_UNIX_NANOS {
                MIN_UNIX_NANOS as int
            } else if sum > MAX_UNIX_NANOS {
                MAX_UNIX_NANOS as int
            } else {
                sum
            })
        }),
{
    let instant = time::OffsetDateTime::from_unix_timestamp_nanos(unix_nanos).unwrap();
    let start = time::PrimitiveDateTime::new(instant.date(), instant.time());
    let end = start.saturating_add(time::Duration::seconds(seconds));
    end.assume_utc().unix_timestamp_nanos()
}

/// The addition of a `time::Duration` of whole seconds to a
/// `time::PrimitiveDateTime`, with date-times as nanoseconds since the Unix
/// epoch: the sum. The addition panics where the sum cannot be expressed, so
/// such sums are left out.
#[verifier::external_body]
pub(crate) fn add_seconds(unix_nanos: i128, seconds: i64) -> (r: i128)
    requires
        MIN_UNIX_NANOS <= unix_nanos <= MAX_UNIX_NANOS,
        MIN_UNIX_NANOS <= unix_nanos + seconds * NANOS_PER_SECOND <= MAX_UNIX_NANOS,
    ensures
        r == unix_nanos + seconds * NANOS_PER_SECOND,
{
    let instant = time::OffsetDateTime::from_unix_timestamp_nanos(unix_nanos).unwrap();
    let start = time::PrimitiveDateTime::new(instant.date(), instant.time());
    let end = start + time::Duration::seconds(seconds);
    end.assume_utc().unix_timestamp_nanos()
}

} // verus!
