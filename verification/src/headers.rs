//! Reading the state of a leaky bucket from the headers of a response.

use vstd::prelude::*;
use crate::leaky_bucket::{BucketState, LeakyBucket};
use crate::{BUCKET_CAPACITY_HEADER, BUCKET_LEAK_PER_SECOND_HEADER, BUCKET_POINTS_HEADER};
use reqwest::header::{HeaderMap, HeaderValue};

verus! {

/// `reqwest::header::HeaderMap`, the headers of a request or a response.
/// Proofs see of it only what [`header_values`] names.
#[verifier::external_type_specification]
#[verifier::external_body]
#[verifier::reject_recursive_types(T)]
pub struct ExHeaderMap<T>(reqwest::header::HeaderMap<T>);

/// `reqwest::header::HeaderValue`, the value of one header. Nothing inside
/// it is visible to proofs.
#[verifier::external_type_specification]
#[verifier::external_body]
pub struct ExHeaderValue(reqwest::header::HeaderValue);

/// What a header map holds, as a lookup by name shows it: each name under
/// which `HeaderMap::get` finds a value, with the bytes of the first value
/// that stands under it.
pub uninterp spec fn header_values(headers: HeaderMap<HeaderValue>) -> Map<Seq<char>, Seq<u8>>;

/// The bytes that [`header_values`] holds under `name`, if any.
pub open spec fn header_lookup(headers: HeaderMap<HeaderValue>, name: Seq<char>) -> Option<
    Seq<u8>,
> {
    if header_values(headers).contains_key(name) {
        Some(header_values(headers)[name])
    } else {
        None
    }
}

/// Looks `name` up with `HeaderMap::get` and copies the bytes of the value
/// it finds, which `HeaderValue::as_bytes` gives. The contract claims that
/// this is the lookup that [`header_values`] stands for: a value comes back
/// exactly for the names that the map holds, and it is the first one under
/// that name.
#[verifier::external_body]
pub(crate) fn header_bytes(headers: &HeaderMap<HeaderValue>, name: &str) -> (value: Option<
    Vec<u8>,
>)
    ensures
        value is Some == header_values(*headers).contains_key(name@),
        value matches Some(bytes) ==> bytes@ == header_values(*headers)[name@],
{
    headers.get(name).map(|value| value.as_bytes().to_vec())
}

/// The possible errors when trying to convert the headers of a response to
/// a [`LeakyBucket`].
#[derive(Clone, Copy, Debug, Hash, PartialEq, Eq, Structural)]
pub enum FromHeaderError {
    /// Missing _points_ header
    NoPoints,
    /// Missing _capacity_ header
    NoCapacity,
    /// Missing _leak per second_ header
    NoLeakPerSecond,
    /// Invalid _points_ header
    InvalidPoints,
    /// Invalid _capacity_ header
    InvalidCapacity,
    /// Invalid _leak per second_ header
    InvalidLeakPerSecond,
}

impl FromHeaderError {
    /// The words that describe the error.
    pub open spec fn text(self) -> Seq<char> {
        match self {
            FromHeaderError::NoPoints => "no point header"@,
            FromHeaderError::NoCapacity => "no capacity header"@,
            FromHeaderError::NoLeakPerSecond => "no leak per second header"@,
            FromHeaderError::InvalidPoints => "invalid point header"@,
            FromHeaderError::InvalidCapacity => "invalid point capacity"@,
            FromHeaderError::InvalidLeakPerSecond => "invalid leak per second header"@,
        }
    }

    /// Describes the error in words.
    pub fn message(&self) -> (message: &'static str)
        ensures
            message@ == self.text(),
    {
        match self {
            FromHeaderError::NoPoints => "no point header",
            FromHeaderError::NoCapacity => "no capacity header",
            FromHeaderError::NoLeakPerSecond => "no leak per second header",
            FromHeaderError::InvalidPoints => "invalid point header",
            FromHeaderError::InvalidCapacity => "invalid point capacity",
            FromHeaderError::InvalidLeakPerSecond => "invalid leak per second header",
        }
    }
}

/// Whether `byte` is one of the ten ASCII digits.
pub open spec fn is_digit(byte: u8) -> bool {
    0x30 <= byte <= 0x39
}

/// Whether `digits` holds ASCII digits and nothing else.
pub open spec fn all_digits(digits: Seq<u8>) -> bool {
    forall|i: int| 0 <= i < digits.len() ==> is_digit(#[trigger] digits[i])
}

/// The number that the ASCII digits in `digits` write in base ten.
pub open spec fn digits_value(digits: Seq<u8>) -> nat
    decreases digits.len(),
{
    if digits.len() == 0 {
        0
    } else {
        digits_value(digits.drop_last()) * 10 + (digits.last() - 0x30) as nat
    }
}

/// The text without the plus sign that may stand in front of it.
pub open spec fn unsigned_part(text: Seq<u8>) -> Seq<u8> {
    if text.len() > 0 && text[0] == 0x2b {
        text.subrange(1, text.len() as int)
    } else {
        text
    }
}

/// The number that `text` writes, if it writes one that is no more than
/// `max`: an optional plus sign, then one ASCII digit or more, and nothing
/// before, between or after them.
pub open spec fn decimal(text: Seq<u8>, max: nat) -> Option<nat> {
    let digits = unsigned_part(text);
    if digits.len() > 0 && all_digits(digits) && digits_value(digits) <= max {
        Some(digits_value(digits))
    } else {
        None
    }
}

/// The digits in front write no larger a number than all of them do.
proof fn lemma_digits_value_grows(digits: Seq<u8>, front: int)
    requires
        0 <= front <= digits.len(),
    ensures
        digits_value(digits.take(front)) <= digits_value(digits),
    decreases digits.len(),
{
    if front == digits.len() {
        assert(digits.take(front) == digits);
    } else {
        lemma_digits_value_grows(digits.drop_last(), front);
        assert(digits.drop_last().take(front) == digits.take(front));
    }
}

/// Reads the number that `text` writes in base ten, see [`decimal`]; there
/// is none if the text writes no number or one that is more than `max`.
pub fn parse_decimal(text: &[u8], max: u32) -> (value: Option<u32>)
    ensures
        value is Some == decimal(text@, max as nat) is Some,
        value matches Some(number) ==> decimal(text@, max as nat) == Some(number as nat),
{
    let start: usize = if text.len() > 0 && text[0] == 0x2b {
        1
    } else {
        0
    };
    if start == text.len() {
        return None;
    }
    let ghost digits = unsigned_part(text@);
    assert(digits == text@.subrange(start as int, text.len() as int));
    let mut number: u32 = 0;
    let mut at: usize = start;
    while at < text.len()
        invariant
            start <= at <= text.len(),
            digits == unsigned_part(text@),
            digits == text@.subrange(start as int, text.len() as int),
            all_digits(digits.take(at - start)),
            number == digits_value(digits.take(at - start)),
            number <= max,
        decreases text.len() - at,
    {
        let byte = text[at];
        if byte < 0x30 || byte > 0x39 {
            assert(!is_digit(digits[at - start]));
            return None;
        }
        let next: u64 = number as u64 * 10 + (byte - 0x30) as u64;
        proof {
            let longer = digits.take(at - start + 1);
            assert(longer.drop_last() == digits.take(at - start));
            assert(longer.last() == byte);
            assert(digits_value(longer) == next);
            assert forall|i: int| 0 <= i < longer.len() implies is_digit(#[trigger] longer[i]) by {
                if i < at - start {
                    assert(digits.take(at - start)[i] == longer[i]);
                }
            }
            lemma_digits_value_grows(digits, at - start + 1);
        }
        if next > max as u64 {
            return None;
        }
        number = next as u32;
        at += 1;
    }
    assert(digits.take(at - start) == digits);
    Some(number)
}

/// The bucket that the three header values describe, or what is wrong
/// with them: the first header that is missing, in the order points,
/// capacity, leak per second; else the first that does not write a number
/// of its width (16 bits, 16 bits, 8 bits), in the same order; else the
/// points, where they exceed the capacity.
pub open spec fn bucket_from_values(
    points: Option<Seq<u8>>,
    capacity: Option<Seq<u8>>,
    leak_per_second: Option<Seq<u8>>,
) -> Result<BucketState, FromHeaderError> {
    if points is None {
        Err(FromHeaderError::NoPoints)
    } else if capacity is None {
        Err(FromHeaderError::NoCapacity)
    } else if leak_per_second is None {
        Err(FromHeaderError::NoLeakPerSecond)
    } else if decimal(points->0, u16::MAX as nat) is None {
        Err(FromHeaderError::InvalidPoints)
    } else if decimal(capacity->0, u16::MAX as nat) is None {
        Err(FromHeaderError::InvalidCapacity)
    } else if decimal(leak_per_second->0, u8::MAX as nat) is None {
        Err(FromHeaderError::InvalidLeakPerSecond)
    } else if decimal(points->0, u16::MAX as nat)->0 > decimal(capacity->0, u16::MAX as nat)->0 {
        Err(FromHeaderError::InvalidPoints)
    } else {
        Ok(
            BucketState::fresh(
                decimal(points->0, u16::MAX as nat)->0,
                decimal(capacity->0, u16::MAX as nat)->0,
                decimal(leak_per_second->0, u8::MAX as nat)->0,
            ),
        )
    }
}

/// The bytes of an optional value.
pub open spec fn bytes_of(value: Option<&[u8]>) -> Option<Seq<u8>> {
    match value {
        Some(bytes) => Some(bytes@),
        None => None,
    }
}

/// Whether `result` is the bucket, or the error, that `expected` asks for.
pub open spec fn is_bucket_of(
    result: Result<LeakyBucket, FromHeaderError>,
    expected: Result<BucketState, FromHeaderError>,
) -> bool {
    match result {
        Ok(bucket) => expected == Ok::<BucketState, FromHeaderError>(bucket@) && bucket@.wf(),
        Err(error) => expected == Err::<BucketState, FromHeaderError>(error),
    }
}

impl LeakyBucket {
    /// Makes the bucket that the values of the three bucket headers
    /// describe, observed now; see [`bucket_from_values`] for what can be
    /// wrong with them.
    pub fn from_header_values(
        points: Option<&[u8]>,
        capacity: Option<&[u8]>,
        leak_per_second: Option<&[u8]>,
    ) -> (result: Result<LeakyBucket, FromHeaderError>)
        ensures
            is_bucket_of(
                result,
                bucket_from_values(bytes_of(points), bytes_of(capacity), bytes_of(leak_per_second)),
            ),
    {
        let points = match points {
            Some(points) => points,
            None => { return Err(FromHeaderError::NoPoints); },
        };
        let capacity = match capacity {
            Some(capacity) => capacity,
            None => { return Err(FromHeaderError::NoCapacity); },
        };
        let leak_per_second = match leak_per_second {
            Some(leak_per_second) => leak_per_second,
            None => { return Err(FromHeaderError::NoLeakPerSecond); },
        };
        let points = match parse_decimal(points, u16::MAX as u32) {
            Some(points) => points as u16,
            None => { return Err(FromHeaderError::InvalidPoints); },
        };
        let capacity = match parse_decimal(capacity, u16::MAX as u32) {
            Some(capacity) => capacity as u16,
            None => { return Err(FromHeaderError::InvalidCapacity); },
        };
        let leak_per_second = match parse_decimal(leak_per_second, u8::MAX as u32) {
            Some(leak_per_second) => leak_per_second as u8,
            None => { return Err(FromHeaderError::InvalidLeakPerSecond); },
        };
        match LeakyBucket::try_with_points(points, capacity, leak_per_second) {
            Ok(bucket) => Ok(bucket),
            Err(_) => Err(FromHeaderError::InvalidPoints),
        }
    }

    /// Makes the bucket that the headers of a response describe, by
    /// [`from_header_values`](Self::from_header_values) of the values under
    /// the three bucket headers.
    pub fn try_from(headers: &HeaderMap<HeaderValue>) -> (result: Result<
        LeakyBucket,
        FromHeaderError,
    >)
        ensures
            is_bucket_of(
                result,
                bucket_from_values(
                    header_lookup(*headers, BUCKET_POINTS_HEADER@),
                    header_lookup(*headers, BUCKET_CAPACITY_HEADER@),
                    header_lookup(*headers, BUCKET_LEAK_PER_SECOND_HEADER@),
                ),
            ),
    {
        let points = header_bytes(headers, BUCKET_POINTS_HEADER);
        let capacity = header_bytes(headers, BUCKET_CAPACITY_HEADER);
        let leak_per_second = header_bytes(headers, BUCKET_LEAK_PER_SECOND_HEADER);
        LeakyBucket::from_header_values(
            as_bytes(&points),
            as_bytes(&capacity),
            as_bytes(&leak_per_second),
        )
    }
}

/// Borrows the bytes of an optional value.
fn as_bytes(value: &Option<Vec<u8>>) -> (bytes: Option<&[u8]>)
    ensures
        bytes is Some == value is Some,
        bytes matches Some(slice) ==> slice@ == value->0@,
{
    match value {
        Some(owned) => Some(owned.as_slice()),
        None => None,
    }
}

} // verus!
