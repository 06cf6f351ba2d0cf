//! PostgreSQL's binary wire values: what the bytes of a cell mean.
//!
//! The integers, booleans and texts are decoded by `postgres_protocol`, and
//! the contracts here say what it returns, byte by byte. Timestamps, numerics
//! and arrays are decoded by `postgres`, `chrono`, `rust_decimal` and
//! `postgres_protocol` too; what they return is given a name, and the
//! converter's contracts speak of that name.

use postgres::fallible_iterator::FallibleIterator;
use vstd::prelude::*;
use vstd::utf8::{decode_utf8, valid_utf8};

verus! {

/// The unsigned integer that two bytes hold, most significant byte first.
pub open spec fn be_u16(bytes: Seq<u8>) -> int
    recommends
        bytes.len() == 2,
{
    bytes[0] * 0x100 + bytes[1]
}

/// The unsigned integer that four bytes hold, most significant byte first.
pub open spec fn be_u32(bytes: Seq<u8>) -> int
    recommends
        bytes.len() == 4,
{
    bytes[0] * 0x100_0000 + bytes[1] * 0x1_0000 + bytes[2] * 0x100 + bytes[3]
}

/// The unsigned integer that eight bytes hold, most significant byte first.
pub open spec fn be_u64(bytes: Seq<u8>) -> int
    recommends
        bytes.len() == 8,
{
    be_u32(bytes.subrange(0, 4)) * 0x1_0000_0000 + be_u32(bytes.subrange(4, 8))
}

/// The signed byte with the bit pattern of `byte`.
pub open spec fn as_i8(byte: u8) -> int {
    if byte >= 0x80 {
        byte - 0x100
    } else {
        byte as int
    }
}

/// The two's complement integer that two bytes hold.
pub open spec fn be_i16(bytes: Seq<u8>) -> int
    recommends
        bytes.len() == 2,
{
    if be_u16(bytes) >= 0x8000 {
        be_u16(bytes) - 0x1_0000
    } else {
        be_u16(bytes)
    }
}

/// The two's complement integer that four bytes hold.
pub open spec fn be_i32(bytes: Seq<u8>) -> int
    recommends
        bytes.len() == 4,
{
    if be_u32(bytes) >= 0x8000_0000 {
        be_u32(bytes) - 0x1_0000_0000
    } else {
        be_u32(bytes)
    }
}

/// The two's complement integer that eight bytes hold.
pub open spec fn be_i64(bytes: Seq<u8>) -> int
    recommends
        bytes.len() == 8,
{
    if be_u64(bytes) >= 0x8000_0000_0000_0000 {
        be_u64(bytes) - 0x1_0000_0000_0000_0000
    } else {
        be_u64(bytes)
    }
}

/// The hexadecimal digit of a value below sixteen, in lower case.
pub open spec fn hex_digit(nibble: int) -> char {
    if nibble == 0 {
        '0'
    } else if nibble == 1 {
        '1'
    } else if nibble == 2 {
        '2'
    } else if nibble == 3 {
        '3'
    } else if nibble == 4 {
        '4'
    } else if nibble == 5 {
        '5'
    } else if nibble == 6 {
        '6'
    } else if nibble == 7 {
        '7'
    } else if nibble == 8 {
        '8'
    } else if nibble == 9 {
        '9'
    } else if nibble == 10 {
        'a'
    } else if nibble == 11 {
        'b'
    } else if nibble == 12 {
        'c'
    } else if nibble == 13 {
        'd'
    } else if nibble == 14 {
        'e'
    } else {
        'f'
    }
}

/// Whether a hyphen stands at this place of a hyphenated UUID.
pub open spec fn is_hyphen_place(place: int) -> bool {
    place == 8 || place == 13 || place == 18 || place == 23
}

/// How many hyphens stand before this place of a hyphenated UUID.
pub open spec fn hyphens_before(place: int) -> int {
    if place < 8 {
        0
    } else if place < 13 {
        1
    } else if place < 18 {
        2
    } else if place < 23 {
        3
    } else {
        4
    }
}

/// The character at one place of the hyphenated form of sixteen bytes: a
/// hyphen after the eighth, twelfth, sixteenth and twentieth digit, else the
/// digits of the bytes in order, the high half of each byte first.
pub open spec fn hyphenated_char(bytes: Seq<u8>, place: int) -> char {
    if is_hyphen_place(place) {
        '-'
    } else {
        let digit = place - hyphens_before(place);
        if digit % 2 == 0 {
            hex_digit(bytes[digit / 2] as int / 16)
        } else {
            hex_digit(bytes[digit / 2] as int % 16)
        }
    }
}

/// The canonical text of a UUID: thirty-two lower-case hexadecimal digits in
/// groups of 8, 4, 4, 4 and 12, with hyphens between the groups.
pub open spec fn hyphenated(bytes: Seq<u8>) -> Seq<char>
    recommends
        bytes.len() == 16,
{
    Seq::new(36, |place: int| hyphenated_char(bytes, place))
}

/// The RFC 3339 text, in UTC, of the instant that the eight bytes of a
/// `TIMESTAMP` value denote; `None` where the bytes are no timestamp that
/// the calendar can hold.
pub uninterp spec fn timestamp_text(raw: Seq<u8>) -> Option<Seq<char>>;

/// The decimal text of the number that the bytes of a `NUMERIC` value
/// denote; `None` where the bytes are no finite numeric of at most 96 bits.
pub uninterp spec fn numeric_text(raw: Seq<u8>) -> Option<Seq<char>>;

/// How many groups of four zeros follow the digit groups of a `NUMERIC`
/// before its decimal point: the weight of the first group, plus one, less
/// the number of groups. The header gives the number of groups in its first
/// two bytes and the weight in the next two.
pub open spec fn numeric_zero_groups(raw: Seq<u8>) -> int
    recommends
        raw.len() >= 4,
{
    be_i16(raw.subrange(2, 4)) + 1 - be_u16(raw.subrange(0, 2))
}

/// Whether a `NUMERIC` is small enough to be handed to the decoder: fewer
/// than eight groups of zeros follow its digits. From eight groups on the
/// value is beyond 96 bits whatever its digits are, and no such value can be
/// decoded.
pub open spec fn numeric_in_reach(raw: Seq<u8>) -> bool {
    raw.len() >= 4 ==> numeric_zero_groups(raw) < 8
}

/// The number of dimensions and the elements, `None` for a null element, of
/// the array that the bytes denote; `None` where the bytes are no array.
pub uninterp spec fn array_parts(raw: Seq<u8>) -> Option<(nat, Seq<Option<Seq<u8>>>)>;

/// The bytes of each element of an array, as the contracts see them.
pub open spec fn element_bytes(elements: Seq<Option<Vec<u8>>>) -> Seq<Option<Seq<u8>>> {
    Seq::new(
        elements.len(),
        |i: int|
            match elements[i] {
                Some(bytes) => Some(bytes@),
                None => None,
            },
    )
}

/// `postgres_protocol::types::bool_from_sql`: a `BOOL` is one byte, and it
/// is true unless the byte is zero. Any other length is refused.
#[verifier::external_body]
pub(crate) fn bool_from_sql(raw: &[u8]) -> (value: Option<bool>)
    ensures
        value == if raw@.len() == 1 {
            Some(raw@[0] != 0)
        } else {
            None
        },
{
    postgres_protocol::types::bool_from_sql(raw).ok()
}

/// `postgres_protocol::types::char_from_sql`: a `"char"` is one byte, read
/// as a signed byte. Any other length is refused.
#[verifier::external_body]
pub(crate) fn char_from_sql(raw: &[u8]) -> (value: Option<i8>)
    ensures
        value is Some <==> raw@.len() == 1,
        value matches Some(v) ==> v == as_i8(raw@[0]),
{
    postgres_protocol::types::char_from_sql(raw).ok()
}

/// `postgres_protocol::types::int2_from_sql`: an `INT2` is two bytes in
/// two's complement, most significant byte first. Any other length is
/// refused.
#[verifier::external_body]
pub(crate) fn int2_from_sql(raw: &[u8]) -> (value: Option<i16>)
    ensures
        value is Some <==> raw@.len() == 2,
        value matches Some(v) ==> v == be_i16(raw@),
{
    postgres_protocol::types::int2_from_sql(raw).ok()
}

/// `postgres_protocol::types::int4_from_sql`: an `INT4` is four bytes in
/// two's complement, most significant byte first. Any other length is
/// refused.
#[verifier::external_body]
pub(crate) fn int4_from_sql(raw: &[u8]) -> (value: Option<i32>)
    ensures
        value is Some <==> raw@.len() == 4,
        value matches Some(v) ==> v == be_i32(raw@),
{
    postgres_protocol::types::int4_from_sql(raw).ok()
}

/// `postgres_protocol::types::int8_from_sql`: an `INT8` is eight bytes in
/// two's complement, most significant byte first. Any other length is
/// refused.
#[verifier::external_body]
pub(crate) fn int8_from_sql(raw: &[u8]) -> (value: Option<i64>)
    ensures
        value is Some <==> raw@.len() == 8,
        value matches Some(v) ==> v == be_i64(raw@),
{
    postgres_protocol::types::int8_from_sql(raw).ok()
}

/// `postgres_protocol::types::oid_from_sql`: an `OID` is four bytes,
/// unsigned, most significant byte first. Any other length is refused.
#[verifier::external_body]
pub(crate) fn oid_from_sql(raw: &[u8]) -> (value: Option<u32>)
    ensures
        value is Some <==> raw@.len() == 4,
        value matches Some(v) ==> v == be_u32(raw@),
{
    postgres_protocol::types::oid_from_sql(raw).ok()
}

/// `postgres_protocol::types::text_from_sql`: a text is its UTF-8 bytes.
/// Bytes that are not valid UTF-8 are refused.
#[verifier::external_body]
pub(crate) fn text_from_sql(raw: &[u8]) -> (value: Option<String>)
    ensures
        value is Some <==> valid_utf8(raw@),
        value matches Some(text) ==> text@ == decode_utf8(raw@),
{
    postgres_protocol::types::text_from_sql(raw).ok().map(String::from)
}

/// `FromSql::from_sql` of `uuid::Uuid`, then `Uuid::hyphenated`: a `UUID` is
/// sixteen bytes, written out as lower-case hexadecimal digits in groups of
/// 8, 4, 4, 4 and 12. Any other length is refused.
#[verifier::external_body]
pub(crate) fn uuid_from_sql(raw: &[u8]) -> (value: Option<String>)
    ensures
        value is Some <==> raw@.len() == 16,
        value matches Some(text) ==> text@ == hyphenated(raw@),
{
    let decoded = <uuid::Uuid as postgres::types::FromSql>::from_sql(
        &postgres::types::Type::UUID,
        raw,
    );
    match decoded {
        Ok(id) => Some(id.hyphenated().to_string()),
        Err(_) => None,
    }
}

/// `FromSql::from_sql` of `chrono::NaiveDateTime`, then
/// `DateTime::<Utc>::to_rfc3339` of that instant taken as UTC. A `TIMESTAMP`
/// is eight bytes; the text depends on the bytes alone.
#[verifier::external_body]
pub(crate) fn timestamp_from_sql(raw: &[u8]) -> (value: Option<String>)
    ensures
        match value {
            Some(text) => timestamp_text(raw@) == Some(text@),
            None => timestamp_text(raw@) is None,
        },
        raw@.len() != 8 ==> value is None,
{
    let decoded = <chrono::NaiveDateTime as postgres::types::FromSql>::from_sql(
        &postgres::types::Type::TIMESTAMP,
        raw,
    );
    match decoded {
        Ok(at) => Some(
            chrono::DateTime::<chrono::Utc>::from_naive_utc_and_offset(at, chrono::Utc).to_rfc3339(),
        ),
        Err(_) => None,
    }
}

/// Whether the header of a `NUMERIC` lets the value be handed to the
/// decoder.
pub fn numeric_header_in_reach(raw: &[u8]) -> (in_reach: bool)
    ensures
        in_reach == numeric_in_reach(raw@),
{
    if raw.len() < 4 {
        return true;
    }
    let groups: i32 = raw[0] as i32 * 0x100 + raw[1] as i32;
    let unsigned_weight: i32 = raw[2] as i32 * 0x100 + raw[3] as i32;
    let weight: i32 = if unsigned_weight >= 0x8000 {
        unsigned_weight - 0x1_0000
    } else {
        unsigned_weight
    };
    assert(groups == be_u16(raw@.subrange(0, 2)));
    assert(weight == be_i16(raw@.subrange(2, 4)));
    weight + 1 - groups < 8
}

/// `FromSql::from_sql` of `rust_decimal::Decimal`, then its `to_string`. The
/// text depends on the bytes alone. The decoder panics on a value with
/// eight or nine groups of zeros after its digits, so such bytes are not
/// admitted.
#[verifier::external_body]
pub(crate) fn numeric_from_sql(raw: &[u8]) -> (value: Option<String>)
    requires
        numeric_in_reach(raw@),
    ensures
        match value {
            Some(text) => numeric_text(raw@) == Some(text@),
            None => numeric_text(raw@) is None,
        },
{
    let decoded = <rust_decimal::Decimal as postgres::types::FromSql>::from_sql(
        &postgres::types::Type::NUMERIC,
        raw,
    );
    match decoded {
        Ok(number) => Some(number.to_string()),
        Err(_) => None,
    }
}

/// `postgres_protocol::types::array_from_sql`, then the count of
/// `Array::dimensions` and the items of `Array::values`, each copied out; a
/// failure of any of the three is a failure of the whole. The parts depend
/// on the bytes alone.
#[verifier::external_body]
pub(crate) fn array_from_sql(raw: &[u8]) -> (parts: Option<(usize, Vec<Option<Vec<u8>>>)>)
    ensures
        match parts {
            Some((dimensions, elements)) => array_parts(raw@) == Some(
                (dimensions as nat, element_bytes(elements@)),
            ),
            None => array_parts(raw@) is None,
        },
{
    let array = postgres_protocol::types::array_from_sql(raw).ok()?;
    let dimensions = array.dimensions().count().ok()?;
    let mut values = array.values();
    let mut elements = Vec::new();
    while let Some(item) = values.next().ok()? {
        elements.push(item.map(<[u8]>::to_vec));
    }
    Some((dimensions, elements))
}

/// The bits of a `FLOAT4`: four bytes, most significant byte first. Any other
/// length is refused. The bits are read as an integer; what number they
/// stand for is left to whoever writes the JSON out.
pub fn float4_bits(raw: &[u8]) -> (bits: Option<u32>)
    ensures
        bits is Some <==> raw@.len() == 4,
        bits matches Some(b) ==> b == be_u32(raw@),
{
    if raw.len() != 4 {
        return None;
    }
    let b0 = raw[0] as u32;
    let b1 = raw[1] as u32;
    let b2 = raw[2] as u32;
    let b3 = raw[3] as u32;
    Some(b0 * 0x100_0000 + b1 * 0x1_0000 + b2 * 0x100 + b3)
}

/// The bits of a `FLOAT8`: eight bytes, most significant byte first. Any
/// other length is refused.
pub fn float8_bits(raw: &[u8]) -> (bits: Option<u64>)
    ensures
        bits is Some <==> raw@.len() == 8,
        bits matches Some(b) ==> b == be_u64(raw@),
{
    if raw.len() != 8 {
        return None;
    }
    let b0 = raw[0] as u64;
    let b1 = raw[1] as u64;
    let b2 = raw[2] as u64;
    let b3 = raw[3] as u64;
    let b4 = raw[4] as u64;
    let b5 = raw[5] as u64;
    let b6 = raw[6] as u64;
    let b7 = raw[7] as u64;
    let high = b0 * 0x100_0000 + b1 * 0x1_0000 + b2 * 0x100 + b3;
    let low = b4 * 0x100_0000 + b5 * 0x1_0000 + b6 * 0x100 + b7;
    assert(high == be_u32(raw@.subrange(0, 4)));
    assert(low == be_u32(raw@.subrange(4, 8)));
    Some(high * 0x1_0000_0000 + low)
}

} // verus!
