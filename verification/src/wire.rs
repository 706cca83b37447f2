//! The binary form of an interval on the PostgreSQL wire.
//!
//! Sixteen bytes, no more and no less: the microseconds as a signed 64-bit
//! number, then the days and then the months as signed 32-bit numbers, each in
//! two's complement with the most significant byte first.
//!
//! Writing goes through `sqlx`, into its argument buffer.  Reading is done
//! here, on the bytes that a row hands out, and is proved to undo the writing.

use crate::interval::Interval;
use sqlx::postgres::types::PgInterval;
use sqlx::postgres::PgArgumentBuffer;
use sqlx::Encode;
use vstd::prelude::*;

verus! {

/// 256 to the power `width`: how many numbers `width` bytes can tell apart.
pub open spec fn radix_power(width: nat) -> nat
    decreases width,
{
    if width == 0 {
        1
    } else {
        256 * radix_power((width - 1) as nat)
    }
}

/// The lowest `width` base-256 digits of `value`, most significant first.
pub open spec fn big_endian(value: nat, width: nat) -> Seq<u8>
    decreases width,
{
    if width == 0 {
        Seq::empty()
    } else {
        big_endian(value / 256, (width - 1) as nat).push((value % 256) as u8)
    }
}

/// The number that base-256 digits spell, most significant first.
pub open spec fn big_endian_value(digits: Seq<u8>) -> nat
    decreases digits.len(),
{
    if digits.len() == 0 {
        0
    } else {
        256 * big_endian_value(digits.drop_last()) + digits.last() as nat
    }
}

/// The number below `256^width` that stands for `value` in two's complement.
pub open spec fn as_unsigned(value: int, width: nat) -> nat {
    if value >= 0 {
        value as nat
    } else {
        (value + radix_power(width)) as nat
    }
}

/// The number that `value` stands for in two's complement of `width` bytes.
pub open spec fn as_signed(value: nat, width: nat) -> int {
    if 2 * value < radix_power(width) {
        value as int
    } else {
        value - radix_power(width)
    }
}

/// The `width` bytes of a signed number.
pub open spec fn signed_bytes(value: int, width: nat) -> Seq<u8> {
    big_endian(as_unsigned(value, width), width)
}

/// The signed number that bytes hold.
pub open spec fn signed_value(bytes: Seq<u8>) -> int {
    as_signed(big_endian_value(bytes), bytes.len())
}

/// The sixteen bytes of an interval.
pub open spec fn wire_image(interval: Interval) -> Seq<u8> {
    signed_bytes(interval.microseconds as int, 8) + signed_bytes(interval.days as int, 4)
        + signed_bytes(interval.months as int, 4)
}

/// The interval that the first sixteen bytes of a payload hold.
pub open spec fn wire_reading(payload: Seq<u8>) -> Interval
    recommends
        payload.len() >= 16,
{
    Interval {
        months: signed_value(payload.subrange(12, 16)) as i32,
        days: signed_value(payload.subrange(8, 12)) as i32,
        microseconds: signed_value(payload.subrange(0, 8)) as i64,
    }
}

/// How a value travels.
#[derive(Debug, Clone, Copy, PartialEq, Eq, Structural)]
pub enum WireFormat {
    /// As text, which simple queries use.  Intervals are not read from it.
    Text,
    /// As bytes in the layout of this module.
    Binary,
}

/// A value as a row hands it out: a format and, unless the value is the SQL
/// null, its bytes.
#[derive(Debug, Clone, Copy)]
pub struct WireValue<'a> {
    pub format: WireFormat,
    pub payload: Option<&'a [u8]>,
}

/// Why a value is no interval.
#[derive(Debug, Clone, Copy, PartialEq, Eq, Structural)]
pub enum WireDecodeError {
    /// The value travels as text.
    TextFormat,
    /// The value is the SQL null.
    UnexpectedNull,
    /// The payload ends before the sixteenth byte.
    UnexpectedEnd,
}

/// Whether an encoded value is the SQL null.
#[derive(Debug, Clone, Copy, PartialEq, Eq, Structural)]
pub enum IsNull {
    Yes,
    No,
}

impl WireValue<'_> {
    /// The bytes of the value, if it has any.
    pub open spec fn bytes(self) -> Option<Seq<u8>> {
        match self.payload {
            Some(payload) => Some(payload@),
            None => None,
        }
    }
}

/// What reading makes of a value.  The format is looked at first, then whether
/// there are bytes, then whether there are enough; bytes after the sixteenth
/// are not looked at.
pub open spec fn decoded(format: WireFormat, bytes: Option<Seq<u8>>) -> Result<
    Interval,
    WireDecodeError,
> {
    match (format, bytes) {
        (WireFormat::Text, _) => Err(WireDecodeError::TextFormat),
        (WireFormat::Binary, None) => Err(WireDecodeError::UnexpectedNull),
        (WireFormat::Binary, Some(payload)) => if payload.len() < 16 {
            Err(WireDecodeError::UnexpectedEnd)
        } else {
            Ok(wire_reading(payload))
        },
    }
}

/// The argument buffer of `sqlx`, into which values are encoded.
#[verifier::external_type_specification]
#[verifier::external_body]
pub struct ExPgArgumentBuffer(PgArgumentBuffer);

/// The bytes that an argument buffer holds, first written first.
pub uninterp spec fn argument_bytes(buffer: PgArgumentBuffer) -> Seq<u8>;

/// `<PgInterval as Encode<Postgres>>::encode_by_ref` on an interval of the
/// three fields.
/// Trusted: it appends the microseconds in eight bytes, the days in four and
/// the months in four, each most significant byte first, touches nothing that
/// the buffer held, and reports a value that is not null.
#[verifier::external_body]
fn append_pg_interval(months: i32, days: i32, microseconds: i64, buf: &mut PgArgumentBuffer) -> (r:
    Option<IsNull>)
    ensures
        r == Some(IsNull::No),
        argument_bytes(*final(buf)) == argument_bytes(*old(buf)) + wire_image(
            Interval { months, days, microseconds },
        ),
{
    match (PgInterval { months, days, microseconds }).encode_by_ref(buf) {
        Ok(sqlx::encode::IsNull::No) => Some(IsNull::No),
        Ok(sqlx::encode::IsNull::Yes) => Some(IsNull::Yes),
        Err(_) => None,
    }
}

/// `width` bytes, each below 256, spell a number below `256^width`.
pub proof fn lemma_value_in_range(digits: Seq<u8>)
    ensures
        big_endian_value(digits) < radix_power(digits.len()),
    decreases digits.len(),
{
    if digits.len() > 0 {
        lemma_value_in_range(digits.drop_last());
    }
}

/// Writing a number in `width` digits gives `width` digits.
pub proof fn lemma_big_endian_len(value: nat, width: nat)
    ensures
        big_endian(value, width).len() == width,
    decreases width,
{
    if width > 0 {
        lemma_big_endian_len(value / 256, (width - 1) as nat);
    }
}

/// A number that fits in `width` digits is read back from them.
pub proof fn lemma_value_of_digits(value: nat, width: nat)
    requires
        value < radix_power(width),
    ensures
        big_endian_value(big_endian(value, width)) == value,
    decreases width,
{
    if width > 0 {
        let rest = big_endian(value / 256, (width - 1) as nat);
        lemma_value_of_digits(value / 256, (width - 1) as nat);
        assert(big_endian(value, width).drop_last() == rest);
    }
}

/// Digits are written back from the number they spell.
pub proof fn lemma_digits_of_value(digits: Seq<u8>)
    ensures
        big_endian(big_endian_value(digits), digits.len()) == digits,
    decreases digits.len(),
{
    if digits.len() > 0 {
        let rest = digits.drop_last();
        lemma_digits_of_value(rest);
        assert(big_endian_value(digits) / 256 == big_endian_value(rest));
        assert(big_endian_value(digits) % 256 == digits.last() as nat);
        assert(rest.push(digits.last()) == digits);
    }
}

/// A signed number of `width` bytes is read back from its bytes.
pub proof fn lemma_signed_round_trip(value: int, width: nat)
    requires
        -radix_power(width) <= 2 * value < radix_power(width),
    ensures
        signed_bytes(value, width).len() == width,
        signed_value(signed_bytes(value, width)) == value,
{
    lemma_big_endian_len(as_unsigned(value, width), width);
    lemma_value_of_digits(as_unsigned(value, width), width);
}

/// Bytes are written back from the signed number they hold.
pub proof fn lemma_bytes_round_trip(bytes: Seq<u8>)
    ensures
        signed_bytes(signed_value(bytes), bytes.len()) == bytes,
        -radix_power(bytes.len()) <= 2 * signed_value(bytes) < radix_power(bytes.len()),
{
    lemma_value_in_range(bytes);
    lemma_digits_of_value(bytes);
}

/// Four bytes tell apart `2^32` numbers and eight bytes `2^64`.
pub proof fn lemma_field_widths()
    ensures
        radix_power(4) == 0x1_0000_0000,
        radix_power(8) == 0x1_0000_0000_0000_0000,
{
    reveal_with_fuel(radix_power, 9);
}

/// The wire form is sixteen bytes long, and reading it gives the interval
/// back: `decode` undoes `encode_by_ref`, for every interval.
pub proof fn lemma_wire_round_trip(interval: Interval)
    ensures
        wire_image(interval).len() == 16,
        wire_reading(wire_image(interval)) == interval,
        decoded(WireFormat::Binary, Some(wire_image(interval))) == Ok::<Interval, WireDecodeError>(
            interval,
        ),
{
    lemma_field_widths();
    let image = wire_image(interval);
    let microseconds = signed_bytes(interval.microseconds as int, 8);
    let days = signed_bytes(interval.days as int, 4);
    let months = signed_bytes(interval.months as int, 4);
    lemma_signed_round_trip(interval.microseconds as int, 8);
    lemma_signed_round_trip(interval.days as int, 4);
    lemma_signed_round_trip(interval.months as int, 4);
    assert(image.subrange(0, 8) == microseconds);
    assert(image.subrange(8, 12) == days);
    assert(image.subrange(12, 16) == months);
}

/// Sixteen bytes are the wire form of the interval read from them: no two
/// payloads of sixteen bytes hold the same interval.
pub proof fn lemma_payload_round_trip(payload: Seq<u8>)
    requires
        payload.len() == 16,
    ensures
        wire_image(wire_reading(payload)) == payload,
{
    lemma_field_widths();
    lemma_bytes_round_trip(payload.subrange(0, 8));
    lemma_bytes_round_trip(payload.subrange(8, 12));
    lemma_bytes_round_trip(payload.subrange(12, 16));
    assert(payload.subrange(0, 8) + payload.subrange(8, 12) + payload.subrange(12, 16) == payload);
}

/// Reads the number that `width` bytes from `start` spell.
fn read_big_endian(bytes: &[u8], start: usize, width: usize) -> (value: u64)
    requires
        width <= 8,
        start + width <= bytes@.len() <= usize::MAX,
    ensures
        value == big_endian_value(bytes@.subrange(start as int, start + width)),
{
    let mut value: u64 = 0;
    let mut read: usize = 0;
    while read < width
        invariant
            read <= width <= 8,
            start + width <= bytes@.len() <= usize::MAX,
            value == big_endian_value(bytes@.subrange(start as int, start + read)),
        decreases width - read,
    {
        proof {
            let before = bytes@.subrange(start as int, start + read);
            let after = bytes@.subrange(start as int, start + read + 1);
            lemma_value_in_range(before);
            reveal_with_fuel(radix_power, 9);
            assert(radix_power(read as nat) <= radix_power(7));
            assert(after.drop_last() == before);
        }
        value = value * 256 + bytes[start + read] as u64;
        read = read + 1;
    }
    value
}

/// The signed 32-bit number that four bytes from `start` hold.
fn read_i32(bytes: &[u8], start: usize) -> (value: i32)
    requires
        start + 4 <= bytes@.len() <= usize::MAX,
    ensures
        value == signed_value(bytes@.subrange(start as int, start + 4)),
{
    let raw = read_big_endian(bytes, start, 4);
    proof {
        lemma_field_widths();
        lemma_value_in_range(bytes@.subrange(start as int, start + 4));
    }
    if raw < 0x8000_0000 {
        raw as i32
    } else {
        (raw - 0x8000_0000) as i32 + i32::MIN
    }
}

/// The signed 64-bit number that eight bytes from `start` hold.
fn read_i64(bytes: &[u8], start: usize) -> (value: i64)
    requires
        start + 8 <= bytes@.len() <= usize::MAX,
    ensures
        value == signed_value(bytes@.subrange(start as int, start + 8)),
{
    let raw = read_big_endian(bytes, start, 8);
    proof {
        lemma_field_widths();
        lemma_value_in_range(bytes@.subrange(start as int, start + 8));
    }
    if raw < 0x8000_0000_0000_0000 {
        raw as i64
    } else {
        (raw - 0x8000_0000_0000_0000) as i64 + i64::MIN
    }
}

impl Interval {
    /// Reads an interval from a value of a row.
    ///
    /// A value that travels as text is refused, then a null, then a payload
    /// of fewer than sixteen bytes.  Otherwise the three fields are what the
    /// first sixteen bytes hold; no range is imposed on them.
    pub fn decode(value: WireValue<'_>) -> (r: Result<Interval, WireDecodeError>)
        ensures
            r == decoded(value.format, value.bytes()),
            r is Ok <==> value.format == WireFormat::Binary && value.bytes() is Some
                && value.bytes()->Some_0.len() >= 16,
    {
        match value.format {
            WireFormat::Text => Err(WireDecodeError::TextFormat),
            WireFormat::Binary => match value.payload {
                None => Err(WireDecodeError::UnexpectedNull),
                Some(payload) => {
                    if payload.len() < 16 {
                        Err(WireDecodeError::UnexpectedEnd)
                    } else {
                        let microseconds = read_i64(payload, 0);
                        let days = read_i32(payload, 8);
                        let months = read_i32(payload, 12);
                        Ok(Interval { months, days, microseconds })
                    }
                },
            },
        }
    }

    /// Appends the wire form of the interval to an argument buffer of `sqlx`.
    ///
    /// Sixteen bytes are added behind what the buffer held.  The value is
    /// never null and there is no failure.
    pub fn encode_by_ref(&self, buf: &mut PgArgumentBuffer) -> (r: IsNull)
        ensures
            r == IsNull::No,
            argument_bytes(*final(buf)) == argument_bytes(*old(buf)) + wire_image(*self),
            argument_bytes(*final(buf)).len() == argument_bytes(*old(buf)).len() + 16,
            decoded(
                WireFormat::Binary,
                Some(argument_bytes(*final(buf)).skip(argument_bytes(*old(buf)).len() as int)),
            ) == Ok::<Interval, WireDecodeError>(*self),
    {
        proof {
            lemma_wire_round_trip(*self);
        }
        let written = append_pg_interval(self.months, self.days, self.microseconds, buf);
        proof {
            let before = argument_bytes(*old(buf));
            assert((before + wire_image(*self)).skip(before.len() as int) == wire_image(*self));
        }
        written.unwrap()
    }

    /// The number of bytes that [`Interval::encode_by_ref`] appends, for
    /// callers that size a buffer beforehand.
    pub fn size_hint(&self) -> (size: usize)
        ensures
            size == 16,
            size == wire_image(*self).len(),
    {
        proof {
            lemma_wire_round_trip(*self);
        }
        broadcast use vstd::layout::layout_of_primitives;

        2 * core::mem::size_of::<i64>()
    }
}

} // verus!
