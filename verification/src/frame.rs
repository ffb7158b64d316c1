//! The frame codec: the command that is written to the peripheral, and the
//! notification frames that come back, each a payload followed by a two-byte
//! checksum field.

use crate::checksum::{checksum, crc16, single_byte_change_changes_checksum};
use vstd::prelude::*;

verus! {

/// Why a notification frame was turned down.
#[derive(Clone, Copy, Debug, PartialEq, Eq, Structural)]
pub enum FrameError {
    /// The frame has fewer than the two bytes of the checksum field.
    FrameTooShort,
    /// The checksum field does not hold the checksum of the payload.
    ChecksumMismatch,
}

/// The low half of a 16-bit value.
pub open spec fn low_byte(value: u16) -> u8 {
    (value % 256) as u8
}

/// The high half of a 16-bit value.
pub open spec fn high_byte(value: u16) -> u8 {
    (value / 256) as u8
}

/// The value of a checksum field whose first byte is `first` and whose second
/// byte is `second`: the second byte is the high half, the first the low half.
pub open spec fn field_value(first: u8, second: u8) -> u16 {
    (second * 256 + first) as u16
}

/// The payload region of a frame: everything before the last two bytes.
pub open spec fn payload_of(raw: Seq<u8>) -> Seq<u8>
    recommends
        raw.len() >= 2,
{
    raw.take(raw.len() - 2)
}

/// The checksum that a frame declares in its last two bytes.
pub open spec fn declared_checksum(raw: Seq<u8>) -> u16
    recommends
        raw.len() >= 2,
{
    field_value(raw[raw.len() - 2], raw[raw.len() - 1])
}

/// The frame that carries `payload` and declares `declared`.
pub open spec fn framed(payload: Seq<u8>, declared: u16) -> Seq<u8> {
    payload.push(low_byte(declared)).push(high_byte(declared))
}

/// What decoding a frame gives: payload and declared checksum, or
/// `FrameTooShort` where the checksum field is not whole.
pub open spec fn decoded(raw: Seq<u8>) -> Result<(Seq<u8>, u16), FrameError> {
    if raw.len() < 2 {
        Err(FrameError::FrameTooShort)
    } else {
        Ok((payload_of(raw), declared_checksum(raw)))
    }
}

/// A payload is valid for a declared checksum when that is its checksum.
pub open spec fn is_valid(payload: Seq<u8>, declared: u16) -> bool {
    checksum(payload) == declared
}

/// What checking a frame gives: the decoded frame where its declared checksum
/// is the checksum of its payload, and otherwise the reason it is turned down.
pub open spec fn checked(raw: Seq<u8>) -> Result<(Seq<u8>, u16), FrameError> {
    if raw.len() < 2 {
        Err(FrameError::FrameTooShort)
    } else if is_valid(payload_of(raw), declared_checksum(raw)) {
        Ok((payload_of(raw), declared_checksum(raw)))
    } else {
        Err(FrameError::ChecksumMismatch)
    }
}

/// Whether an executable result of decoding or checking is the one the model
/// gives.
pub open spec fn agrees(
    got: Result<(Vec<u8>, u16), FrameError>,
    model: Result<(Seq<u8>, u16), FrameError>,
) -> bool {
    match got {
        Ok((payload, declared)) => model == Ok::<(Seq<u8>, u16), FrameError>((payload@, declared)),
        Err(e) => model == Err::<(Seq<u8>, u16), FrameError>(e),
    }
}

/// Reads a checksum field: `src[1]` is the high half of the value and
/// `src[0]` the low half.
pub fn u8asu16be(src: [u8; 2]) -> (value: u16)
    ensures
        value == field_value(src[0], src[1]),
{
    let first: u8 = src[0];
    let second: u8 = src[1];
    assert(((second as u16) << 8) | (first as u16) == (second as u16) * 256 + (first as u16))
        by (bit_vector);
    ((second as u16) << 8) | first as u16
}

/// The bytes to write for a command. In this protocol version a command is
/// written as it is laid out, with nothing added or changed.
pub fn encode_command(layout: &[u8; 7]) -> (bytes: Vec<u8>)
    ensures
        bytes@ == layout@,
{
    let mut bytes: Vec<u8> = Vec::new();
    let mut i: usize = 0;
    while i < 7
        invariant
            i <= 7,
            bytes@ == layout@.take(i as int),
        decreases 7 - i,
    {
        bytes.push(layout[i]);
        i = i + 1;
    }
    bytes
}

/// Splits a notification frame into its payload and the checksum it declares.
/// A frame of fewer than two bytes is turned down as `FrameTooShort`; every
/// other frame decodes.
pub fn decode_notification(raw: &[u8]) -> (r: Result<(Vec<u8>, u16), FrameError>)
    ensures
        agrees(r, decoded(raw@)),
        raw@.len() < 2 <==> r == Err::<(Vec<u8>, u16), FrameError>(FrameError::FrameTooShort),
        raw@.len() >= 2 <==> r is Ok,
{
    let n: usize = raw.len();
    if n < 2 {
        return Err(FrameError::FrameTooShort);
    }
    let mut payload: Vec<u8> = Vec::new();
    let mut i: usize = 0;
    while i < n - 2
        invariant
            n == raw@.len(),
            n >= 2,
            i <= n - 2,
            payload@ == raw@.take(i as int),
        decreases n - 2 - i,
    {
        payload.push(raw[i]);
        i = i + 1;
    }
    let declared: u16 = u8asu16be([raw[n - 2], raw[n - 1]]);
    Ok((payload, declared))
}

/// Whether `declared_checksum` is the checksum of `payload`.
pub fn validate(payload: &[u8], declared_checksum: u16) -> (valid: bool)
    ensures
        valid == is_valid(payload@, declared_checksum),
{
    crc16(payload) == declared_checksum
}

/// Decodes a notification frame and validates it: the payload and its checksum
/// where the frame is whole and the checksum holds, `FrameTooShort` where the
/// frame has fewer than two bytes, `ChecksumMismatch` where the declared
/// checksum is not that of the payload.
pub fn check_notification(raw: &[u8]) -> (r: Result<(Vec<u8>, u16), FrameError>)
    ensures
        agrees(r, checked(raw@)),
{
    match decode_notification(raw) {
        Ok((payload, declared)) => {
            if validate(payload.as_slice(), declared) {
                Ok((payload, declared))
            } else {
                Err(FrameError::ChecksumMismatch)
            }
        },
        Err(e) => Err(e),
    }
}

/// A 16-bit value is the field value of its two halves, low half first.
pub proof fn halves_give_value_back(value: u16)
    ensures
        field_value(low_byte(value), high_byte(value)) == value,
{
}

/// Decoding undoes framing: a frame made of a payload and a declared checksum
/// decodes to exactly that payload and that checksum.
pub proof fn decoding_undoes_framing(payload: Seq<u8>, declared: u16)
    ensures
        decoded(framed(payload, declared)) == Ok::<(Seq<u8>, u16), FrameError>((payload, declared)),
{
    let raw = framed(payload, declared);
    assert(payload_of(raw) =~= payload);
    halves_give_value_back(declared);
}

/// Framing undoes decoding: a frame of two bytes or more is its payload
/// followed by its declared checksum, low half first.
pub proof fn framing_undoes_decoding(raw: Seq<u8>)
    requires
        raw.len() >= 2,
    ensures
        framed(payload_of(raw), declared_checksum(raw)) == raw,
{
    assert(framed(payload_of(raw), declared_checksum(raw)) =~= raw);
}

/// Round trip: a payload framed with its own checksum decodes to that payload
/// and that checksum, validates, and passes the check.
pub proof fn framed_payload_round_trips(payload: Seq<u8>)
    ensures
        decoded(framed(payload, checksum(payload))) == Ok::<(Seq<u8>, u16), FrameError>(
            (payload, checksum(payload)),
        ),
        is_valid(payload, checksum(payload)),
        checked(framed(payload, checksum(payload))) == Ok::<(Seq<u8>, u16), FrameError>(
            (payload, checksum(payload)),
        ),
{
    decoding_undoes_framing(payload, checksum(payload));
}

/// A payload in which one byte was changed is not valid for the checksum of
/// the payload as it was.
pub proof fn changed_payload_is_not_valid(payload: Seq<u8>, at: int, byte: u8)
    requires
        0 <= at < payload.len(),
        byte != payload[at],
    ensures
        !is_valid(payload.update(at, byte), checksum(payload)),
        checked(framed(payload.update(at, byte), checksum(payload))) == Err::<
            (Seq<u8>, u16),
            FrameError,
        >(FrameError::ChecksumMismatch),
{
    single_byte_change_changes_checksum(payload, at, byte);
    decoding_undoes_framing(payload.update(at, byte), checksum(payload));
}

} // verus!
