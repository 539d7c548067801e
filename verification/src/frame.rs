//! Modbus-RTU frames for holding registers.
//!
//! Request frames are produced and replies are examined by the `rmodbus`
//! crate. The functions in this file that call it are trusted: their
//! contracts are taken from its source, not proved.

use fixedvec::FixedVec;
use rmodbus::client::ModbusRequest;
use rmodbus::consts::ModbusFunction;
use rmodbus::{guess_response_frame_len, ErrorKind, ModbusProto};
use vstd::prelude::*;

verus! {

/// Function code "read holding registers".
pub const READ_HOLDINGS: u8 = 0x03;

/// Function code "write single holding register".
pub const WRITE_HOLDING: u8 = 0x06;

/// Function code "write multiple holding registers".
pub const WRITE_HOLDINGS: u8 = 0x10;

/// Number of reply bytes that must be on hand before the length of the whole
/// reply can be told.
pub const HEAD_LEN: usize = 6;

/// Size of the buffers that hold one frame.
pub const FRAME_CAPACITY: usize = 256;

/// Largest number of registers that one bulk write can carry in a frame of
/// `FRAME_CAPACITY` bytes.
pub const MAX_BULK_REGISTERS: usize = 123;

/// The error type of `rmodbus`, carried through unopened.
#[verifier::external_type_specification]
#[verifier::external_body]
pub struct ExErrorKind(ErrorKind);

/// Why an operation on the Modbus link failed.
#[derive(Clone, Copy, Debug, PartialEq, Eq)]
pub enum ModbusError {
    /// The link cannot run at the baud rate asked for.
    InvalidBaudRate,
    /// The serial line did not take or deliver the bytes in time.
    Timeout,
    /// A frame was refused: it does not fit its buffer, or the reply is
    /// damaged, comes from another unit or reports an exception.
    Frame(ErrorKind),
    /// The head of a reply announces no frame length.
    Length,
    /// A read was answered with a frame that carries no register.
    NoData,
    /// The host reported something that the exchange was not waiting for.
    OutOfTurn,
}

/// The more significant byte of a word.
pub open spec fn high_byte(w: u16) -> u8 {
    (w / 256) as u8
}

/// The less significant byte of a word.
pub open spec fn low_byte(w: u16) -> u8 {
    (w % 256) as u8
}

/// The 16-bit word with the given bytes, most significant first.
pub open spec fn word(high: u8, low: u8) -> u16 {
    (high * 256 + low) as u16
}

/// The six bytes that open every request: unit, function, register address
/// and one more word (a count or a value), each word most significant byte
/// first.
pub open spec fn request_head(unit: u8, function: u8, reg: u16, arg: u16) -> Seq<u8> {
    seq![unit, function, high_byte(reg), low_byte(reg), high_byte(arg), low_byte(arg)]
}

/// Total length of an RTU reply as its second and third byte announce it:
/// a read reply carries a byte count, a write reply is eight bytes, an
/// exception reply five.
pub open spec fn announced_len(function: u8, count: u8) -> Option<u8> {
    if function >= 0x80 {
        Some(5u8)
    } else if 1 <= function <= 4 {
        if count <= 250 {
            Some((count + 5) as u8)
        } else {
            None
        }
    } else if function == 5 || function == 6 || function == 15 || function == 16 {
        Some(8u8)
    } else {
        None
    }
}

/// The registers that an accepted read reply of more than five bytes
/// carries, cut to `count`: two bytes each, from the fourth byte on, the
/// last two bytes being the checksum.
pub open spec fn reply_words(reply: Seq<u8>, count: u16) -> Seq<u16> {
    let carried = (reply.len() - 5) / 2;
    let n = if count <= carried { count as int } else { carried };
    Seq::new(n as nat, |i: int| word(reply[3 + 2 * i], reply[4 + 2 * i]))
}

/// The request frame "read `count` holding registers from `reg`" for `unit`,
/// checksum included.
pub uninterp spec fn read_request_frame(unit: u8, reg: u16, count: u16) -> Seq<u8>;

/// The request frame "write `value` to holding register `reg`" for `unit`,
/// checksum included.
pub uninterp spec fn write_request_frame(unit: u8, reg: u16, value: u16) -> Seq<u8>;

/// The request frame "write `values` to the holding registers from `reg` on"
/// for `unit`, checksum included.
pub uninterp spec fn bulk_write_request_frame(unit: u8, reg: u16, values: Seq<u16>) -> Seq<u8>;

/// What the frame checker says of `reply` as the answer of `unit` to a
/// request with the given function code.
pub uninterp spec fn reply_verdict(unit: u8, function: u8, reply: Seq<u8>) -> Result<(), ErrorKind>;

/// What the frame checker says of `reply` as the answer of `unit` to a read
/// of `count` holding registers, with the registers it found.
pub uninterp spec fn registers_verdict(unit: u8, count: u16, reply: Seq<u8>) -> Result<
    Seq<u16>,
    ErrorKind,
>;

/// Calls `rmodbus::guess_response_frame_len` for the RTU protocol. The
/// result is the length that `announced_len` gives for the second and third
/// byte of `head`; `None` stands for the one error that the call returns.
#[verifier::external_body]
pub(crate) fn reply_frame_len(head: &[u8]) -> (r: Option<u8>)
    requires
        head@.len() >= HEAD_LEN,
    ensures
        r == announced_len(head@[1], head@[2]),
{
    guess_response_frame_len(head, ModbusProto::Rtu).ok()
}

/// Calls `ModbusRequest::generate_get_holdings` on a buffer of
/// `FRAME_CAPACITY` bytes. It always succeeds, with a frame of eight bytes
/// that opens with `request_head`.
#[verifier::external_body]
pub(crate) fn encode_read(unit: u8, reg: u16, count: u16) -> (r: Result<Vec<u8>, ErrorKind>)
    ensures
        r is Ok,
        r matches Ok(f) ==> f@ == read_request_frame(unit, reg, count),
        r matches Ok(f) ==> f@.len() == 8 && f@.subrange(0, 6) == request_head(
            unit,
            READ_HOLDINGS,
            reg,
            count,
        ),
{
    let mut space = [0u8; FRAME_CAPACITY];
    let mut frame = FixedVec::new(&mut space);
    let mut request = ModbusRequest::new(unit, ModbusProto::Rtu);
    request.generate_get_holdings(reg, count, &mut frame)?;
    Ok(frame.as_slice().to_vec())
}

/// Calls `ModbusRequest::generate_set_holding` on a buffer of
/// `FRAME_CAPACITY` bytes. It always succeeds, with a frame of eight bytes
/// that opens with `request_head`.
#[verifier::external_body]
pub(crate) fn encode_write(unit: u8, reg: u16, value: u16) -> (r: Result<Vec<u8>, ErrorKind>)
    ensures
        r is Ok,
        r matches Ok(f) ==> f@ == write_request_frame(unit, reg, value),
        r matches Ok(f) ==> f@.len() == 8 && f@.subrange(0, 6) == request_head(
            unit,
            WRITE_HOLDING,
            reg,
            value,
        ),
{
    let mut space = [0u8; FRAME_CAPACITY];
    let mut frame = FixedVec::new(&mut space);
    let mut request = ModbusRequest::new(unit, ModbusProto::Rtu);
    request.generate_set_holding(reg, value, &mut frame)?;
    Ok(frame.as_slice().to_vec())
}

/// Calls `ModbusRequest::generate_set_holdings_bulk` on a buffer of
/// `FRAME_CAPACITY` bytes. It succeeds exactly when the frame fits, which is
/// for up to `MAX_BULK_REGISTERS` values. The frame opens with
/// `request_head`, whose last word is the number of values; then come the
/// number of data bytes and the values, most significant byte first.
#[verifier::external_body]
pub(crate) fn encode_bulk_write(unit: u8, reg: u16, values: &[u16]) -> (r: Result<
    Vec<u8>,
    ErrorKind,
>)
    ensures
        r is Ok <==> values@.len() <= MAX_BULK_REGISTERS,
        r matches Ok(f) ==> f@ == bulk_write_request_frame(unit, reg, values@),
        r matches Ok(f) ==> f@.len() == 9 + 2 * values@.len() && f@.subrange(0, 6)
            == request_head(unit, WRITE_HOLDINGS, reg, values@.len() as u16) && f@[6] == 2
            * values@.len(),
        r matches Ok(f) ==> forall|i: int|
            0 <= i < values@.len() ==> f@[7 + 2 * i] == high_byte(values@[i]) && f@[8 + 2 * i]
                == low_byte(values@[i]),
{
    let mut space = [0u8; FRAME_CAPACITY];
    let mut frame = FixedVec::new(&mut space);
    let mut request = ModbusRequest::new(unit, ModbusProto::Rtu);
    request.generate_set_holdings_bulk(reg, values, &mut frame)?;
    Ok(frame.as_slice().to_vec())
}

/// Calls `ModbusRequest::parse_ok` on a request for `unit` with the given
/// function code, which `ModbusFunction::try_from` turns into the type that
/// the request holds. The result is named, not described: it depends on
/// the checksum, the unit and the function code found in `reply`.
#[verifier::external_body]
pub(crate) fn check_reply(unit: u8, function: u8, reply: &[u8]) -> (r: Result<(), ErrorKind>)
    ensures
        r == reply_verdict(unit, function, reply@),
{
    let mut request = ModbusRequest::new(unit, ModbusProto::Rtu);
    request.func = ModbusFunction::try_from(function)?;
    request.parse_ok(reply)
}

/// Calls `ModbusRequest::parse_u16` on a request for `unit` to read `count`
/// holding registers. Whether the reply is accepted is named, not
/// described; the registers of an accepted reply are `reply_words`. A reply
/// of exactly five bytes is left out: the call does not return on one that
/// it accepts.
#[verifier::external_body]
pub(crate) fn decode_registers(unit: u8, count: u16, reply: &[u8]) -> (r: Result<
    Vec<u16>,
    ErrorKind,
>)
    requires
        reply@.len() != 5,
    ensures
        match r {
            Ok(words) => registers_verdict(unit, count, reply@) == Ok::<Seq<u16>, ErrorKind>(
                words@,
            ) && words@ == reply_words(reply@, count),
            Err(e) => registers_verdict(unit, count, reply@) == Err::<Seq<u16>, ErrorKind>(e),
        },
{
    let mut request = ModbusRequest::new(unit, ModbusProto::Rtu);
    request.func = ModbusFunction::GetHoldings;
    request.count = count;
    let mut words = Vec::new();
    request.parse_u16(reply, &mut words)?;
    Ok(words)
}

} // verus!
