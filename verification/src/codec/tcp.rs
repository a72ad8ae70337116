//! The Modbus/TCP framing: a seven-byte header in front of every message
//! body, and any number of framed messages back to back in one buffer.

use vstd::prelude::*;
use crate::codec::cursor::{be_bytes, be_u16, push_u16, ByteCursor};
use crate::codec::views;
use crate::error::ModbusError;
use crate::messages::{FunctionCode, ModbusMessageData};

verus! {

/// A message type with a Modbus/TCP wire form.
pub trait ModbusTcpSerialize: Sized + View {
    /// The frame that carries this message, or the reason it has none.
    spec fn tcp_frame(&self) -> Result<Seq<u8>, ModbusError>;

    /// The messages that a buffer of frames decodes to, or the reason the
    /// buffer is refused.
    spec fn tcp_messages(data: Seq<u8>) -> Result<Seq<Self::V>, ModbusError>;

    /// Encodes the message as one frame.
    fn tcp_serialize(&self) -> (bytes: Result<Vec<u8>, ModbusError>)
        ensures
            match bytes {
                Ok(bytes) => self.tcp_frame() == Ok::<Seq<u8>, ModbusError>(bytes@),
                Err(error) => self.tcp_frame() == Err::<Seq<u8>, ModbusError>(error),
            },
    ;

    /// Decodes every message in a buffer of frames.
    fn tcp_deserialize(data: Vec<u8>) -> (messages: Result<Vec<Self>, ModbusError>)
        ensures
            match messages {
                Ok(messages) => Self::tcp_messages(data@) == Ok::<Seq<Self::V>, ModbusError>(
                    views(messages@),
                ),
                Err(error) => Self::tcp_messages(data@) == Err::<Seq<Self::V>, ModbusError>(error),
            },
    ;
}

/// The seven header bytes: transaction id, protocol id zero, the count of
/// the bytes that follow the length field, and the slave id.
pub open spec fn mbap_bytes(transaction_id: u16, length: u16, slave_id: u8) -> Seq<u8> {
    be_bytes(transaction_id) + be_bytes(0) + be_bytes(length) + seq![slave_id]
}

/// The header of a message, which only a message with a transaction id has.
pub open spec fn mbap_header(message_data: ModbusMessageData, length: u16) -> Result<
    Seq<u8>,
    ModbusError,
> {
    match message_data.transaction_id {
        Some(transaction_id) => Ok(mbap_bytes(transaction_id, length, message_data.slave_id)),
        None => Err(ModbusError::MissingTransactionId),
    }
}

/// A message body behind its header. The length field counts the slave id
/// and the body.
pub open spec fn framed(message_data: ModbusMessageData, body: Seq<u8>) -> Result<
    Seq<u8>,
    ModbusError,
> {
    match mbap_header(message_data, (body.len() + 1) as u16) {
        Ok(header) => Ok(header + body),
        Err(error) => Err(error),
    }
}

/// What the header at the front of `bytes` says: the transaction id and
/// slave id, with the function code still to be read, and the length of the
/// body that follows. The protocol id is not looked at.
pub open spec fn decoded_mbap(bytes: Seq<u8>) -> Result<(ModbusMessageData, u16), ModbusError> {
    if bytes.len() < 7 {
        Err(ModbusError::IncompleteHeader)
    } else if be_u16(bytes[4], bytes[5]) == 0 {
        Err(ModbusError::InvalidLength)
    } else {
        Ok(
            (
                ModbusMessageData {
                    transaction_id: Some(be_u16(bytes[0], bytes[1])),
                    slave_id: bytes[6],
                    function_code: FunctionCode::NoFunctionCode,
                },
                (be_u16(bytes[4], bytes[5]) - 1) as u16,
            ),
        )
    }
}

/// The first frame of `bytes` taken apart: what its header says, its body,
/// and the bytes after it.
pub open spec fn split_frame(bytes: Seq<u8>) -> Result<
    (ModbusMessageData, Seq<u8>, Seq<u8>),
    ModbusError,
> {
    match decoded_mbap(bytes) {
        Err(error) => Err(error),
        Ok((header, body_len)) => if bytes.len() - 7 < body_len {
            Err(ModbusError::UnexpectedEndOfData)
        } else {
            Ok((header, bytes.subrange(7, 7 + body_len), bytes.skip(7 + body_len)))
        },
    }
}

/// The messages in a buffer of frames, in their order.
///
/// `decode` reads one message from what a header says and the body behind
/// it: `Ok(Some(..))` is a message, `Ok(None)` a body that is passed over,
/// `Err(..)` a body that makes the whole buffer unreadable. A header that
/// cannot be read, or a body shorter than its header says, makes the whole
/// buffer unreadable too.
pub open spec fn parse_frames<M>(
    bytes: Seq<u8>,
    decode: spec_fn(ModbusMessageData, Seq<u8>) -> Result<Option<M>, ModbusError>,
) -> Result<Seq<M>, ModbusError>
    decreases bytes.len(),
{
    if bytes.len() == 0 {
        Ok(Seq::empty())
    } else {
        match split_frame(bytes) {
            Err(error) => Err(error),
            Ok((header, body, rest)) => match decode(header, body) {
                Err(error) => Err(error),
                Ok(message) => match parse_frames(rest, decode) {
                    Err(error) => Err(error),
                    Ok(others) => Ok(
                        match message {
                            Some(message) => seq![message] + others,
                            None => others,
                        },
                    ),
                },
            },
        }
    }
}

/// `messages` in front of what `rest` decodes to.
pub open spec fn following<M>(messages: Seq<M>, rest: Result<Seq<M>, ModbusError>) -> Result<
    Seq<M>,
    ModbusError,
> {
    match rest {
        Ok(others) => Ok(messages + others),
        Err(error) => Err(error),
    }
}

/// Encodes the header of a message whose unit id and body take `length`
/// bytes. Fails for a message without a transaction id.
pub fn serialize_mbap(message_data: &ModbusMessageData, length: u16) -> (header: Result<
    Vec<u8>,
    ModbusError,
>)
    ensures
        match header {
            Ok(header) => mbap_header(*message_data, length) == Ok::<Seq<u8>, ModbusError>(header@),
            Err(error) => mbap_header(*message_data, length) == Err::<Seq<u8>, ModbusError>(error),
        },
{
    let mut result: Vec<u8> = Vec::new();
    let transaction_id = match message_data.transaction_id {
        Some(transaction_id) => transaction_id,
        None => {
            return Err(ModbusError::MissingTransactionId);
        },
    };
    push_u16(&mut result, transaction_id);
    push_u16(&mut result, 0);
    push_u16(&mut result, length);
    result.push(message_data.slave_id);
    assert(result@ =~= mbap_bytes(transaction_id, length, message_data.slave_id));
    Ok(result)
}

/// Puts the header of `message_data` in front of `body`.
pub(crate) fn frame(message_data: &ModbusMessageData, body: Vec<u8>) -> (bytes: Result<
    Vec<u8>,
    ModbusError,
>)
    requires
        body@.len() < 0xFFFF,
    ensures
        match bytes {
            Ok(bytes) => framed(*message_data, body@) == Ok::<Seq<u8>, ModbusError>(bytes@),
            Err(error) => framed(*message_data, body@) == Err::<Seq<u8>, ModbusError>(error),
        },
{
    let mut body = body;
    match serialize_mbap(message_data, (body.len() + 1) as u16) {
        Ok(mut result) => {
            result.append(&mut body);
            Ok(result)
        },
        Err(error) => Err(error),
    }
}

/// Reads the header at the cursor and moves past it. Returns what it says
/// and the length of the body that follows. On an error the cursor stays
/// where it was.
pub fn deserialize_mbap(data: &mut ByteCursor) -> (header: Result<
    (ModbusMessageData, u16),
    ModbusError,
>)
    ensures
        header == decoded_mbap(old(data)@),
        final(data)@ == if header is Ok {
            old(data)@.skip(7)
        } else {
            old(data)@
        },
{
    if data.remaining() < 7 {
        return Err(ModbusError::IncompleteHeader);
    }
    let transaction_id = data.peek_u16(0);
    let _protocol_id = data.peek_u16(2);
    let length = data.peek_u16(4);
    let slave_id = data.peek_u8(6);
    if length == 0 {
        return Err(ModbusError::InvalidLength);
    }
    data.advance(7);
    Ok(
        (
            ModbusMessageData {
                transaction_id: Some(transaction_id),
                slave_id,
                function_code: FunctionCode::NoFunctionCode,
            },
            length - 1,
        ),
    )
}

/// A decoded message, or nothing where its fields could not be read.
pub open spec fn kept<M>(decoded: Result<M, ModbusError>) -> Option<M> {
    match decoded {
        Ok(message) => Some(message),
        Err(_) => None,
    }
}

/// Checks that nothing is left behind the last field of a message body.
pub fn check_consumed(data: &ByteCursor) -> (outcome: Result<(), ModbusError>)
    ensures
        match outcome {
            Ok(_) => data@.len() == 0,
            Err(error) => data@.len() > 0 && error == ModbusError::TrailingBytes(
                data@.len() as usize,
            ),
        },
{
    let left = data.remaining();
    if left != 0 {
        Err(ModbusError::TrailingBytes(left))
    } else {
        Ok(())
    }
}

/// Reads the frame at the cursor: the header, then the body it announces,
/// copied into a buffer of its own. The cursor moves past what was read; where
/// the body is shorter than announced it stays behind the header.
pub fn read_frame(data: &mut ByteCursor) -> (parts: Result<(ModbusMessageData, Vec<u8>), ModbusError>)
    ensures
        match parts {
            Ok((header, body)) => split_frame(old(data)@) == Ok::<
                (ModbusMessageData, Seq<u8>, Seq<u8>),
                ModbusError,
            >((header, body@, final(data)@)),
            Err(error) => split_frame(old(data)@) == Err::<
                (ModbusMessageData, Seq<u8>, Seq<u8>),
                ModbusError,
            >(error) && final(data)@ == if decoded_mbap(old(data)@) is Ok {
                old(data)@.skip(7)
            } else {
                old(data)@
            },
        },
{
    let (header, length) = match deserialize_mbap(data) {
        Ok(parts) => parts,
        Err(error) => {
            return Err(error);
        },
    };
    match data.read_exact(length as usize) {
        Ok(body) => {
            assert(body@ =~= old(data)@.subrange(7, 7 + length as int));
            assert(data@ =~= old(data)@.skip(7 + length as int));
            Ok((header, body))
        },
        Err(error) => Err(error),
    }
}

/// A buffer that starts with a readable frame decodes to that frame's
/// message, where it has one, followed by what the rest decodes to.
pub proof fn lemma_parse_frames_step<M>(
    bytes: Seq<u8>,
    decode: spec_fn(ModbusMessageData, Seq<u8>) -> Result<Option<M>, ModbusError>,
)
    requires
        bytes.len() > 0,
    ensures
        parse_frames(bytes, decode) == match split_frame(bytes) {
            Err(error) => Err(error),
            Ok((header, body, rest)) => match decode(header, body) {
                Err(error) => Err(error),
                Ok(Some(message)) => following(seq![message], parse_frames(rest, decode)),
                Ok(None) => parse_frames(rest, decode),
            },
        },
{
}

/// A framed body is taken apart again: the header gives back the
/// transaction id and the slave id, the body is the one that was framed, and
/// what stood behind the frame is left over.
pub proof fn lemma_frame_splits(message_data: ModbusMessageData, body: Seq<u8>, rest: Seq<u8>)
    requires
        message_data.transaction_id is Some,
        body.len() < 0xFFFF,
    ensures
        framed(message_data, body) is Ok,
        split_frame(framed(message_data, body)->Ok_0 + rest) == Ok::<
            (ModbusMessageData, Seq<u8>, Seq<u8>),
            ModbusError,
        >(
            (ModbusMessageData { function_code: FunctionCode::NoFunctionCode, ..message_data }, body, rest),
        ),
{
    let transaction_id = message_data.transaction_id->Some_0;
    let length = (body.len() + 1) as u16;
    let header = mbap_bytes(transaction_id, length, message_data.slave_id);
    let bytes = header + body + rest;
    crate::codec::cursor::lemma_be_round_trip(transaction_id, 0, 0);
    crate::codec::cursor::lemma_be_round_trip(length, 0, 0);
    assert(header.len() == 7);
    assert(bytes[0] == be_bytes(transaction_id)[0]);
    assert(bytes[1] == be_bytes(transaction_id)[1]);
    assert(bytes[4] == be_bytes(length)[0]);
    assert(bytes[5] == be_bytes(length)[1]);
    assert(bytes[6] == message_data.slave_id);
    assert(bytes.subrange(7, 7 + body.len() as int) =~= body);
    assert(bytes.skip(7 + body.len() as int) =~= rest);
}

} // verus!
