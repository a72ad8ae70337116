//! Failures reported by the codec and the engines.

use vstd::prelude::*;

verus! {

/// Everything that can go wrong while encoding or decoding Modbus messages.
#[derive(Clone, Copy, Debug, PartialEq, Eq)]
pub enum ModbusError {
    /// The requested subprotocol has no wire format in this library.
    NotImplemented,
    /// A message was handed to the encoder before it got a transaction id.
    MissingTransactionId,
    /// A value list mixes coils and registers.
    MixedDataTypes,
    /// A value list is empty.
    NoValues,
    /// A value list needs more payload bytes than the one-byte count can announce.
    TooManyValues,
    /// A 16-bit word that is neither `0xFF00` nor `0x0000` was read as a coil.
    InvalidCoilValue(u16),
    /// Fewer than seven bytes are left where a frame header should start.
    IncompleteHeader,
    /// A frame header announces a length of zero, which leaves no room for the unit id.
    InvalidLength,
    /// The buffer ends before the announced bytes were read.
    UnexpectedEndOfData,
    /// The function code byte is not one this library knows.
    UnknownFunctionCode(u8),
    /// The exception code byte is not one this library knows.
    UnknownExceptionCode(u8),
    /// The announced payload byte count differs from the one the value count implies.
    ByteCountMismatch { expected: u32, got: u32 },
    /// A message body holds bytes after its last field.
    TrailingBytes(usize),
    /// The function code belongs to none of the four tables.
    NoTableForFunctionCode,
}

impl ModbusError {
    /// The text of `message`, as a sequence of characters.
    pub open spec fn message_text(self) -> Seq<char> {
        match self {
            ModbusError::NotImplemented => "Not implemented"@,
            ModbusError::MissingTransactionId =>
                "Trying to serialize a message without transaction id"@,
            ModbusError::MixedDataTypes => "All values in a query must have the same type"@,
            ModbusError::NoValues => "At least one value must be sent"@,
            ModbusError::TooManyValues => "Too many values for a single message"@,
            ModbusError::InvalidCoilValue(_) =>
                "Only 0xFF00 and 0x0000 can be decoded to a coil"@,
            ModbusError::IncompleteHeader => "Not enough bytes to form an mbap"@,
            ModbusError::InvalidLength => "The mbap length field must be at least one"@,
            ModbusError::UnexpectedEndOfData => "Unexpected end of data"@,
            ModbusError::UnknownFunctionCode(_) => "Unknown function code"@,
            ModbusError::UnknownExceptionCode(_) => "Unknown exception code"@,
            ModbusError::ByteCountMismatch { .. } => "Unexpected byte count for values"@,
            ModbusError::TrailingBytes(_) => "Message too long"@,
            ModbusError::NoTableForFunctionCode => "Function code doesn't address any table"@,
        }
    }

    /// A short human-readable description of the failure.
    pub fn message(&self) -> (text: &'static str)
        ensures
            text@ == self.message_text(),
    {
        match self {
            ModbusError::NotImplemented => "Not implemented",
            ModbusError::MissingTransactionId =>
                "Trying to serialize a message without transaction id",
            ModbusError::MixedDataTypes => "All values in a query must have the same type",
            ModbusError::NoValues => "At least one value must be sent",
            ModbusError::TooManyValues => "Too many values for a single message",
            ModbusError::InvalidCoilValue(_) => "Only 0xFF00 and 0x0000 can be decoded to a coil",
            ModbusError::IncompleteHeader => "Not enough bytes to form an mbap",
            ModbusError::InvalidLength => "The mbap length field must be at least one",
            ModbusError::UnexpectedEndOfData => "Unexpected end of data",
            ModbusError::UnknownFunctionCode(_) => "Unknown function code",
            ModbusError::UnknownExceptionCode(_) => "Unknown exception code",
            ModbusError::ByteCountMismatch { .. } => "Unexpected byte count for values",
            ModbusError::TrailingBytes(_) => "Message too long",
            ModbusError::NoTableForFunctionCode => "Function code doesn't address any table",
        }
    }
}

} // verus!
